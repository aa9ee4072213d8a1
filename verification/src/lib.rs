//! Deployment planning for WebAssembly functions on a fleet of devices:
//! device selection, per-device manifests, zone and risk policy, and the
//! decisions that drive an execution chain.

pub mod cards;
pub mod certificate;
pub mod deployment;
pub mod description;
pub mod device;
pub mod errors;
pub mod execution;
pub mod ids;
pub mod json;
pub mod manifest;
pub mod manifest_laws;
pub mod module;
pub mod mounts;
pub mod openapi;
pub mod ordered_map;
pub mod policy;
pub mod push;
pub mod resolver;
pub mod results;
pub mod text;
pub mod zones;
