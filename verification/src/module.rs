//! Modules: their exports, requirements, files and declared mounts.

use vstd::prelude::*;
use crate::ids::ObjectId;
use crate::openapi::OpenApiDocument;
use crate::ordered_map::OrderedMap;

verus! {

/// A function that a module exports.
#[derive(Clone, Debug, PartialEq, Eq)]
pub struct WasmExport {
    pub name: String,
    pub parameter_count: usize,
}

/// An import that a module needs from its host.
#[derive(Clone, Debug, PartialEq, Eq)]
pub struct WasmRequirement {
    pub module: String,
    /// Name of the supervisor interface.
    pub name: String,
    pub kind: String,
}

/// Where the binary of a module is stored.
#[derive(Clone, Debug, PartialEq, Eq)]
pub struct WasmBinaryInfo {
    pub original_filename: String,
    pub file_name: String,
    pub path: String,
}

/// Where a data file of a module is stored.
#[derive(Clone, Debug, PartialEq, Eq)]
pub struct DataFileInfo {
    pub original_filename: String,
    pub file_name: String,
    pub path: String,
}

/// When a mounted file has to be present.
#[derive(Clone, Copy, Debug, PartialEq, Eq, Structural)]
pub enum MountStage {
    Deployment,
    Execution,
    Output,
}

impl DeepView for MountStage {
    type V = MountStage;

    open spec fn deep_view(&self) -> MountStage {
        *self
    }
}

/// Declared metadata of one mount of a function.
#[derive(Clone, Debug, PartialEq, Eq)]
pub struct ModuleMount {
    pub media_type: String,
    pub stage: MountStage,
}

/// A stored module.
#[derive(Clone, Debug, PartialEq, Eq)]
pub struct ModuleDoc {
    pub id: Option<ObjectId>,
    pub name: String,
    pub exports: Vec<WasmExport>,
    pub requirements: Vec<WasmRequirement>,
    pub wasm: WasmBinaryInfo,
    /// Data files by name.
    pub data_files: OrderedMap<DataFileInfo>,
    pub description: OpenApiDocument,
    /// Declared mounts: by function, then by path.
    pub mounts: OrderedMap<OrderedMap<ModuleMount>>,
}

} // verus!
