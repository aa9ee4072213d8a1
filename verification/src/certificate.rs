//! Certificates: the audit records of policy validation.

use vstd::prelude::*;
use crate::ids::ObjectId;

verus! {

/// What the validation of one step found.
#[derive(Clone, Debug, PartialEq, Eq)]
pub struct ValidationLog {
    /// Identifier of the device, in hexadecimal.
    pub device: String,
    /// Identifier of the module, in hexadecimal.
    pub module: String,
    pub func: String,
    pub node_zone: String,
    pub module_risk: String,
    pub input_risk: String,
    pub output_risk: String,
    pub valid: bool,
    /// Every check with its outcome, in the order of the checks.
    pub reasons: Vec<String>,
}

/// What a [`ValidationLog`] holds, as mathematical values.
pub struct ValidationLogView {
    pub device: Seq<char>,
    pub module: Seq<char>,
    pub func: Seq<char>,
    pub node_zone: Seq<char>,
    pub module_risk: Seq<char>,
    pub input_risk: Seq<char>,
    pub output_risk: Seq<char>,
    pub valid: bool,
    pub reasons: Seq<Seq<char>>,
}

impl DeepView for ValidationLog {
    type V = ValidationLogView;

    open spec fn deep_view(&self) -> ValidationLogView {
        ValidationLogView {
            device: self.device.deep_view(),
            module: self.module.deep_view(),
            func: self.func.deep_view(),
            node_zone: self.node_zone.deep_view(),
            module_risk: self.module_risk.deep_view(),
            input_risk: self.input_risk.deep_view(),
            output_risk: self.output_risk.deep_view(),
            valid: self.valid.deep_view(),
            reasons: self.reasons.deep_view(),
        }
    }
}

/// The record of one validation of a deployment.
#[derive(Clone, Debug, PartialEq, Eq)]
pub struct DeploymentCertificate {
    pub id: Option<ObjectId>,
    /// Time of the validation, in milliseconds since the epoch.
    pub date: i64,
    pub deployment_id: ObjectId,
    pub valid: bool,
    pub validation_logs: Vec<ValidationLog>,
}

/// What a [`DeploymentCertificate`] holds, as mathematical values.
pub struct DeploymentCertificateView {
    pub id: Option<ObjectId>,
    pub date: i64,
    pub deployment_id: ObjectId,
    pub valid: bool,
    pub validation_logs: Seq<ValidationLogView>,
}

impl DeepView for DeploymentCertificate {
    type V = DeploymentCertificateView;

    open spec fn deep_view(&self) -> DeploymentCertificateView {
        DeploymentCertificateView {
            id: self.id.deep_view(),
            date: self.date.deep_view(),
            deployment_id: self.deployment_id.deep_view(),
            valid: self.valid.deep_view(),
            validation_logs: self.validation_logs.deep_view(),
        }
    }
}

} // verus!
