//! Zones and the cards that policy is checked against.

use vstd::prelude::*;
use crate::ids::ObjectId;

verus! {

/// A zone with the risk levels that it admits.
#[derive(Clone, Debug, PartialEq, Eq)]
pub struct Zones {
    pub id: Option<ObjectId>,
    /// Name of the zone.
    pub zone: Option<String>,
    pub allowed_risk_levels: Option<Vec<String>>,
    pub ty: Option<String>,
    pub levels: Option<Vec<String>>,
}

/// The card of a device: the zone in which it stands.
#[derive(Clone, Debug, PartialEq, Eq)]
pub struct NodeCard {
    pub id: Option<ObjectId>,
    pub name: String,
    /// Identifier of the device.
    pub nodeid: ObjectId,
    pub zone: String,
}

/// The card of a module: its risk level, the type of its input and the risk of its output.
#[derive(Clone, Debug, PartialEq, Eq)]
pub struct ModuleCard {
    pub id: Option<ObjectId>,
    pub moduleid: ObjectId,
    pub name: String,
    pub risk_level: String,
    /// `temp` where the input is the output of the step before.
    pub input_type: String,
    /// A risk level, or `inherit` to pass on the risk of the input.
    pub output_risk: String,
}

/// The card of a data source on a device.
#[derive(Clone, Debug, PartialEq, Eq)]
pub struct DatasourceCard {
    pub id: Option<ObjectId>,
    pub name: String,
    /// Type of the data, matched against the input type of a module.
    pub ty: String,
    pub risk_level: String,
    /// Identifier of the device.
    pub nodeid: ObjectId,
}

/// A zone with the risk levels that a policy grants it.
#[derive(Debug, PartialEq, Eq)]
pub struct ZoneRiskMapping {
    pub zone: String,
    pub allowed_risk_levels: Vec<String>,
}

/// What a [`ZoneRiskMapping`] holds, as mathematical values.
pub struct ZoneRiskMappingView {
    pub zone: Seq<char>,
    pub allowed_risk_levels: Seq<Seq<char>>,
}

impl DeepView for ZoneRiskMapping {
    type V = ZoneRiskMappingView;

    open spec fn deep_view(&self) -> ZoneRiskMappingView {
        ZoneRiskMappingView {
            zone: self.zone.deep_view(),
            allowed_risk_levels: self.allowed_risk_levels.deep_view(),
        }
    }
}

impl Clone for ZoneRiskMapping {
    fn clone(&self) -> (copy: ZoneRiskMapping)
        ensures
            copy.deep_view() == self.deep_view(),
    {
        let copy = ZoneRiskMapping {
            zone: self.zone.clone(),
            allowed_risk_levels: self.allowed_risk_levels.clone(),
        };
        assert(copy.allowed_risk_levels.deep_view() =~= self.allowed_risk_levels.deep_view());
        copy
    }
}

} // verus!
