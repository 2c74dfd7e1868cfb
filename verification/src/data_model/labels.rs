//! Labels: names that are attached to resources.
use vstd::prelude::*;

verus! {

/// Label Struct
#[derive(Debug, Clone, PartialEq, Eq)]
pub struct Labels {
    /// Internal ID of label in InfluxDB
    pub id: String,
    /// Name of Label
    pub name: String,
    /// Org it is owned by
    pub org_id: String,
    /// Properties of Label
    pub properties: Properties,
}

/// Properties for Labels
#[derive(Debug, Clone, PartialEq, Eq)]
pub struct Properties {
    /// Color of Label
    pub color: String,
    /// Description,
    pub description: String,
}

} // verus!
