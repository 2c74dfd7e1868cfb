//! Buckets: where the points of a database are kept.
use crate::data_model::labels::Labels;
use crate::data_model::links::{BucketLinks, Links};
use crate::data_model::retention_rules::RetentionRules;
use vstd::prelude::*;

verus! {

/// Multiple Buckets Struct, used when retrieving list of all buckets from api/v2/buckets
#[derive(Debug, Clone, PartialEq, Eq)]
pub struct MultiBuckets {
    /// Created At
    pub created_at: String,
    /// Optional Description of Bucket
    pub description: Option<String>,
    /// Name of bucket
    pub name: String,
    /// Array of Labels
    pub labels: Vec<Labels>,
    /// Internal ID of bucket in InfluxDB
    pub id: String,
    /// Bucket API Links
    pub links: BucketLinks,
    /// Org it is owned by
    pub org_id: String,
    /// Retenetion Rules
    pub retention_rules: Vec<RetentionRules>,
    /// Precision
    pub rp: Option<String>,
    /// Optional Schema Type "Implicit" / "Explicit"
    pub schema_type: Option<String>,
    /// Whether the bucket is the user's or the system's
    pub user_type: String,
}

/// Buckets Struct when retrieving list of Orgs from api/v2/buckets
#[derive(Debug, Clone, PartialEq, Eq)]
pub struct Buckets {
    /// Links
    pub links: Links,
    /// Org Structs
    pub buckets: Vec<MultiBuckets>,
}

/// Single Bucket Struct
#[derive(Debug, Clone, PartialEq, Eq)]
pub struct Bucket {
    /// Optional Description of Bucket
    pub description: String,
    /// Name of bucket
    pub name: String,
    /// Org it is owned by
    pub org_id: String,
    /// Retenetion Rules
    pub retention_rules: Vec<RetentionRules>,
    /// Precision
    pub rp: Option<String>,
    /// Optional Schema Type "Implicit" / "Explicit"
    pub schema_type: String,
}

} // verus!
