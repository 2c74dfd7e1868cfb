//! Retention rules: how long a bucket keeps its points.
use vstd::prelude::*;

verus! {

/// Rules to expire or retain data. No rules means data never expires.
#[derive(Debug, Clone, PartialEq, Eq)]
pub struct RetentionRules {
    ///Duration in seconds for how long data will be kept in the database. 0 means infinite.
    pub every_seconds: i64,
    ///Shard duration measured in seconds.
    pub shard_group_duration_seconds: i64,
    ///Default: "expire"
    /// Value: "expire"
    pub retention_type: String,
}

} // verus!
