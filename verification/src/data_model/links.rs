//! Links: where the server keeps what belongs to a resource.
use vstd::prelude::*;

verus! {

/// Links for Singular Bucket
#[derive(Debug, Clone, PartialEq, Eq)]
pub struct BucketLinks {
    /// Labels API Link
    pub labels: String,
    /// Members API Link
    pub members: String,
    /// Owners API Link
    pub owners: String,
    /// Org API Link
    pub org: String,
    /// Bucket API Link
    pub bucket_self: String,
    /// Write API Link
    pub write: String,
}

/// Page Links
#[derive(Debug, Clone, PartialEq, Eq)]
pub struct Links {
    /// Next Links Page
    pub next: Option<String>,
    /// Previous Links Page
    pub prev: Option<String>,
    /// Current Links Page
    pub link_self: Option<String>,
}

} // verus!
