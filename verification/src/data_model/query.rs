//! Queries: what is asked of the server, and what it says of a query.
use crate::data_model::file::File;
use vstd::prelude::*;

verus! {

/// Struct designed for Deleting Data
#[derive(Debug, Clone, PartialEq, Eq)]
pub struct DeleteQuery {
    /// Predicate to run
    /// measurement="tempmeasurement"
    /// key="value"
    pub predicate: String,
    /// Start Time of when to find predicate
    pub start: String,
    /// End Time of when to find predicate
    pub stop: String,
}

/// Query influx using the Flux language
#[derive(Clone, Debug, PartialEq, Eq)]
pub struct ReadQuery {
    /// Query Script
    pub external: Option<File>,
    /// Query script to execute.
    pub query: String,
    /// The type of query. Must be \"flux\".
    pub type_: Option<Type>,
    /// Dialect
    pub dialect: Option<String>,
    /// Specifies the time that should be reported as "now" in the query.
    /// Default is the server's now time.
    pub now: Option<String>,
}

impl Default for ReadQuery {
    fn default() -> (query: ReadQuery)
        ensures
            query.external is None,
            query.query@.len() == 0,
            query.type_ is None,
            query.dialect is None,
            query.now is None,
    {
        ReadQuery { external: None, query: String::new(), type_: None, dialect: None, now: None }
    }
}

/// The type of query. Must be \"flux\".
#[derive(Clone, Copy, Debug, Eq, PartialEq, Ord, PartialOrd, Hash)]
pub enum Type {
    /// Query Type
    Flux,
}

/// AnalyzeQueryResponse
#[derive(Clone, Debug, PartialEq, Eq)]
pub struct AnalyzeQueryResponse {
    /// List of QueryResponseErrors
    pub errors: Vec<AnalyzeQueryResponseErrors>,
}

impl AnalyzeQueryResponse {
    /// Return an instance of AnanlyzeQueryResponse
    pub fn new() -> (response: AnalyzeQueryResponse)
        ensures
            response.errors@.len() == 0,
    {
        AnalyzeQueryResponse::default()
    }
}

impl Default for AnalyzeQueryResponse {
    fn default() -> (response: AnalyzeQueryResponse)
        ensures
            response.errors@.len() == 0,
    {
        AnalyzeQueryResponse { errors: Vec::new() }
    }
}

/// AnalyzeQueryResponseErrors
#[derive(Clone, Debug, PartialEq, Eq)]
pub struct AnalyzeQueryResponseErrors {
    /// Error line
    pub line: Option<i32>,
    /// Error column
    pub column: Option<i32>,
    /// Error char
    pub character: Option<i32>,
    /// Error message
    pub message: Option<String>,
}

impl AnalyzeQueryResponseErrors {
    /// Whether nothing is set: no line, column, character or message.
    pub open spec fn is_blank(&self) -> bool {
        &&& self.line is None
        &&& self.column is None
        &&& self.character is None
        &&& self.message is None
    }

    /// Return an instance of AnalyzeQueryResponseErrors
    pub fn new() -> (errors: AnalyzeQueryResponseErrors)
        ensures
            errors.is_blank(),
    {
        AnalyzeQueryResponseErrors::default()
    }
}

impl Default for AnalyzeQueryResponseErrors {
    fn default() -> (errors: AnalyzeQueryResponseErrors)
        ensures
            errors.is_blank(),
    {
        AnalyzeQueryResponseErrors { line: None, column: None, character: None, message: None }
    }
}

} // verus!
