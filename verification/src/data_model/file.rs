//! File
use vstd::prelude::*;

verus! {

/// Represents a source from a single file
#[derive(Clone, Debug, PartialEq, Eq)]
pub struct File {
    /// Type of node
    pub type_: Option<String>,
    /// The name of the file.
    pub name: Option<String>,
    /// PackageClause
    pub package: Option<String>,
    /// A list of package imports
    pub imports: Vec<String>,
    /// List of Flux statements
    pub body: Vec<String>,
}

impl File {
    /// Whether nothing is set: no type, name or package, no import and no
    /// statement.
    pub open spec fn is_blank(&self) -> bool {
        &&& self.type_ is None
        &&& self.name is None
        &&& self.package is None
        &&& self.imports@.len() == 0
        &&& self.body@.len() == 0
    }

    /// Represents a source from a single file
    pub fn new() -> (file: File)
        ensures
            file.is_blank(),
    {
        File::default()
    }
}

impl Default for File {
    fn default() -> (file: File)
        ensures
            file.is_blank(),
    {
        File { type_: None, name: None, package: None, imports: Vec::new(), body: Vec::new() }
    }
}

} // verus!
