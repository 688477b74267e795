//! Shader program data model and compilation errors. Compiling and linking
//! happen in the backend; the pipeline only holds the linked program's
//! backend object name and the error shapes a failed build reports.

use vstd::prelude::*;

verus! {

/// Failures of shader compilation and program linking, as the backend
/// reports them.
#[derive(Debug)]
pub enum Error {
    CanNotDetermineShaderTypeForResource { name: String },
    CompileError { name: String, message: String },
    LinkError { name: String, message: String },
}

/// A linked shader program as the pipeline sees it.
#[derive(Debug)]
pub struct Program {
    /// Backend object name, assigned by the backend at link time.
    pub id: u32,
}

impl Program {
    pub fn new(id: u32) -> (r: Self)
        ensures
            r.id == id,
    {
        Program { id }
    }
}

} // verus!
