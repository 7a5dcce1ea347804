//! The execution-engine boundary: backends that consume lifted functions
//! implement this trait outside the verified core.

use vstd::prelude::*;

verus! {

/// An error reported by an execution backend.
#[derive(Debug, Clone, PartialEq)]
pub struct RunError {
    pub message: Vec<u8>,
}

/// An object that executes the loaded binary. All execution must be stopped
/// when `run` returns.
pub trait ExecutionEngine {
    fn run(&mut self) -> Result<(), RunError>;
}

} // verus!
