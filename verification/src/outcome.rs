//! What one run of a guest component concludes with: either a result — the
//! guest reached its own exit, successful or failed — or a bridge error.

use vstd::prelude::*;

verus! {

/// A completed run. A guest that signalled failure through its own exit path
/// still yields a result, with `failed` set: guest failure is not a bridge
/// failure.
#[derive(Debug)]
pub struct ExecutionResult {
    /// True when the guest's entry point returned its failure indication.
    pub failed: bool,
    /// Captured standard output, lossily decoded as text.
    pub stdout: String,
    /// Captured standard error, lossily decoded as text.
    pub stderr: String,
    /// The reported numeric exit status. The guest's command contract carries
    /// no number, so this is always zero; success and failure are told apart
    /// by `failed` alone. A known gap, kept deliberately.
    pub status_code: i32,
}

/// The bridge itself could not complete the run: a malformed request, a
/// sandbox construction failure, a load or instantiation failure, or a trap
/// before the guest reached a defined exit.
#[derive(Debug)]
pub struct ExecutionError {
    /// Human-readable description of the failure.
    pub message: String,
}

} // verus!
