//! The per-call sandbox session: a state machine from construction through
//! invocation to exactly one terminal outcome.
//!
//! The bridge decides; the host integration performs. Each transition below
//! absorbs the observed outcome of one outside step — building the isolated
//! runtime configuration, linking the two allowed capability surfaces,
//! loading the guest component from its file, instantiating it, invoking its
//! command entry point — and moves the session forward, or to `Failed` with
//! the originating cause. No step is skipped, nothing is retried, and a
//! finished session is exactly one of `Completed` or `Failed`.

use vstd::prelude::*;

use crate::outcome::{ExecutionError, ExecutionResult};
use crate::text::{lossy_decode, lossy_utf8};

verus! {

/// Where a call stands in its lifecycle.
#[derive(Debug)]
pub enum Phase {
    /// Nothing is built yet.
    Unstarted,
    /// The fresh, isolated runtime configuration exists, with synchronous
    /// execution semantics.
    Configured,
    /// The fresh linker exists and carries exactly the two allowed capability
    /// surfaces: the standard stdio/args/env/clocks set, and outbound HTTP
    /// client requests. Nothing else is ever exposed to the guest.
    Linked,
    /// The guest component is loaded from its file.
    Loaded,
    /// The component is instantiated against the linker, every declared
    /// import resolved within the two capability surfaces.
    Instantiated,
    /// The entry point returned normally, with success or with the guest's
    /// own failure indication.
    Invoked { guest_failed: bool },
    /// Terminal: the run concluded with a result.
    Completed { result: ExecutionResult },
    /// Terminal: the bridge could not complete the run.
    Failed { error: ExecutionError },
}

/// How the guest's entry point ended, as the host integration observed it.
#[derive(Debug)]
pub enum RunOutcome {
    /// The entry point returned: success, or the guest's own explicit failure
    /// indication. Either way the guest reached a defined exit state.
    Exited { guest_failed: bool },
    /// The guest trapped: it terminated abnormally, before reaching any
    /// defined exit state.
    Trapped { message: String },
}

/// All a result says, as mathematical values: the guest's verdict, the two
/// captured texts, and the reported status.
pub open spec fn result_view(r: ExecutionResult) -> (bool, Seq<char>, Seq<char>, int) {
    (r.failed, r.stdout@, r.stderr@, r.status_code as int)
}

/// The one result a run concludes with, given the guest's verdict and the
/// bytes the two capped buffers captured: each stream decoded lossily, and
/// status zero — the guest's command contract carries no number, so success
/// and failure are told apart by the verdict alone (a known gap, kept).
pub open spec fn completed_view(guest_failed: bool, stdout: Seq<u8>, stderr: Seq<u8>) -> (
    bool,
    Seq<char>,
    Seq<char>,
    int,
) {
    (guest_failed, lossy_utf8(stdout), lossy_utf8(stderr), 0)
}

impl Phase {
    /// The phases in which a construction step is still owed.
    pub open spec fn is_setup(self) -> bool {
        self is Unstarted || self is Configured || self is Linked || self is Loaded
    }

    /// The phase a successful construction step leads to. No phase is ever
    /// skipped.
    pub open spec fn next_setup(self) -> Phase {
        match self {
            Phase::Unstarted => Phase::Configured,
            Phase::Configured => Phase::Linked,
            Phase::Linked => Phase::Loaded,
            Phase::Loaded => Phase::Instantiated,
            _ => self,
        }
    }

    /// A finished session.
    pub open spec fn is_terminal(self) -> bool {
        self is Completed || self is Failed
    }

    /// The position of a phase along the call's lifecycle.
    pub open spec fn rank(self) -> int {
        match self {
            Phase::Unstarted => 0,
            Phase::Configured => 1,
            Phase::Linked => 2,
            Phase::Loaded => 3,
            Phase::Instantiated => 4,
            Phase::Invoked { .. } => 5,
            Phase::Completed { .. } => 6,
            Phase::Failed { .. } => 6,
        }
    }

    /// Absorb the outcome of the construction step owed in this phase: move
    /// one phase forward on success, or directly to `Failed` carrying the
    /// underlying cause. There is no retry and no partial result.
    pub fn advance_setup(self, step: Result<(), String>) -> (r: Phase)
        requires
            self.is_setup(),
        ensures
            (step is Ok ==> r == self.next_setup()),
            (step matches Err(m) ==> r matches Phase::Failed { error } && error.message == m),
            (r is Failed <==> step is Err),
    {
        match step {
            Ok(()) => match self {
                Phase::Unstarted => Phase::Configured,
                Phase::Configured => Phase::Linked,
                Phase::Linked => Phase::Loaded,
                Phase::Loaded => Phase::Instantiated,
                p => p,
            },
            Err(message) => Phase::Failed { error: ExecutionError { message } },
        }
    }

    /// Absorb the invocation's outcome. A normal return — even the guest's
    /// own failure indication — moves to `Invoked`; a trap is a bridge
    /// failure, surfaced as an error and never as a result with `failed`
    /// set, because the guest never reached a defined exit state.
    pub fn absorb_run(self, outcome: RunOutcome) -> (r: Phase)
        requires
            self is Instantiated,
        ensures
            (outcome matches RunOutcome::Exited { guest_failed } ==> r == (Phase::Invoked {
                guest_failed,
            })),
            (outcome matches RunOutcome::Trapped { message } ==> r matches Phase::Failed { error }
                && error.message == message),
            (r is Failed <==> outcome is Trapped),
    {
        match outcome {
            RunOutcome::Exited { guest_failed } => Phase::Invoked { guest_failed },
            RunOutcome::Trapped { message } => Phase::Failed {
                error: ExecutionError { message },
            },
        }
    }

    /// Conclude an invoked run from the bytes the two capped buffers
    /// captured. Never fails: however much the guest wrote and however it
    /// exited, a result is owed, with each stream decoded lossily and the
    /// reported status zero.
    pub fn complete(self, stdout_bytes: Vec<u8>, stderr_bytes: Vec<u8>) -> (r: Phase)
        requires
            self is Invoked,
        ensures
            r matches Phase::Completed { result } && result_view(result) == completed_view(
                self->guest_failed,
                stdout_bytes@,
                stderr_bytes@,
            ),
            r->result.stdout@.len() <= stdout_bytes@.len(),
            r->result.stderr@.len() <= stderr_bytes@.len(),
    {
        let failed: bool = match &self {
            Phase::Invoked { guest_failed } => *guest_failed,
            _ => false,
        };
        let stdout = lossy_decode(&stdout_bytes);
        let stderr = lossy_decode(&stderr_bytes);
        Phase::Completed { result: ExecutionResult { failed, stdout, stderr, status_code: 0 } }
    }

    /// Hand the terminal outcome out: exactly one of a result or an error,
    /// never both, never neither.
    pub fn conclude(self) -> (r: Result<ExecutionResult, ExecutionError>)
        requires
            self.is_terminal(),
        ensures
            (self matches Phase::Completed { result } ==> r == Ok::<
                ExecutionResult,
                ExecutionError,
            >(result)),
            (self matches Phase::Failed { error } ==> r == Err::<
                ExecutionResult,
                ExecutionError,
            >(error)),
            (r is Ok <==> self is Completed),
    {
        match self {
            Phase::Completed { result } => Ok(result),
            Phase::Failed { error } => Err(error),
            _ => Err(ExecutionError { message: String::new() }),
        }
    }
}

/// No transition is skipped: a successful construction step moves the
/// session exactly one phase forward, and never into a terminal phase.
pub proof fn lemma_no_phase_skipped(p: Phase)
    requires
        p.is_setup(),
    ensures
        p.next_setup().rank() == p.rank() + 1,
        !p.next_setup().is_terminal(),
{
}

/// Isolation: what a run concludes with is a function of that run's own
/// observed verdict and captured bytes alone. Two runs whose own inputs are
/// equal conclude equally; nothing of any other call stands in the
/// conclusion.
pub proof fn lemma_conclusion_isolated(
    failed_a: bool,
    out_a: Seq<u8>,
    err_a: Seq<u8>,
    failed_b: bool,
    out_b: Seq<u8>,
    err_b: Seq<u8>,
)
    requires
        failed_a == failed_b,
        out_a == out_b,
        err_a == err_b,
    ensures
        completed_view(failed_a, out_a, err_a) == completed_view(failed_b, out_b, err_b),
{
}

} // verus!
