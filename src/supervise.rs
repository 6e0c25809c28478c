use vstd::prelude::*;

use crate::cli::Opts;
use crate::options::{rerun, stall};
use crate::status_constraints::{option_set_holds, StatusCode, StatusConstraint};

verus! {

/// What the supervisor does once the child has exited.
#[derive(Clone, Copy, Debug, PartialEq, Eq, Structural)]
pub enum Next {
    /// Run the child again at once.
    Rerun,
    /// Hold the supervisor, without returning, until the process is interrupted.
    Stall,
    /// Exit with this status.
    Exit(StatusCode),
}

/// The rerun set is consulted first; the stall set only where no rerun is due.
pub open spec fn next_spec(
    rerun: Option<Vec<Vec<StatusConstraint>>>,
    stall: Option<Vec<Vec<StatusConstraint>>>,
    child_status: StatusCode,
) -> Next {
    if option_set_holds(rerun, child_status as int) {
        Next::Rerun
    } else if option_set_holds(stall, child_status as int) {
        Next::Stall
    } else {
        Next::Exit(child_status)
    }
}

/// Decides the supervisor's next step after a run of the child ended with `child_status`.
pub fn next_step(opts: &Opts, child_status: StatusCode) -> (r: Next)
    ensures
        r == next_spec(opts.rerun, opts.stall, child_status),
{
    if rerun::handle(opts, child_status) {
        Next::Rerun
    } else if stall::handle(opts, child_status) {
        Next::Stall
    } else {
        Next::Exit(child_status)
    }
}

/// A status that both sets match leads to a rerun, never to a stall.
pub proof fn lemma_rerun_precedes_stall(opts: &Opts, child_status: StatusCode)
    requires
        option_set_holds(opts.rerun, child_status as int),
        option_set_holds(opts.stall, child_status as int),
    ensures
        next_spec(opts.rerun, opts.stall, child_status) == Next::Rerun,
{
}

/// Where neither set matches, the supervisor exits with the child's own status.
pub proof fn lemma_unmatched_status_passes_through(opts: &Opts, child_status: StatusCode)
    requires
        !option_set_holds(opts.rerun, child_status as int),
        !option_set_holds(opts.stall, child_status as int),
    ensures
        next_spec(opts.rerun, opts.stall, child_status) == Next::Exit(child_status),
{
}

} // verus!
