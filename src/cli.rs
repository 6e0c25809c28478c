use vstd::prelude::*;

use crate::status_constraints::StatusConstraint;

verus! {

/// What the command line asks for: the constraint sets that decide reruns and stalls,
/// and the command to supervise.
pub struct Opts {
    /// One group per occurrence of the rerun option; `None` where it was not given.
    pub rerun: Option<Vec<Vec<StatusConstraint>>>,
    /// One group per occurrence of the stall option; `None` where it was not given.
    pub stall: Option<Vec<Vec<StatusConstraint>>>,
    pub command: String,
    pub args: Vec<String>,
}

} // verus!
