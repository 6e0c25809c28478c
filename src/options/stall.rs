use vstd::prelude::*;

use crate::cli::Opts;
use crate::status_constraints::{option_set_holds, MatchStatusCode, StatusCode};

verus! {

/// Whether a run that ended with `child_status` is to be followed by holding the
/// supervisor until it is interrupted: the stall set is given and one of its groups
/// matches.
pub fn handle(opts: &Opts, child_status: StatusCode) -> (r: bool)
    ensures
        r == option_set_holds(opts.stall, child_status as int),
{
    match &opts.stall {
        Some(set) => set.matches(child_status),
        None => false,
    }
}

} // verus!
