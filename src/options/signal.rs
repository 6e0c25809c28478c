use vstd::prelude::*;

use crate::cli::Opts;
use crate::status_constraints::StatusCode;

verus! {

/// Runs the child once through `delegate` and passes its status on. Signals that
/// arrive meanwhile are not forwarded: no option asks for it yet.
pub fn handle<F: Fn() -> StatusCode>(_opts: &Opts, delegate: F) -> (r: StatusCode)
    requires
        delegate.requires(()),
    ensures
        delegate.ensures((), r),
{
    delegate()
}

} // verus!
