use vstd::prelude::*;

use crate::status_constraints::StatusCode;

verus! {

/// The status that stands for a process ended by signal `signal`.
pub const SIGNAL_STATUS_BASE: i32 = 128;

/// The status that a finished child is reported with.
/// `Ok` holds the exit code where there is one, else `128 + signal` where the platform
/// has signals and one was reported. `Err` holds the fallback status where neither can
/// be read: 128 where the platform has signals, 1 elsewhere; the caller reports it.
pub fn get_status_code(code: Option<i32>, signal: Option<i32>, has_signals: bool) -> (r: Result<
    StatusCode,
    StatusCode,
>)
    ensures
        r == match code {
            Some(c) => Ok(c),
            None => match signal {
                Some(s) if has_signals && s <= i32::MAX - SIGNAL_STATUS_BASE => Ok(
                    (SIGNAL_STATUS_BASE + s) as i32,
                ),
                _ => Err(
                    if has_signals {
                        SIGNAL_STATUS_BASE
                    } else {
                        1i32
                    },
                ),
            },
        },
{
    match code {
        Some(c) => Ok(c),
        None => match signal {
            Some(s) if has_signals && s <= i32::MAX - SIGNAL_STATUS_BASE => Ok(SIGNAL_STATUS_BASE + s),
            _ => Err(
                if has_signals {
                    SIGNAL_STATUS_BASE
                } else {
                    1
                },
            ),
        },
    }
}

} // verus!
