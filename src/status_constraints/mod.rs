use vstd::prelude::*;

mod matches;
mod parse;

pub use matches::MatchStatusCode;
pub use parse::{parse_status_constraints, OutOfRange, ParseStatusConstraintsError};

verus! {

/// The status a process exited with, or a surrogate for the signal that ended it.
pub type StatusCode = i32;

/// The comparison that a constraint applies between a status and its threshold.
#[derive(Clone, Copy, Debug, PartialEq, Eq, Structural)]
pub enum ConstraintType {
    Lt,
    Lte,
    Eq,
    Gte,
    Gt,
}

/// One comparison against a threshold status, optionally inverted.
#[derive(Clone, Copy, Debug, PartialEq, Eq, Structural)]
pub struct StatusConstraint {
    pub typ: ConstraintType,
    pub code: StatusCode,
    pub negated: bool,
}

/// Whether `code` compares to `threshold` as `typ` says.
pub open spec fn compares(typ: ConstraintType, code: int, threshold: int) -> bool {
    match typ {
        ConstraintType::Lt => code < threshold,
        ConstraintType::Lte => code <= threshold,
        ConstraintType::Eq => code == threshold,
        ConstraintType::Gte => code >= threshold,
        ConstraintType::Gt => code > threshold,
    }
}

/// A constraint holds when its comparison holds, unless it is negated, in which case
/// it holds exactly when the comparison fails.
pub open spec fn constraint_holds(c: StatusConstraint, code: int) -> bool {
    compares(c.typ, code, c.code as int) != c.negated
}

/// A group of constraints holds when every one of them holds.
pub open spec fn group_holds(g: Seq<StatusConstraint>, code: int) -> bool {
    forall|i: int| 0 <= i < g.len() ==> constraint_holds(#[trigger] g[i], code)
}

/// A set of groups holds when at least one of its groups holds.
pub open spec fn set_holds(s: Seq<Vec<StatusConstraint>>, code: int) -> bool {
    exists|i: int| 0 <= i < s.len() && group_holds(#[trigger] s[i]@, code)
}

/// An absent set never holds.
pub open spec fn option_set_holds(s: Option<Vec<Vec<StatusConstraint>>>, code: int) -> bool {
    match s {
        Some(set) => set_holds(set@, code),
        None => false,
    }
}

} // verus!
