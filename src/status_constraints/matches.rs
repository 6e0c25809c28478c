use vstd::prelude::*;

use super::{
    compares, constraint_holds, group_holds, set_holds, ConstraintType, StatusCode,
    StatusConstraint,
};

verus! {

/// Decides whether an exit status satisfies a constraint, a group or a set of groups.
pub trait MatchStatusCode {
    spec fn spec_matches(&self, code: StatusCode) -> bool;

    fn matches(&self, code: StatusCode) -> (r: bool)
        ensures
            r == self.spec_matches(code),
    ;
}

impl MatchStatusCode for StatusConstraint {
    open spec fn spec_matches(&self, code: StatusCode) -> bool {
        constraint_holds(*self, code as int)
    }

    fn matches(&self, code: StatusCode) -> (r: bool) {
        let compared = match self.typ {
            ConstraintType::Lte => code <= self.code,
            ConstraintType::Lt => code < self.code,
            ConstraintType::Eq => code == self.code,
            ConstraintType::Gt => code > self.code,
            ConstraintType::Gte => code >= self.code,
        };
        compared != self.negated
    }
}

impl MatchStatusCode for Vec<StatusConstraint> {
    open spec fn spec_matches(&self, code: StatusCode) -> bool {
        group_holds(self@, code as int)
    }

    fn matches(&self, code: StatusCode) -> (r: bool) {
        let mut i: usize = 0;
        while i < self.len()
            invariant
                i <= self@.len(),
                forall|j: int| 0 <= j < i ==> constraint_holds(#[trigger] self@[j], code as int),
            decreases self@.len() - i,
        {
            if !self[i].matches(code) {
                return false;
            }
            i += 1;
        }
        true
    }
}

impl MatchStatusCode for Vec<Vec<StatusConstraint>> {
    open spec fn spec_matches(&self, code: StatusCode) -> bool {
        set_holds(self@, code as int)
    }

    fn matches(&self, code: StatusCode) -> (r: bool) {
        let mut i: usize = 0;
        while i < self.len()
            invariant
                i <= self@.len(),
                forall|j: int| 0 <= j < i ==> !group_holds(#[trigger] self@[j]@, code as int),
            decreases self@.len() - i,
        {
            if self[i].matches(code) {
                return true;
            }
            i += 1;
        }
        false
    }
}

/// Negating a constraint inverts its verdict on every status.
pub proof fn lemma_negation_inverts(c: StatusConstraint, code: StatusCode)
    ensures
        constraint_holds(StatusConstraint { negated: !c.negated, ..c }, code as int)
            == !constraint_holds(c, code as int),
{
}

} // verus!
