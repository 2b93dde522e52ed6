use vstd::prelude::*;

verus! {

/// A coherence or fidelity score, held in fixed point as a count of
/// thousandths, so that exact values can be stated and compared. A score
/// of `1.0` is `Score { thousandths: 1000 }`; the range is otherwise
/// unconstrained.
#[derive(Clone, Copy, Debug, PartialEq, Eq, Structural)]
pub struct Score {
    pub thousandths: i64,
}

impl Score {
    /// The score `1.0`, the default coherence of a fresh node and the
    /// default fidelity of a fresh handover.
    pub open spec fn is_one(self) -> bool {
        self.thousandths == 1000
    }

    pub fn one() -> (s: Score)
        ensures
            s.is_one(),
    {
        Score { thousandths: 1000 }
    }
}

} // verus!
