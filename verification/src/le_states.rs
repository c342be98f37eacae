//! LE Controller states, single or combined.
use vstd::prelude::*;

verus! {

/// A single state of the LE Controller.
#[derive(Debug, Clone, Copy, PartialEq, Eq, Structural, PartialOrd, Ord)]
pub enum LeSingleState {
    ScannableAdvertising,
    ConnectableAdvertising,
    NonConnectableAdvertising,
    HighDutyCycleDirectedAdvertising,
    LowDutyCycleDirectedAdvertising,
    ActiveScanning,
    PassiveScanning,
    Initiating,
    ConnectionMasterRole,
    ConnectionSlaveRole,
}

impl LeSingleState {
    /// The position of the state in the declaration order, which orders the states.
    pub open spec fn spec_rank(self) -> u8 {
        match self {
            LeSingleState::ScannableAdvertising => 0,
            LeSingleState::ConnectableAdvertising => 1,
            LeSingleState::NonConnectableAdvertising => 2,
            LeSingleState::HighDutyCycleDirectedAdvertising => 3,
            LeSingleState::LowDutyCycleDirectedAdvertising => 4,
            LeSingleState::ActiveScanning => 5,
            LeSingleState::PassiveScanning => 6,
            LeSingleState::Initiating => 7,
            LeSingleState::ConnectionMasterRole => 8,
            LeSingleState::ConnectionSlaveRole => 9,
        }
    }

    /// The position of the state in the declaration order, which orders the states.
    pub fn rank(&self) -> (r: u8)
        ensures
            r == self.spec_rank(),
    {
        match self {
            LeSingleState::ScannableAdvertising => 0,
            LeSingleState::ConnectableAdvertising => 1,
            LeSingleState::NonConnectableAdvertising => 2,
            LeSingleState::HighDutyCycleDirectedAdvertising => 3,
            LeSingleState::LowDutyCycleDirectedAdvertising => 4,
            LeSingleState::ActiveScanning => 5,
            LeSingleState::PassiveScanning => 6,
            LeSingleState::Initiating => 7,
            LeSingleState::ConnectionMasterRole => 8,
            LeSingleState::ConnectionSlaveRole => 9,
        }
    }

    /// Distinct states have distinct ranks.
    pub proof fn lemma_rank_injective(a: LeSingleState, b: LeSingleState)
        ensures
            a.spec_rank() == b.spec_rank() ==> a == b,
    {
    }
}

/// A combination of two states of the LE Controller, in either order.
#[derive(Debug, Clone, Copy, Eq)]
pub struct LeCombinedState(pub LeSingleState, pub LeSingleState);

/// Whether two combined states hold the same two states, in either order.
pub open spec fn spec_combined_eq(a: LeCombinedState, b: LeCombinedState) -> bool {
    (a.0 == b.0 && a.1 == b.1) || (a.0 == b.1 && a.1 == b.0)
}

impl PartialEq for LeCombinedState {
    fn eq(&self, other: &LeCombinedState) -> (r: bool) {
        (self.0 == other.0 && self.1 == other.1) || (self.0 == other.1 && self.1 == other.0)
    }
}

impl vstd::std_specs::cmp::PartialEqSpecImpl for LeCombinedState {
    open spec fn obeys_eq_spec() -> bool {
        true
    }

    open spec fn eq_spec(&self, other: &LeCombinedState) -> bool {
        spec_combined_eq(*self, *other)
    }
}

/// A state of the LE Controller: a single state or a combination of two.
#[derive(Debug, Clone, Copy, Eq)]
pub enum LeState {
    Single(LeSingleState),
    Combined(LeCombinedState),
}

impl LeState {
    /// The canonical form of a state: a combination of a state with itself is that single state,
    /// and the two states of a combination are put in order.
    pub open spec fn spec_simplify(self) -> LeState {
        match self {
            LeState::Single(_) => self,
            LeState::Combined(c) => if c.0 == c.1 {
                LeState::Single(c.0)
            } else if c.0.spec_rank() < c.1.spec_rank() {
                LeState::Combined(LeCombinedState(c.0, c.1))
            } else {
                LeState::Combined(LeCombinedState(c.1, c.0))
            },
        }
    }

    /// Whether two states are equal: their canonical forms are.
    pub open spec fn spec_eq(a: LeState, b: LeState) -> bool {
        match (a.spec_simplify(), b.spec_simplify()) {
            (LeState::Single(x), LeState::Single(y)) => x == y,
            (LeState::Combined(x), LeState::Combined(y)) => spec_combined_eq(x, y),
            _ => false,
        }
    }

    /// The canonical form of the state.
    pub fn simplify(self) -> (r: LeState)
        ensures
            r == self.spec_simplify(),
    {
        match self {
            LeState::Single(_) => self,
            LeState::Combined(c) => {
                let first = c.0.rank();
                let second = c.1.rank();
                proof {
                    LeSingleState::lemma_rank_injective(c.0, c.1);
                }
                if first == second {
                    LeState::Single(c.0)
                } else if first < second {
                    LeState::Combined(LeCombinedState(c.0, c.1))
                } else {
                    LeState::Combined(LeCombinedState(c.1, c.0))
                }
            },
        }
    }

    /// The canonical form of a canonical form is itself.
    pub proof fn lemma_simplify_idempotent(self)
        ensures
            self.spec_simplify().spec_simplify() == self.spec_simplify(),
    {
        if let LeState::Combined(c) = self {
            LeSingleState::lemma_rank_injective(c.0, c.1);
        }
    }

    /// Equality of states is reflexive and symmetric, and a combination equals the combination of
    /// the same two states in the other order.
    pub proof fn lemma_eq_laws(a: LeState, b: LeState, x: LeSingleState, y: LeSingleState)
        ensures
            LeState::spec_eq(a, a),
            LeState::spec_eq(a, b) == LeState::spec_eq(b, a),
            LeState::spec_eq(
                LeState::Combined(LeCombinedState(x, y)),
                LeState::Combined(LeCombinedState(y, x)),
            ),
            LeState::spec_eq(LeState::Single(x), LeState::Combined(LeCombinedState(x, x))),
    {
        LeSingleState::lemma_rank_injective(x, y);
    }
}

impl PartialEq for LeState {
    fn eq(&self, other: &LeState) -> (r: bool) {
        let first = self.simplify();
        let second = other.simplify();
        match (first, second) {
            (LeState::Single(a), LeState::Single(b)) => a == b,
            (LeState::Combined(a), LeState::Combined(b)) => a == b,
            _ => false,
        }
    }
}

impl vstd::std_specs::cmp::PartialEqSpecImpl for LeState {
    open spec fn obeys_eq_spec() -> bool {
        true
    }

    open spec fn eq_spec(&self, other: &LeState) -> bool {
        LeState::spec_eq(*self, *other)
    }
}

impl From<LeSingleState> for LeState {
    fn from(value: LeSingleState) -> LeState {
        LeState::Single(value)
    }
}

impl vstd::std_specs::convert::FromSpecImpl<LeSingleState> for LeState {
    open spec fn obeys_from_spec() -> bool {
        true
    }

    open spec fn from_spec(v: LeSingleState) -> LeState {
        LeState::Single(v)
    }
}

impl From<LeCombinedState> for LeState {
    fn from(value: LeCombinedState) -> LeState {
        LeState::Combined(value)
    }
}

impl vstd::std_specs::convert::FromSpecImpl<LeCombinedState> for LeState {
    open spec fn obeys_from_spec() -> bool {
        true
    }

    open spec fn from_spec(v: LeCombinedState) -> LeState {
        LeState::Combined(v)
    }
}

} // verus!
