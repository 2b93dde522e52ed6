use vstd::prelude::*;

use crate::score::Score;

verus! {

/// A descriptive record of a space a node can live in: a dimension and
/// free-form labels for its topology and algebra. Standalone metadata;
/// nothing else reads it.
pub struct StateSpace {
    pub dimension: usize,
    pub topology: String,
    pub algebra: String,
}

/// A leaf of the model: an identified container for a typed current state,
/// the name of the state space it lives in, and a local coherence score.
#[derive(Clone)]
pub struct Node<T> {
    pub id: String,
    pub state_space: String,
    pub current_state: T,
    pub local_coherence: Score,
}

impl<T> Node<T> {
    /// Builds a node with the given id, state-space name and initial state.
    /// The id and the name are not validated (either may be empty) and the
    /// local coherence starts at one.
    pub fn new(id: String, state_space: &str, initial_state: T) -> (n: Node<T>)
        ensures
            n.id@ == id@,
            n.state_space@ == state_space@,
            n.current_state == initial_state,
            n.local_coherence.is_one(),
    {
        Node {
            id,
            state_space: state_space.to_owned(),
            current_state: initial_state,
            local_coherence: Score::one(),
        }
    }
}

} // verus!
