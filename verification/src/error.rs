//! What can go wrong while a brain is built or evaluated.

use vstd::prelude::*;

verus! {

#[derive(Clone, Copy, Debug, PartialEq, Eq, Structural)]
pub enum BrainError {
    /// A buffer handed to the network does not have the width of the
    /// network's input layer.
    DimensionMismatch { expected: usize, actual: usize },
    /// The network's output cannot be consumed exactly by the decision
    /// schema: the two no longer agree on the width.
    SchemaDesync { expected: usize, actual: usize },
    /// A shape names a layer without neurons, or no layer at all; `layer` is
    /// the index of the first layer at fault.
    DegenerateGenome { layer: usize },
}

} // verus!
