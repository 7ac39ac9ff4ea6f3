use vstd::prelude::*;

verus! {

/// Why an operation of the simulation core was rejected.
///
/// Every rejecting operation validates its arguments before it touches any
/// state, so a rejected call leaves the receiver exactly as it was.
#[derive(Clone, Copy, Debug, PartialEq, Eq, Structural)]
pub enum SimError {
    /// More organisms were requested than the board has tiles.
    Capacity,
    /// A coordinate lies outside the board.
    OutOfBounds,
    /// A genome without genes was asked to mutate.
    EmptyGenome,
}

} // verus!
