use vstd::prelude::*;

verus! {

/// What can go wrong in a call.
#[derive(Debug, Clone, Copy, PartialEq, Eq, Structural)]
pub enum Error {
    /// A symbol of the pair has no rate.
    PairDoesNotExist,
    /// The cross rate overflows or divides by zero.
    InvalidValue,
    /// The caller lacks the privilege that the call needs.
    Unauthorized,
}

} // verus!
