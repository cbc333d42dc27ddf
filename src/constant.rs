use vstd::prelude::*;

verus! {

/// Fixed-point scale of a stored rate.
pub const E9: u64 = 1_000_000_000;

/// Fixed-point scale of a cross rate.
pub const E18: u128 = 1_000_000_000_000_000_000;

/// The reserved quote unit, whose rate is always one and never stored.
pub const USD: &'static str = "USD";

/// The characters of the reserved quote unit.
pub open spec fn base_symbol() -> Seq<char> {
    seq!['U', 'S', 'D']
}

} // verus!
