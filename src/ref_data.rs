use vstd::prelude::*;

verus! {

/// The latest rate known for one symbol.
#[derive(Debug, Clone, Copy, PartialEq, Eq, Structural)]
pub struct RefDatum {
    /// The rate against the quote unit, scaled by 10^9.
    pub rate: u64,
    /// The time, in seconds, as of which the rate holds.
    pub resolve_time: u64,
    /// The relayer's request that carried the rate.
    pub request_id: u64,
}

impl RefDatum {
    /// The datum after an update of `rate` as of `resolve_time`: the update
    /// wins only where it is strictly newer.
    pub open spec fn updated(self, rate: u64, resolve_time: u64, request_id: u64) -> RefDatum {
        if self.resolve_time < resolve_time {
            RefDatum { rate, resolve_time, request_id }
        } else {
            self
        }
    }

    pub fn new(rate: u64, resolve_time: u64, request_id: u64) -> (r: Self)
        ensures
            r == (RefDatum { rate, resolve_time, request_id }),
    {
        Self { rate, resolve_time, request_id }
    }

    /// Takes the new values only if `resolve_time` is later than the stored one.
    pub fn update(&mut self, rate: u64, resolve_time: u64, request_id: u64)
        ensures
            *final(self) == old(self).updated(rate, resolve_time, request_id),
    {
        if self.resolve_time < resolve_time {
            self.rate = rate;
            self.resolve_time = resolve_time;
            self.request_id = request_id;
        }
    }
}

} // verus!
