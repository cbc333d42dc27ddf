use vstd::prelude::*;

use crate::constant::E18;
use crate::error::Error;
use crate::ref_data::RefDatum;

verus! {

/// The rate of a base symbol in a quote symbol, and how old each leg is.
#[derive(Debug, Clone, Copy, PartialEq, Eq, Structural)]
pub struct ReferenceData {
    /// The cross rate, scaled by 10^18.
    pub rate: u128,
    /// The time as of which the base rate holds.
    pub base_resolve_time: u64,
    /// The time as of which the quote rate holds.
    pub quote_resolve_time: u64,
}

/// The cross rate of `base` in `quote`: `base.rate * 10^18 / quote.rate`,
/// rounded down, or `InvalidValue` where the product leaves 128 bits or the
/// quote rate is zero.
pub open spec fn combine(base: RefDatum, quote: RefDatum) -> Result<ReferenceData, Error> {
    if base.rate * E18 > u128::MAX || quote.rate == 0 {
        Err(Error::InvalidValue)
    } else {
        Ok(
            ReferenceData {
                rate: (base.rate * E18 / (quote.rate as int)) as u128,
                base_resolve_time: base.resolve_time,
                quote_resolve_time: quote.resolve_time,
            },
        )
    }
}

impl ReferenceData {
    pub fn new(rate: u128, base_resolve_time: u64, quote_resolve_time: u64) -> (r: Self)
        ensures
            r == (ReferenceData { rate, base_resolve_time, quote_resolve_time }),
    {
        Self { rate, base_resolve_time, quote_resolve_time }
    }

    /// Divides the base rate by the quote rate, keeping both times.
    pub fn from_ref_data_pair(base: RefDatum, quote: RefDatum) -> (r: Result<Self, Error>)
        ensures
            r == combine(base, quote),
            r is Ok <==> quote.rate != 0,
    {
        assert(base.rate * E18 <= u128::MAX) by (nonlinear_arith)
            requires
                base.rate <= u64::MAX,
        ;
        let product = match (base.rate as u128).checked_mul(E18) {
            Some(p) => p,
            None => {
                return Err(Error::InvalidValue);
            },
        };
        let rate = match product.checked_div(quote.rate as u128) {
            Some(q) => q,
            None => {
                return Err(Error::InvalidValue);
            },
        };
        Ok(Self {
            rate,
            base_resolve_time: base.resolve_time,
            quote_resolve_time: quote.resolve_time,
        })
    }
}

} // verus!
