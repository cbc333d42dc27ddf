use vstd::prelude::*;

use crate::constant::{base_symbol, E18, E9};
use crate::error::Error;
use crate::ref_data::RefDatum;
use crate::reference_data::ReferenceData;
use crate::std_ref::{
    datum_of, force_relayed, reference_data_of, relayed, relayed_datum, StandardReferenceView,
};

verus! {

/// A checked relay of the single pair `(symbol, rate)`.
proof fn lemma_relayed_one(m: Map<Seq<char>, RefDatum>, symbol: Seq<char>, rate: u64, t: u64, id: u64)
    ensures
        relayed(m, seq![(symbol, rate)], t, id) == m.insert(symbol, relayed_datum(m, symbol, rate, t, id)),
{
    let u = seq![(symbol, rate)];
    assert(u.drop_last() =~= Seq::<(Seq<char>, u64)>::empty());
    assert(relayed(m, u.drop_last(), t, id) == m);
}

/// A forced relay of the single pair `(symbol, rate)`.
proof fn lemma_force_relayed_one(m: Map<Seq<char>, RefDatum>, symbol: Seq<char>, rate: u64, t: u64, id: u64)
    ensures
        force_relayed(m, seq![(symbol, rate)], t, id) == m.insert(symbol, RefDatum { rate, resolve_time: t, request_id: id }),
{
    let u = seq![(symbol, rate)];
    assert(u.drop_last() =~= Seq::<(Seq<char>, u64)>::empty());
    assert(force_relayed(m, u.drop_last(), t, id) == m);
}

/// The map after one checked relay per call, each call relaying
/// `(symbol, rate)` as of `resolve_time` with `request_id`, in order.
pub open spec fn relay_each(m: Map<Seq<char>, RefDatum>, symbol: Seq<char>, calls: Seq<RefDatum>) -> Map<
    Seq<char>,
    RefDatum,
>
    decreases calls.len(),
{
    if calls.len() == 0 {
        m
    } else {
        let c = calls.last();
        relayed(relay_each(m, symbol, calls.drop_last()), seq![(symbol, c.rate)], c.resolve_time, c.request_id)
    }
}

/// Relaying a symbol that is not the quote unit and has no datum stores the
/// relayed triple, and its rate in the quote unit is then `rate * 10^18 / 10^9`.
pub proof fn law_first_relay_creates(
    v: StandardReferenceView,
    symbol: Seq<char>,
    rate: u64,
    resolve_time: u64,
    request_id: u64,
    now: u64,
)
    requires
        symbol != base_symbol(),
        !v.ref_data.contains_key(symbol),
    ensures
        ({
            let after = StandardReferenceView {
                ref_data: relayed(v.ref_data, seq![(symbol, rate)], resolve_time, request_id),
                ..v
            };
            &&& after.ref_data.contains_key(symbol)
            &&& after.ref_data[symbol] == (RefDatum { rate, resolve_time, request_id })
            &&& reference_data_of(after, symbol, base_symbol(), now) == Ok::<ReferenceData, Error>(
                ReferenceData {
                    rate: (rate * E18 / (E9 as int)) as u128,
                    base_resolve_time: resolve_time,
                    quote_resolve_time: now,
                },
            )
        }),
{
    lemma_relayed_one(v.ref_data, symbol, rate, resolve_time, request_id);
    assert(rate * E18 <= u128::MAX) by (nonlinear_arith)
        requires
            rate <= u64::MAX,
    ;
}

/// Stored times stay below a bound that every relayed time stays below.
proof fn lemma_relay_each_time_bound(
    m: Map<Seq<char>, RefDatum>,
    symbol: Seq<char>,
    calls: Seq<RefDatum>,
    bound: int,
)
    requires
        m.contains_key(symbol) ==> m[symbol].resolve_time < bound,
        forall|i: int| 0 <= i < calls.len() ==> #[trigger] calls[i].resolve_time < bound,
    ensures
        relay_each(m, symbol, calls).contains_key(symbol) ==> relay_each(m, symbol, calls)[symbol].resolve_time
            < bound,
    decreases calls.len(),
{
    if calls.len() > 0 {
        let c = calls.last();
        let prev = relay_each(m, symbol, calls.drop_last());
        lemma_relay_each_time_bound(m, symbol, calls.drop_last(), bound);
        lemma_relayed_one(prev, symbol, c.rate, c.resolve_time, c.request_id);
        assert(calls[calls.len() - 1].resolve_time < bound);
    }
}

/// Checked relays of one symbol with strictly increasing times leave the
/// last call's triple stored, provided what was stored before is older than
/// the last call.
pub proof fn law_increasing_relays_keep_last(
    m: Map<Seq<char>, RefDatum>,
    symbol: Seq<char>,
    calls: Seq<RefDatum>,
)
    requires
        calls.len() > 0,
        forall|i: int, j: int| 0 <= i < j < calls.len() ==> #[trigger] calls[i].resolve_time < #[trigger] calls[j].resolve_time,
        m.contains_key(symbol) ==> m[symbol].resolve_time < calls.last().resolve_time,
    ensures
        relay_each(m, symbol, calls).contains_key(symbol),
        relay_each(m, symbol, calls)[symbol] == calls.last(),
{
    let c = calls.last();
    let n = calls.len() - 1;
    let prefix = calls.drop_last();
    assert forall|i: int| 0 <= i < prefix.len() implies #[trigger] prefix[i].resolve_time < c.resolve_time by {
        assert(calls[i].resolve_time < calls[n].resolve_time);
    }
    lemma_relay_each_time_bound(m, symbol, prefix, c.resolve_time as int);
    lemma_relayed_one(relay_each(m, symbol, prefix), symbol, c.rate, c.resolve_time, c.request_id);
}

/// A checked relay that is not newer than the stored datum changes nothing.
pub proof fn law_stale_relay_ignored(
    m: Map<Seq<char>, RefDatum>,
    symbol: Seq<char>,
    rate: u64,
    resolve_time: u64,
    request_id: u64,
)
    requires
        m.contains_key(symbol),
        resolve_time <= m[symbol].resolve_time,
    ensures
        relayed(m, seq![(symbol, rate)], resolve_time, request_id) == m,
{
    lemma_relayed_one(m, symbol, rate, resolve_time, request_id);
    assert(m.insert(symbol, m[symbol]) =~= m);
}

/// A forced relay stores the relayed triple, whatever was stored before.
pub proof fn law_force_relay_overwrites(
    m: Map<Seq<char>, RefDatum>,
    symbol: Seq<char>,
    rate: u64,
    resolve_time: u64,
    request_id: u64,
)
    ensures
        force_relayed(m, seq![(symbol, rate)], resolve_time, request_id)[symbol] == (RefDatum {
            rate,
            resolve_time,
            request_id,
        }),
{
    lemma_force_relayed_one(m, symbol, rate, resolve_time, request_id);
}

/// A quote whose rate is zero makes the query fail with `InvalidValue`, once
/// the base has a datum.
pub proof fn law_zero_quote_invalid(v: StandardReferenceView, base: Seq<char>, quote: Seq<char>, now: u64)
    requires
        datum_of(v, base, now) is Ok,
        datum_of(v, quote, now) is Ok,
        datum_of(v, quote, now)->Ok_0.rate == 0,
    ensures
        reference_data_of(v, base, quote, now) == Err::<ReferenceData, Error>(Error::InvalidValue),
{
}

/// A symbol that is not the quote unit and was never relayed makes the query
/// fail with `PairDoesNotExist`, on either side of the pair.
pub proof fn law_unknown_symbol(v: StandardReferenceView, symbol: Seq<char>, other: Seq<char>, now: u64)
    requires
        symbol != base_symbol(),
        !v.ref_data.contains_key(symbol),
    ensures
        reference_data_of(v, symbol, other, now) == Err::<ReferenceData, Error>(Error::PairDoesNotExist),
        reference_data_of(v, other, symbol, now) == Err::<ReferenceData, Error>(Error::PairDoesNotExist),
{
}

} // verus!
