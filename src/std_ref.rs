use vstd::prelude::*;

use crate::account::AccountId;
use crate::constant::{base_symbol, E9, USD};
use crate::error::Error;
use crate::price_store::PriceStore;
use crate::ref_data::RefDatum;
use crate::reference_data::{combine, ReferenceData};
use crate::relayer_set::{lemma_push_to_set, RelayerSet};

verus! {

/// The state of an oracle as a reader sees it.
pub struct StandardReferenceView {
    /// The one identity that may grant and revoke relayers, hand the role
    /// over, and replace the code.
    pub admin: AccountId,
    /// The identities that may relay rates.
    pub relayers: Set<AccountId>,
    /// The stored datum of each symbol; the quote unit never has one that is read.
    pub ref_data: Map<Seq<char>, RefDatum>,
}

/// The seconds of a block timestamp given in milliseconds.
pub open spec fn seconds_of(block_timestamp: u64) -> u64 {
    (block_timestamp / 1000) as u64
}

/// The datum that a lookup of `symbol` yields at time `now`: the quote unit
/// has rate one as of `now`; another symbol has what is stored, if anything.
pub open spec fn datum_of(v: StandardReferenceView, symbol: Seq<char>, now: u64) -> Result<RefDatum, Error> {
    if symbol == base_symbol() {
        Ok(RefDatum { rate: E9, resolve_time: now, request_id: 0 })
    } else if v.ref_data.contains_key(symbol) {
        Ok(v.ref_data[symbol])
    } else {
        Err(Error::PairDoesNotExist)
    }
}

/// The answer to a query of the pair `(base, quote)` at time `now`. The base
/// is looked up first; its failure is the answer.
pub open spec fn reference_data_of(
    v: StandardReferenceView,
    base: Seq<char>,
    quote: Seq<char>,
    now: u64,
) -> Result<ReferenceData, Error> {
    match datum_of(v, base, now) {
        Err(e) => Err(e),
        Ok(b) => match datum_of(v, quote, now) {
            Err(e) => Err(e),
            Ok(q) => combine(b, q),
        },
    }
}

/// The symbols and rates of a batch, as character sequences.
pub open spec fn rates_view(symbol_rates: Seq<(String, u64)>) -> Seq<(Seq<char>, u64)> {
    symbol_rates.map_values(|p: (String, u64)| (p.0@, p.1))
}

/// The datum that a checked relay of `rate` leaves for `symbol`: a new one
/// where none was stored, else the stored one updated if the relay is newer.
pub open spec fn relayed_datum(
    m: Map<Seq<char>, RefDatum>,
    symbol: Seq<char>,
    rate: u64,
    resolve_time: u64,
    request_id: u64,
) -> RefDatum {
    if m.contains_key(symbol) {
        m[symbol].updated(rate, resolve_time, request_id)
    } else {
        RefDatum { rate, resolve_time, request_id }
    }
}

/// The map after a checked relay of a batch, one pair after the other.
pub open spec fn relayed(
    m: Map<Seq<char>, RefDatum>,
    updates: Seq<(Seq<char>, u64)>,
    resolve_time: u64,
    request_id: u64,
) -> Map<Seq<char>, RefDatum>
    decreases updates.len(),
{
    if updates.len() == 0 {
        m
    } else {
        let prev = relayed(m, updates.drop_last(), resolve_time, request_id);
        let (symbol, rate) = updates.last();
        prev.insert(symbol, relayed_datum(prev, symbol, rate, resolve_time, request_id))
    }
}

/// The map after a forced relay of a batch: every pair overwrites.
pub open spec fn force_relayed(
    m: Map<Seq<char>, RefDatum>,
    updates: Seq<(Seq<char>, u64)>,
    resolve_time: u64,
    request_id: u64,
) -> Map<Seq<char>, RefDatum>
    decreases updates.len(),
{
    if updates.len() == 0 {
        m
    } else {
        let prev = force_relayed(m, updates.drop_last(), resolve_time, request_id);
        let (symbol, rate) = updates.last();
        prev.insert(symbol, RefDatum { rate, resolve_time, request_id })
    }
}

/// A price-reference oracle: one admin, a set of relayers, and the latest
/// datum of each symbol.
pub struct StandardReference {
    admin: AccountId,
    relayers: RelayerSet,
    ref_data: PriceStore,
}

impl View for StandardReference {
    type V = StandardReferenceView;

    closed spec fn view(&self) -> StandardReferenceView {
        StandardReferenceView { admin: self.admin, relayers: self.relayers@, ref_data: self.ref_data@ }
    }
}

impl StandardReference {
    pub closed spec fn wf(&self) -> bool {
        self.ref_data.wf()
    }

    /// A new oracle whose admin is also its only relayer.
    pub fn new(admin: AccountId) -> (r: Self)
        ensures
            r.wf(),
            r@ == (StandardReferenceView {
                admin,
                relayers: Set::<AccountId>::empty().insert(admin),
                ref_data: Map::<Seq<char>, RefDatum>::empty(),
            }),
    {
        let mut relayers = RelayerSet::new();
        relayers.insert(admin);
        let ref_data = PriceStore::new();
        Self { admin, relayers, ref_data }
    }

    /// Checks that `caller` is the admin.
    fn ensure_admin(&self, caller: &AccountId) -> (r: Result<(), Error>)
        ensures
            r == (if *caller == self@.admin {
                Ok::<(), Error>(())
            } else {
                Err(Error::Unauthorized)
            }),
    {
        if self.admin != *caller {
            return Err(Error::Unauthorized);
        }
        Ok(())
    }

    /// Grants a replacement of the code by `code_hash`. Only the admin may
    /// ask for it; the caller must then install the code it returns, and on
    /// an error halt the request.
    pub fn upgrade(&self, caller: &AccountId, code_hash: [u8; 32]) -> (r: Result<[u8; 32], Error>)
        ensures
            r == (if *caller == self@.admin {
                Ok::<[u8; 32], Error>(code_hash)
            } else {
                Err(Error::Unauthorized)
            }),
    {
        match self.ensure_admin(caller) {
            Ok(()) => Ok(code_hash),
            Err(e) => Err(e),
        }
    }

    /// The current admin.
    pub fn current_admin(&self) -> (r: AccountId)
        ensures
            r == self@.admin,
    {
        self.admin
    }

    /// Hands the admin role to `new_admin`; the relayers stay as they are.
    pub fn transfer_admin(&mut self, caller: &AccountId, new_admin: AccountId) -> (r: Result<(), Error>)
        requires
            old(self).wf(),
        ensures
            final(self).wf(),
            *caller == old(self)@.admin ==> r == Ok::<(), Error>(()) && final(self)@ == (
            StandardReferenceView { admin: new_admin, ..old(self)@ }),
            *caller != old(self)@.admin ==> r == Err::<(), Error>(Error::Unauthorized) && final(self)@
                == old(self)@,
    {
        if let Err(e) = self.ensure_admin(caller) {
            return Err(e);
        }
        self.admin = new_admin;
        Ok(())
    }

    /// Whether `relayer` may relay rates.
    pub fn is_relayer(&self, relayer: AccountId) -> (r: bool)
        ensures
            r == self@.relayers.contains(relayer),
    {
        self.is_relayer_impl(&relayer)
    }

    /// Grants the relayer role to each of `relayers`. Only the admin may.
    pub fn add_relayers(&mut self, caller: &AccountId, relayers: Vec<AccountId>) -> (r: Result<(), Error>)
        requires
            old(self).wf(),
        ensures
            final(self).wf(),
            *caller == old(self)@.admin ==> r == Ok::<(), Error>(()) && final(self)@ == (
            StandardReferenceView {
                relayers: old(self)@.relayers.union(relayers@.to_set()),
                ..old(self)@
            }),
            *caller != old(self)@.admin ==> r == Err::<(), Error>(Error::Unauthorized) && final(self)@
                == old(self)@,
    {
        if let Err(e) = self.ensure_admin(caller) {
            return Err(e);
        }
        let mut i: usize = 0;
        while i < relayers.len()
            invariant
                self.wf(),
                0 <= i <= relayers@.len(),
                self.admin == old(self).admin,
                self.ref_data == old(self).ref_data,
                self@.relayers == old(self)@.relayers.union(relayers@.take(i as int).to_set()),
            decreases relayers@.len() - i,
        {
            self.relayers.insert(relayers[i]);
            proof {
                assert(relayers@.take(i + 1) == relayers@.take(i as int).push(relayers@[i as int]));
                lemma_push_to_set(relayers@.take(i as int), relayers@[i as int]);
                assert(self@.relayers =~= old(self)@.relayers.union(relayers@.take(i + 1).to_set()));
            }
            i = i + 1;
        }
        assert(relayers@.take(i as int) == relayers@);
        Ok(())
    }

    /// Revokes the relayer role of each of `relayers`. Only the admin may.
    pub fn remove_relayers(&mut self, caller: &AccountId, relayers: Vec<AccountId>) -> (r: Result<(), Error>)
        requires
            old(self).wf(),
        ensures
            final(self).wf(),
            *caller == old(self)@.admin ==> r == Ok::<(), Error>(()) && final(self)@ == (
            StandardReferenceView {
                relayers: old(self)@.relayers.difference(relayers@.to_set()),
                ..old(self)@
            }),
            *caller != old(self)@.admin ==> r == Err::<(), Error>(Error::Unauthorized) && final(self)@
                == old(self)@,
    {
        if let Err(e) = self.ensure_admin(caller) {
            return Err(e);
        }
        let mut i: usize = 0;
        while i < relayers.len()
            invariant
                self.wf(),
                0 <= i <= relayers@.len(),
                self.admin == old(self).admin,
                self.ref_data == old(self).ref_data,
                self@.relayers == old(self)@.relayers.difference(relayers@.take(i as int).to_set()),
            decreases relayers@.len() - i,
        {
            self.relayers.remove(&relayers[i]);
            proof {
                assert(relayers@.take(i + 1) == relayers@.take(i as int).push(relayers@[i as int]));
                lemma_push_to_set(relayers@.take(i as int), relayers@[i as int]);
                assert(self@.relayers =~= old(self)@.relayers.difference(relayers@.take(i + 1).to_set()));
            }
            i = i + 1;
        }
        assert(relayers@.take(i as int) == relayers@);
        Ok(())
    }

    /// The datum of `symbol`; the quote unit yields rate one as of the
    /// block's time in seconds.
    fn get_ref_data(&self, symbol: &String, block_timestamp: u64) -> (r: Result<RefDatum, Error>)
        requires
            self.wf(),
        ensures
            r == datum_of(self@, symbol@, seconds_of(block_timestamp)),
    {
        let base_unit = String::from_str(USD);
        proof {
            reveal_strlit("USD");
            assert(base_unit@ =~= base_symbol());
        }
        if *symbol == base_unit {
            return Ok(RefDatum::new(E9, block_timestamp / 1000, 0));
        }
        match self.ref_data.get(symbol) {
            Some(d) => Ok(d),
            None => Err(Error::PairDoesNotExist),
        }
    }

    /// The rate of `symbol_pair.0` in `symbol_pair.1` at the block's time.
    pub fn get_reference_data(&self, symbol_pair: (String, String), block_timestamp: u64) -> (r: Result<
        ReferenceData,
        Error,
    >)
        requires
            self.wf(),
        ensures
            r == reference_data_of(self@, symbol_pair.0@, symbol_pair.1@, seconds_of(block_timestamp)),
    {
        let base = match self.get_ref_data(&symbol_pair.0, block_timestamp) {
            Ok(d) => d,
            Err(e) => {
                return Err(e);
            },
        };
        let quote = match self.get_ref_data(&symbol_pair.1, block_timestamp) {
            Ok(d) => d,
            Err(e) => {
                return Err(e);
            },
        };
        ReferenceData::from_ref_data_pair(base, quote)
    }

    /// One answer per pair, in order, each as `get_reference_data` gives it.
    pub fn get_reference_data_bulk(&self, symbol_pair: Vec<(String, String)>, block_timestamp: u64) -> (r: Vec<
        Result<ReferenceData, Error>,
    >)
        requires
            self.wf(),
        ensures
            r@.len() == symbol_pair@.len(),
            forall|i: int|
                0 <= i < r@.len() ==> #[trigger] r@[i] == reference_data_of(
                    self@,
                    symbol_pair@[i].0@,
                    symbol_pair@[i].1@,
                    seconds_of(block_timestamp),
                ),
    {
        let mut out: Vec<Result<ReferenceData, Error>> = Vec::new();
        let mut i: usize = 0;
        while i < symbol_pair.len()
            invariant
                self.wf(),
                0 <= i <= symbol_pair@.len(),
                out@.len() == i,
                forall|j: int|
                    0 <= j < i ==> #[trigger] out@[j] == reference_data_of(
                        self@,
                        symbol_pair@[j].0@,
                        symbol_pair@[j].1@,
                        seconds_of(block_timestamp),
                    ),
            decreases symbol_pair@.len() - i,
        {
            let pair = (symbol_pair[i].0.clone(), symbol_pair[i].1.clone());
            out.push(self.get_reference_data(pair, block_timestamp));
            i = i + 1;
        }
        out
    }

    /// Relays the rates of a batch as of `resolve_time`, pair by pair: a
    /// symbol without a datum gets one, and a stored datum is replaced only by
    /// a strictly newer one. Only a relayer may.
    pub fn relay(
        &mut self,
        caller: &AccountId,
        symbol_rates: Vec<(String, u64)>,
        resolve_time: u64,
        request_id: u64,
    ) -> (r: Result<(), Error>)
        requires
            old(self).wf(),
        ensures
            final(self).wf(),
            old(self)@.relayers.contains(*caller) ==> r == Ok::<(), Error>(()) && final(self)@ == (
            StandardReferenceView {
                ref_data: relayed(old(self)@.ref_data, rates_view(symbol_rates@), resolve_time, request_id),
                ..old(self)@
            }),
            !old(self)@.relayers.contains(*caller) ==> r == Err::<(), Error>(Error::Unauthorized)
                && final(self)@ == old(self)@,
    {
        if !self.is_relayer_impl(caller) {
            return Err(Error::Unauthorized);
        }
        let ghost updates = rates_view(symbol_rates@);
        let mut i: usize = 0;
        while i < symbol_rates.len()
            invariant
                self.wf(),
                0 <= i <= symbol_rates@.len(),
                updates == rates_view(symbol_rates@),
                self.admin == old(self).admin,
                self.relayers == old(self).relayers,
                self@.ref_data == relayed(old(self)@.ref_data, updates.take(i as int), resolve_time, request_id),
            decreases symbol_rates@.len() - i,
        {
            let symbol = symbol_rates[i].0.clone();
            let rate = symbol_rates[i].1;
            let ref_datum = match self.ref_data.get(&symbol) {
                Some(mut ref_datum) => {
                    ref_datum.update(rate, resolve_time, request_id);
                    ref_datum
                },
                None => RefDatum::new(rate, resolve_time, request_id),
            };
            self.ref_data.insert(symbol, ref_datum);
            assert(updates.take(i + 1).drop_last() == updates.take(i as int));
            i = i + 1;
        }
        assert(updates.take(i as int) == updates);
        Ok(())
    }

    /// Relays the rates of a batch as of `resolve_time`, overwriting whatever
    /// is stored, newer or not. Only a relayer may.
    pub fn force_relay(
        &mut self,
        caller: &AccountId,
        symbol_rates: Vec<(String, u64)>,
        resolve_time: u64,
        request_id: u64,
    ) -> (r: Result<(), Error>)
        requires
            old(self).wf(),
        ensures
            final(self).wf(),
            old(self)@.relayers.contains(*caller) ==> r == Ok::<(), Error>(()) && final(self)@ == (
            StandardReferenceView {
                ref_data: force_relayed(old(self)@.ref_data, rates_view(symbol_rates@), resolve_time, request_id),
                ..old(self)@
            }),
            !old(self)@.relayers.contains(*caller) ==> r == Err::<(), Error>(Error::Unauthorized)
                && final(self)@ == old(self)@,
    {
        if !self.is_relayer_impl(caller) {
            return Err(Error::Unauthorized);
        }
        let ghost updates = rates_view(symbol_rates@);
        let mut i: usize = 0;
        while i < symbol_rates.len()
            invariant
                self.wf(),
                0 <= i <= symbol_rates@.len(),
                updates == rates_view(symbol_rates@),
                self.admin == old(self).admin,
                self.relayers == old(self).relayers,
                self@.ref_data == force_relayed(old(self)@.ref_data, updates.take(i as int), resolve_time, request_id),
            decreases symbol_rates@.len() - i,
        {
            let symbol = symbol_rates[i].0.clone();
            let rate = symbol_rates[i].1;
            self.ref_data.insert(symbol, RefDatum::new(rate, resolve_time, request_id));
            assert(updates.take(i + 1).drop_last() == updates.take(i as int));
            i = i + 1;
        }
        assert(updates.take(i as int) == updates);
        Ok(())
    }

    fn is_relayer_impl(&self, relayer: &AccountId) -> (r: bool)
        ensures
            r == self@.relayers.contains(*relayer),
    {
        self.relayers.contains(relayer)
    }
}

} // verus!
