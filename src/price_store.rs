use vstd::prelude::*;

use crate::ref_data::RefDatum;

verus! {

/// No symbol stands twice among the entries.
pub open spec fn keys_unique(s: Seq<(String, RefDatum)>) -> bool {
    forall|i: int, j: int|
        0 <= i < s.len() && 0 <= j < s.len() && i != j ==> #[trigger] s[i].0@ != #[trigger] s[j].0@
}

/// Whether some entry is keyed by `k`.
pub open spec fn has_key(s: Seq<(String, RefDatum)>, k: Seq<char>) -> bool {
    exists|i: int| 0 <= i < s.len() && #[trigger] s[i].0@ == k
}

/// The symbol-to-datum map that the entries hold.
pub open spec fn map_of(s: Seq<(String, RefDatum)>) -> Map<Seq<char>, RefDatum> {
    Map::new(
        |k: Seq<char>| has_key(s, k),
        |k: Seq<char>| s[choose|i: int| 0 <= i < s.len() && #[trigger] s[i].0@ == k].1,
    )
}

/// An entry's datum is what the map holds for its symbol.
proof fn lemma_map_of_at(s: Seq<(String, RefDatum)>, i: int)
    requires
        keys_unique(s),
        0 <= i < s.len(),
    ensures
        map_of(s).contains_key(s[i].0@),
        map_of(s)[s[i].0@] == s[i].1,
{
    let k = s[i].0@;
    assert(has_key(s, k));
    let j = choose|j: int| 0 <= j < s.len() && #[trigger] s[j].0@ == k;
    assert(j == i);
}

/// The stored datum of each symbol, kept with unique symbols.
pub struct PriceStore {
    entries: Vec<(String, RefDatum)>,
}

impl View for PriceStore {
    type V = Map<Seq<char>, RefDatum>;

    closed spec fn view(&self) -> Map<Seq<char>, RefDatum> {
        map_of(self.entries@)
    }
}

impl PriceStore {
    pub closed spec fn wf(&self) -> bool {
        keys_unique(self.entries@)
    }

    pub fn new() -> (r: Self)
        ensures
            r.wf(),
            r@ == Map::<Seq<char>, RefDatum>::empty(),
    {
        let r = PriceStore { entries: Vec::new() };
        assert(r@ =~= Map::<Seq<char>, RefDatum>::empty());
        r
    }

    /// The position of the entry keyed by `key`, if there is one.
    fn find(&self, key: &String) -> (r: Option<usize>)
        ensures
            match r {
                Some(i) => i < self.entries@.len() && self.entries@[i as int].0@ == key@,
                None => !has_key(self.entries@, key@),
            },
    {
        let mut i: usize = 0;
        while i < self.entries.len()
            invariant
                0 <= i <= self.entries@.len(),
                forall|j: int| 0 <= j < i ==> #[trigger] self.entries@[j].0@ != key@,
            decreases self.entries@.len() - i,
        {
            if self.entries[i].0 == *key {
                return Some(i);
            }
            i = i + 1;
        }
        None
    }

    /// The datum stored for `key`.
    pub fn get(&self, key: &String) -> (r: Option<RefDatum>)
        requires
            self.wf(),
        ensures
            r == (if self@.contains_key(key@) {
                Some(self@[key@])
            } else {
                None::<RefDatum>
            }),
    {
        match self.find(key) {
            Some(i) => {
                proof {
                    lemma_map_of_at(self.entries@, i as int);
                }
                Some(self.entries[i].1)
            },
            None => None,
        }
    }

    /// Stores `value` for `key`, in place of what was there.
    pub fn insert(&mut self, key: String, value: RefDatum)
        requires
            old(self).wf(),
        ensures
            final(self).wf(),
            final(self)@ == old(self)@.insert(key@, value),
    {
        let ghost s = self.entries@;
        match self.find(&key) {
            Some(i) => {
                self.entries.set(i, (key, value));
                proof {
                    let t = self.entries@;
                    assert(t == s.update(i as int, (key, value)));
                    assert forall|j: int| 0 <= j < t.len() implies #[trigger] t[j].0@ == s[j].0@ by {}
                    assert(keys_unique(t));
                    assert forall|k: Seq<char>| #[trigger] map_of(t).contains_key(k) <==> map_of(s).insert(key@, value).contains_key(k) by {
                        if has_key(t, k) {
                            let j = choose|j: int| 0 <= j < t.len() && #[trigger] t[j].0@ == k;
                            assert(s[j].0@ == k);
                        }
                        if has_key(s, k) {
                            let j = choose|j: int| 0 <= j < s.len() && #[trigger] s[j].0@ == k;
                            assert(t[j].0@ == k);
                        }
                    }
                    assert forall|k: Seq<char>| #[trigger] map_of(t).contains_key(k) implies map_of(t)[k] == map_of(s).insert(key@, value)[k] by {
                        let j = choose|j: int| 0 <= j < t.len() && #[trigger] t[j].0@ == k;
                        lemma_map_of_at(t, j);
                        if j != i {
                            assert(s[j].0@ == k);
                            lemma_map_of_at(s, j);
                        } else {
                            lemma_map_of_at(t, i as int);
                        }
                    }
                    assert(map_of(t) =~= map_of(s).insert(key@, value));
                }
            },
            None => {
                let ghost k0 = key@;
                self.entries.push((key, value));
                proof {
                    let t = self.entries@;
                    assert(t == s.push((key, value)));
                    assert(keys_unique(t)) by {
                        assert forall|i: int, j: int|
                            0 <= i < t.len() && 0 <= j < t.len() && i != j implies #[trigger] t[i].0@ != #[trigger] t[j].0@ by {
                            if i < s.len() && j < s.len() {
                                assert(t[i] == s[i] && t[j] == s[j]);
                            } else if i < s.len() {
                                assert(t[i] == s[i]);
                            } else {
                                assert(t[j] == s[j]);
                            }
                        }
                    }
                    assert forall|k: Seq<char>| #[trigger] map_of(t).contains_key(k) <==> map_of(s).insert(k0, value).contains_key(k) by {
                        if has_key(t, k) {
                            let j = choose|j: int| 0 <= j < t.len() && #[trigger] t[j].0@ == k;
                            if j < s.len() {
                                assert(s[j].0@ == k);
                            }
                        }
                        if has_key(s, k) {
                            let j = choose|j: int| 0 <= j < s.len() && #[trigger] s[j].0@ == k;
                            assert(t[j].0@ == k);
                        }
                        if k == k0 {
                            assert(t[s.len() as int].0@ == k);
                        }
                    }
                    assert forall|k: Seq<char>| #[trigger] map_of(t).contains_key(k) implies map_of(t)[k] == map_of(s).insert(k0, value)[k] by {
                        let j = choose|j: int| 0 <= j < t.len() && #[trigger] t[j].0@ == k;
                        lemma_map_of_at(t, j);
                        if j < s.len() {
                            assert(s[j].0@ == k);
                            lemma_map_of_at(s, j);
                        }
                    }
                    assert(map_of(t) =~= map_of(s).insert(k0, value));
                }
            },
        }
    }
}

} // verus!
