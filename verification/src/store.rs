//! The prediction store: exclusive owner of Prediction records, offering
//! idempotent get-or-create by fixture key and later reconciliation.
//!
//! Storage is two-tiered: an ephemeral cache, whose entries for fixtures
//! older than the current horizon may be evicted, fronts a durable tier
//! that every record survives in and that reconciliation treats as the
//! source of truth. The store itself is a sequential state machine; a
//! caller that serves concurrent requests wraps one store in a lock,
//! which realizes the at-most-one-computation-per-key guarantee: the
//! contract of `get_or_create` shows that a key already present is
//! answered from the store, without a second computation.

use vstd::prelude::*;
use crate::errors::PredictionError;
use crate::outcome::MatchResult;
use crate::prediction::{spec_reconciled, Prediction};

verus! {

/// Whether a stored record carries the given fixture key.
pub open spec fn spec_key_matches(p: Prediction, match_id: u128, model_version: Seq<char>) -> bool {
    p.match_id == match_id && p.model_version@ == model_version
}

/// Whether some record in the sequence carries the given fixture key.
pub open spec fn spec_has_key(s: Seq<Prediction>, match_id: u128, model_version: Seq<char>) -> bool {
    exists|i: int| 0 <= i < s.len() && #[trigger] spec_key_matches(s[i], match_id, model_version)
}

/// Position of the record with the given key; meaningful only when
/// `spec_has_key` holds (with unique keys it is then the one position).
pub open spec fn spec_index_of_key(s: Seq<Prediction>, match_id: u128, model_version: Seq<char>) -> int {
    choose|i: int| 0 <= i < s.len() && #[trigger] spec_key_matches(s[i], match_id, model_version)
}

/// The record stored under the given key; meaningful only when
/// `spec_has_key` holds.
pub open spec fn spec_entry_at(s: Seq<Prediction>, match_id: u128, model_version: Seq<char>) -> Prediction {
    s[spec_index_of_key(s, match_id, model_version)]
}

/// No two records in the sequence share a key.
pub open spec fn spec_unique_keys(s: Seq<Prediction>) -> bool {
    forall|i: int, j: int|
        #![trigger s[i], s[j]]
        0 <= i < j < s.len() ==> !spec_key_matches(s[j], s[i].match_id, s[i].model_version@)
}

/// Every cached record is exactly the durable record under its key: the
/// cache never holds a record of its own, only copies of durable ones.
pub open spec fn spec_cache_coherent(cache: Seq<Prediction>, durable: Seq<Prediction>) -> bool {
    forall|i: int|
        0 <= i < cache.len() ==> {
            &&& spec_has_key(durable, (#[trigger] cache[i]).match_id, cache[i].model_version@)
            &&& cache[i] == spec_entry_at(durable, cache[i].match_id, cache[i].model_version@)
        }
}

/// With unique keys, any position whose record matches the key is the
/// position `spec_index_of_key` picks.
proof fn lemma_unique_match_is_the_entry(
    s: Seq<Prediction>,
    match_id: u128,
    model_version: Seq<char>,
    i: int,
)
    requires
        spec_unique_keys(s),
        0 <= i < s.len(),
        spec_key_matches(s[i], match_id, model_version),
    ensures
        spec_has_key(s, match_id, model_version),
        spec_index_of_key(s, match_id, model_version) == i,
        spec_entry_at(s, match_id, model_version) == s[i],
{
    assert(spec_has_key(s, match_id, model_version));
    let j = spec_index_of_key(s, match_id, model_version);
    assert(0 <= j < s.len() && spec_key_matches(s[j], match_id, model_version));
    if i < j {
        assert(!spec_key_matches(s[j], s[i].match_id, s[i].model_version@));
    } else if j < i {
        assert(!spec_key_matches(s[i], s[j].match_id, s[j].model_version@));
    }
}

/// Reconciliation is idempotent at the store level: reconciling the
/// record under a key twice with the same actual outcome leaves the
/// stored records exactly as the first reconciliation left them. The
/// update each `reconcile` call makes, per its contract, is the one
/// this lemma composes with itself.
pub proof fn lemma_store_reconcile_idempotent(
    s: Seq<Prediction>,
    match_id: u128,
    model_version: Seq<char>,
    actual: MatchResult,
)
    requires
        spec_unique_keys(s),
        spec_has_key(s, match_id, model_version),
    ensures
        ({
            let once = s.update(
                spec_index_of_key(s, match_id, model_version),
                spec_reconciled(spec_entry_at(s, match_id, model_version), actual),
            );
            let twice = once.update(
                spec_index_of_key(once, match_id, model_version),
                spec_reconciled(spec_entry_at(once, match_id, model_version), actual),
            );
            twice =~= once
        }),
{
    let i = spec_index_of_key(s, match_id, model_version);
    assert(0 <= i < s.len() && spec_key_matches(s[i], match_id, model_version));
    let once = s.update(i, spec_reconciled(s[i], actual));
    assert forall|a: int, b: int|
        #![trigger once[a], once[b]]
        0 <= a < b < once.len() implies !spec_key_matches(
        once[b],
        once[a].match_id,
        once[a].model_version@,
    ) by {
        assert(once[a].match_id == s[a].match_id);
        assert(once[a].model_version@ == s[a].model_version@);
        assert(once[b].match_id == s[b].match_id);
        assert(once[b].model_version@ == s[b].model_version@);
        assert(!spec_key_matches(s[b], s[a].match_id, s[a].model_version@));
    }
    lemma_unique_match_is_the_entry(once, match_id, model_version, i);
    crate::prediction::lemma_reconcile_idempotent(s[i], actual);
}

/// Position of the record with the given key in one tier, if any.
fn find_in(entries: &Vec<Prediction>, match_id: u128, model_version: &String) -> (r: Option<usize>)
    ensures
        match r {
            Some(i) => i < entries@.len() && spec_key_matches(entries@[i as int], match_id, model_version@),
            None => !spec_has_key(entries@, match_id, model_version@),
        },
{
    let mut i: usize = 0;
    while i < entries.len()
        invariant
            i <= entries@.len(),
            forall|j: int|
                0 <= j < i ==> !spec_key_matches(#[trigger] entries@[j], match_id, model_version@),
        decreases entries@.len() - i,
    {
        if entries[i].match_id == match_id && entries[i].model_version == *model_version {
            return Some(i);
        }
        i = i + 1;
    }
    None
}

/// Owns every Prediction record, keyed by fixture id and model version.
///
/// Records are created through `get_or_create`, mutated only by
/// `reconcile`, and never deleted; only cached copies are evicted, and
/// retention of the durable tier is the caller's concern.
pub struct PredictionStore {
    durable: Vec<Prediction>,
    cache: Vec<Prediction>,
}

impl PredictionStore {
    /// The durably stored records, in insertion order.
    pub closed spec fn view(&self) -> Seq<Prediction> {
        self.durable@
    }

    /// The records currently held in the ephemeral cache tier.
    pub closed spec fn cached(&self) -> Seq<Prediction> {
        self.cache@
    }

    /// Store invariant: keys are unique in each tier, every record is
    /// internally consistent, and the cache holds only copies of
    /// durable records.
    pub open spec fn wf(&self) -> bool {
        &&& spec_unique_keys(self@)
        &&& forall|i: int| 0 <= i < self@.len() ==> (#[trigger] self@[i]).wf()
        &&& spec_unique_keys(self.cached())
        &&& spec_cache_coherent(self.cached(), self@)
    }

    /// An empty store.
    pub fn new() -> (store: Self)
        ensures
            store.wf(),
            store@.len() == 0,
            store.cached().len() == 0,
    {
        PredictionStore { durable: Vec::new(), cache: Vec::new() }
    }

    /// How many records the store holds durably.
    pub fn len(&self) -> (n: usize)
        ensures
            n == self@.len(),
    {
        self.durable.len()
    }

    /// The stored prediction for a fixture and model version, if any:
    /// from the cache when it holds the key, else from the durable tier,
    /// so a record is found whether or not its cached copy was evicted.
    pub fn get(&self, match_id: u128, model_version: &String) -> (r: Option<&Prediction>)
        requires
            self.wf(),
        ensures
            r is Some <==> spec_has_key(self@, match_id, model_version@),
            r matches Some(p) ==> *p == spec_entry_at(self@, match_id, model_version@),
    {
        if let Some(i) = find_in(&self.cache, match_id, model_version) {
            return Some(&self.cache[i]);
        }
        match find_in(&self.durable, match_id, model_version) {
            Some(i) => {
                proof {
                    lemma_unique_match_is_the_entry(self@, match_id, model_version@, i as int);
                }
                Some(&self.durable[i])
            },
            None => None,
        }
    }

    /// Returns the stored prediction for the key, or computes, stores
    /// and returns a new one.
    ///
    /// A key already present is answered from the store (and its cached
    /// copy restored if it was evicted): the durable tier is left
    /// untouched and `compute` contributes nothing, so each key is
    /// computed at most once. On a miss, `compute` runs exactly once;
    /// its `Ok` is stored in both tiers and returned, its `Err` is
    /// propagated unchanged with the store left untouched — no partial
    /// state is ever stored.
    pub fn get_or_create<F: FnOnce() -> Result<Prediction, PredictionError>>(
        &mut self,
        match_id: u128,
        model_version: &String,
        compute: F,
    ) -> (r: Result<Prediction, PredictionError>)
        requires
            old(self).wf(),
            call_requires(compute, ()),
            forall|res: Result<Prediction, PredictionError>|
                #[trigger] call_ensures(compute, (), res) ==> (res matches Ok(p) ==> {
                    &&& p.wf()
                    &&& p.match_id == match_id
                    &&& p.model_version@ == model_version@
                }),
        ensures
            final(self).wf(),
            spec_has_key(old(self)@, match_id, model_version@) ==> {
                &&& final(self)@ == old(self)@
                &&& r matches Ok(p) && p == spec_entry_at(old(self)@, match_id, model_version@)
            },
            !spec_has_key(old(self)@, match_id, model_version@) ==> match r {
                Ok(p) => {
                    &&& call_ensures(compute, (), Ok(p))
                    &&& final(self)@ == old(self)@.push(p)
                    &&& spec_has_key(final(self)@, match_id, model_version@)
                    &&& spec_entry_at(final(self)@, match_id, model_version@) == p
                },
                Err(e) => {
                    &&& call_ensures(compute, (), Err(e))
                    &&& final(self)@ == old(self)@
                },
            },
    {
        if let Some(i) = find_in(&self.cache, match_id, model_version) {
            let hit = self.cache[i].clone();
            proof {
                let key_i = spec_index_of_key(self@, hit.match_id, hit.model_version@);
                assert(spec_key_matches(self@[key_i], match_id, model_version@));
                lemma_unique_match_is_the_entry(self@, match_id, model_version@, key_i);
            }
            return Ok(hit);
        }
        if let Some(i) = find_in(&self.durable, match_id, model_version) {
            let entry = self.durable[i].clone();
            proof {
                lemma_unique_match_is_the_entry(self@, match_id, model_version@, i as int);
            }
            let restored = entry.clone();
            let ghost old_cache = self.cached();
            self.cache.push(restored);
            proof {
                assert forall|a: int, b: int|
                    #![trigger self.cached()[a], self.cached()[b]]
                    0 <= a < b < self.cached().len() implies !spec_key_matches(
                    self.cached()[b],
                    self.cached()[a].match_id,
                    self.cached()[a].model_version@,
                ) by {
                    if b == old_cache.len() {
                        assert(self.cached()[a] == old_cache[a]);
                        if spec_key_matches(self.cached()[b], old_cache[a].match_id,
                            old_cache[a].model_version@) {
                            assert(spec_key_matches(old_cache[a], match_id, model_version@));
                        }
                    } else {
                        assert(self.cached()[a] == old_cache[a]);
                        assert(self.cached()[b] == old_cache[b]);
                    }
                }
            }
            return Ok(entry);
        }
        match compute() {
            Ok(p) => {
                let out = p.clone();
                let cached_copy = p.clone();
                let ghost old_durable = self@;
                let ghost old_cache = self.cached();
                let ghost n = self@.len() as int;
                self.durable.push(p);
                self.cache.push(cached_copy);
                proof {
                    assert forall|a: int, b: int|
                        #![trigger self@[a], self@[b]]
                        0 <= a < b < self@.len() implies !spec_key_matches(
                        self@[b],
                        self@[a].match_id,
                        self@[a].model_version@,
                    ) by {
                        if b == n {
                            assert(self@[a] == old_durable[a]);
                            if spec_key_matches(self@[b], old_durable[a].match_id,
                                old_durable[a].model_version@) {
                                assert(spec_key_matches(old_durable[a], match_id, model_version@));
                            }
                        } else {
                            assert(self@[a] == old_durable[a]);
                            assert(self@[b] == old_durable[b]);
                        }
                    }
                    lemma_unique_match_is_the_entry(self@, match_id, model_version@, n);
                    assert forall|a: int, b: int|
                        #![trigger self.cached()[a], self.cached()[b]]
                        0 <= a < b < self.cached().len() implies !spec_key_matches(
                        self.cached()[b],
                        self.cached()[a].match_id,
                        self.cached()[a].model_version@,
                    ) by {
                        if b == old_cache.len() {
                            assert(self.cached()[a] == old_cache[a]);
                            if spec_key_matches(self.cached()[b], old_cache[a].match_id,
                                old_cache[a].model_version@) {
                                assert(spec_key_matches(old_cache[a], match_id, model_version@));
                                assert(spec_has_key(old_durable, match_id, model_version@));
                            }
                        } else {
                            assert(self.cached()[a] == old_cache[a]);
                            assert(self.cached()[b] == old_cache[b]);
                        }
                    }
                    assert forall|k: int| 0 <= k < self.cached().len() implies {
                        &&& spec_has_key(self@, (#[trigger] self.cached()[k]).match_id,
                            self.cached()[k].model_version@)
                        &&& self.cached()[k] == spec_entry_at(self@, self.cached()[k].match_id,
                            self.cached()[k].model_version@)
                    } by {
                        if k < old_cache.len() {
                            let e = old_cache[k];
                            assert(spec_has_key(old_durable, e.match_id, e.model_version@));
                            let j = spec_index_of_key(old_durable, e.match_id, e.model_version@);
                            assert(spec_key_matches(old_durable[j], e.match_id, e.model_version@));
                            assert(self@[j] == old_durable[j]);
                            lemma_unique_match_is_the_entry(self@, e.match_id, e.model_version@, j);
                        } else {
                            assert(self.cached()[k] == out);
                        }
                    }
                }
                Ok(out)
            },
            Err(e) => Err(e),
        }
    }

    /// Records the real outcome against the durably stored prediction
    /// for the key — the durable tier is the source of truth — and
    /// refreshes the cached copy if one is held. The record's
    /// actual-outcome label is set and its correctness judged against
    /// the predicted label; every other record is untouched. Returns
    /// `NotFound` exactly when no record carries the key, and then
    /// changes nothing. Reconciling twice with the same outcome leaves
    /// the record as after the first time.
    pub fn reconcile(
        &mut self,
        match_id: u128,
        model_version: &String,
        actual_outcome: MatchResult,
    ) -> (r: Result<(), PredictionError>)
        requires
            old(self).wf(),
        ensures
            final(self).wf(),
            spec_has_key(old(self)@, match_id, model_version@) ==> {
                &&& r is Ok
                &&& final(self)@ == old(self)@.update(
                    spec_index_of_key(old(self)@, match_id, model_version@),
                    spec_reconciled(
                        spec_entry_at(old(self)@, match_id, model_version@),
                        actual_outcome,
                    ),
                )
            },
            !spec_has_key(old(self)@, match_id, model_version@) ==> {
                &&& r == Err::<(), PredictionError>(PredictionError::NotFound)
                &&& final(self)@ == old(self)@
            },
    {
        let durable_index = match find_in(&self.durable, match_id, model_version) {
            Some(i) => i,
            None => {
                return Err(PredictionError::NotFound);
            },
        };
        proof {
            lemma_unique_match_is_the_entry(self@, match_id, model_version@, durable_index as int);
        }
        let cache_index = find_in(&self.cache, match_id, model_version);

        let mut entry = self.durable[durable_index].clone();
        entry.update_actual_result(actual_outcome);

        let ghost old_durable = self@;
        let ghost old_cache = self.cached();
        let ghost new_entry = entry;

        if let Some(c) = cache_index {
            self.cache[c] = entry.clone();
        }
        self.durable[durable_index] = entry;

        proof {
            let di = durable_index as int;
            assert(new_entry.match_id == match_id && new_entry.model_version@ == model_version@);
            assert forall|a: int, b: int|
                #![trigger self@[a], self@[b]]
                0 <= a < b < self@.len() implies !spec_key_matches(
                self@[b],
                self@[a].match_id,
                self@[a].model_version@,
            ) by {
                assert(self@[a].match_id == old_durable[a].match_id);
                assert(self@[a].model_version@ == old_durable[a].model_version@);
                assert(self@[b].match_id == old_durable[b].match_id);
                assert(self@[b].model_version@ == old_durable[b].model_version@);
                assert(!spec_key_matches(old_durable[b], old_durable[a].match_id,
                    old_durable[a].model_version@));
            }
            assert forall|k: int| 0 <= k < self@.len() implies (#[trigger] self@[k]).wf() by {
                if k != di {
                    assert(self@[k] == old_durable[k]);
                }
            }
            lemma_unique_match_is_the_entry(self@, match_id, model_version@, di);
            assert forall|a: int, b: int|
                #![trigger self.cached()[a], self.cached()[b]]
                0 <= a < b < self.cached().len() implies !spec_key_matches(
                self.cached()[b],
                self.cached()[a].match_id,
                self.cached()[a].model_version@,
            ) by {
                assert(self.cached()[a].match_id == old_cache[a].match_id);
                assert(self.cached()[a].model_version@ == old_cache[a].model_version@);
                assert(self.cached()[b].match_id == old_cache[b].match_id);
                assert(self.cached()[b].model_version@ == old_cache[b].model_version@);
                assert(!spec_key_matches(old_cache[b], old_cache[a].match_id,
                    old_cache[a].model_version@));
            }
            assert forall|k: int| 0 <= k < self.cached().len() implies {
                &&& spec_has_key(self@, (#[trigger] self.cached()[k]).match_id,
                    self.cached()[k].model_version@)
                &&& self.cached()[k] == spec_entry_at(self@, self.cached()[k].match_id,
                    self.cached()[k].model_version@)
            } by {
                let e = old_cache[k];
                if cache_index matches Some(c) && k == c as int {
                    assert(self.cached()[k] == new_entry);
                    assert(spec_entry_at(self@, match_id, model_version@) == self@[di]);
                } else {
                    assert(self.cached()[k] == e);
                    assert(spec_has_key(old_durable, e.match_id, e.model_version@));
                    let j = spec_index_of_key(old_durable, e.match_id, e.model_version@);
                    assert(spec_key_matches(old_durable[j], e.match_id, e.model_version@));
                    if j == di {
                        assert(spec_key_matches(old_durable[di], match_id, model_version@));
                        assert(e == spec_entry_at(old_durable, e.match_id, e.model_version@));
                        lemma_unique_match_is_the_entry(old_durable, e.match_id, e.model_version@,
                            di);
                        assert(e == old_durable[di]);
                        assert(spec_key_matches(e, match_id, model_version@));
                        if cache_index is None {
                            assert(spec_has_key(old_cache, match_id, model_version@));
                            assert(false);
                        }
                        let c = cache_index->0 as int;
                        assert(spec_key_matches(old_cache[c], match_id, model_version@));
                        if k < c {
                            assert(!spec_key_matches(old_cache[c], old_cache[k].match_id,
                                old_cache[k].model_version@));
                            assert(false);
                        } else if c < k {
                            assert(!spec_key_matches(old_cache[k], old_cache[c].match_id,
                                old_cache[c].model_version@));
                            assert(false);
                        }
                        assert(false);
                    }
                    assert(self@[j] == old_durable[j]);
                    lemma_unique_match_is_the_entry(self@, e.match_id, e.model_version@, j);
                }
            }
        }
        Ok(())
    }

    /// Evicts from the cache every record created before the horizon.
    ///
    /// Only cached copies go away: the durable tier — and with it every
    /// record, and what `get`, `get_or_create` and `reconcile` answer —
    /// is untouched.
    pub fn evict_cache_before(&mut self, horizon_millis: i64)
        requires
            old(self).wf(),
        ensures
            final(self).wf(),
            final(self)@ == old(self)@,
            forall|i: int|
                0 <= i < final(self).cached().len()
                    ==> (#[trigger] final(self).cached()[i]).created_at >= horizon_millis,
    {
        let ghost old_cache = self.cached();
        let mut kept: Vec<Prediction> = Vec::new();
        let mut i: usize = 0;
        while i < self.cache.len()
            invariant
                i <= old_cache.len(),
                self.cached() == old_cache,
                self.wf(),
                forall|k: int|
                    0 <= k < kept@.len() ==> (#[trigger] kept@[k]).created_at >= horizon_millis,
                forall|k: int|
                    0 <= k < kept@.len() ==> exists|j: int|
                        0 <= j < i && #[trigger] kept@[k] == old_cache[j],
                spec_unique_keys(kept@),
                spec_cache_coherent(kept@, self@),
            decreases old_cache.len() - i,
        {
            if self.cache[i].created_at >= horizon_millis {
                let ghost old_kept = kept@;
                let candidate = self.cache[i].clone();
                kept.push(candidate);
                proof {
                    assert(kept@[old_kept.len() as int] == old_cache[i as int]);
                    assert forall|a: int, b: int|
                        #![trigger kept@[a], kept@[b]]
                        0 <= a < b < kept@.len() implies !spec_key_matches(
                        kept@[b],
                        kept@[a].match_id,
                        kept@[a].model_version@,
                    ) by {
                        if b == old_kept.len() {
                            assert(kept@[a] == old_kept[a]);
                            let j = choose|j: int| 0 <= j < i && old_kept[a] == old_cache[j];
                            assert(!spec_key_matches(old_cache[i as int], old_cache[j].match_id,
                                old_cache[j].model_version@));
                        } else {
                            assert(kept@[a] == old_kept[a]);
                            assert(kept@[b] == old_kept[b]);
                        }
                    }
                }
            }
            i = i + 1;
        }
        self.cache = kept;
    }
}

} // verus!
