//! Key-search arbiter: answers search requests one at a time.
//!
//! It keeps where each key is placed and whether it is paired, shares results of
//! the same search within a short window with those requesters that allow it,
//! and reports for each key the zone in which it was last observed.
//!
//! A request is taken by `begin`. Where it asks for a search to be fired, the
//! airtimes have to elapse, and `finish` then takes the findings.

use vstd::prelude::*;

use crate::features::key_search;
use crate::features::key_search::{
    coverage_zones, has_zone, run_scan, scan_airtimes, AntennaSet, Antennas, Coalescing,
    KeyFinding, KeySearchResult, KeySlot, SearchMode, SearchOutcome, NUM_KEY_SLOTS,
};
use crate::features::key_search_laws;
use crate::ipc_message::{SignalValue, Value};
use crate::signal_bus::{publish_text, Effect, Output, VssPath};
use crate::zone::Zone;

verus! {

/// Coalescing window in milliseconds: a result this old can still be shared.
pub const COALESCE_WINDOW_MS: u64 = 50;

/// Path of the signal that says where the key of a slot is placed.
pub open spec fn placed_path(slot: KeySlot) -> Seq<char> {
    if slot == 1 {
        "Vehicle.Simulation.KeyFob.2.PlacedZone"@
    } else if slot == 2 {
        "Vehicle.Simulation.KeyFob.3.PlacedZone"@
    } else if slot == 3 {
        "Vehicle.Simulation.KeyFob.4.PlacedZone"@
    } else if slot == 4 {
        "Vehicle.Simulation.BlePhone.1.PlacedZone"@
    } else if slot == 5 {
        "Vehicle.Simulation.BlePhone.2.PlacedZone"@
    } else {
        "Vehicle.Simulation.KeyFob.1.PlacedZone"@
    }
}

/// Path of the signal that says where the key of a slot was last observed.
pub open spec fn observed_path(slot: KeySlot) -> Seq<char> {
    if slot == 1 {
        "Vehicle.Simulation.KeyFob.2.LastObservedZone"@
    } else if slot == 2 {
        "Vehicle.Simulation.KeyFob.3.LastObservedZone"@
    } else if slot == 3 {
        "Vehicle.Simulation.KeyFob.4.LastObservedZone"@
    } else if slot == 4 {
        "Vehicle.Simulation.BlePhone.1.LastObservedZone"@
    } else if slot == 5 {
        "Vehicle.Simulation.BlePhone.2.LastObservedZone"@
    } else {
        "Vehicle.Simulation.KeyFob.1.LastObservedZone"@
    }
}

/// The slot is that of a phone.
pub open spec fn is_phone(slot: int) -> bool {
    slot == 4 || slot == 5
}

/// Path of the pairing signal of a slot. Phones have none: once provisioned they
/// are always paired.
pub open spec fn paired_path(slot: KeySlot) -> Option<Seq<char>> {
    if is_phone(slot as int) {
        None
    } else if slot == 1 {
        Some("Vehicle.Simulation.KeyFob.2.Paired"@)
    } else if slot == 2 {
        Some("Vehicle.Simulation.KeyFob.3.Paired"@)
    } else if slot == 3 {
        Some("Vehicle.Simulation.KeyFob.4.Paired"@)
    } else {
        Some("Vehicle.Simulation.KeyFob.1.Paired"@)
    }
}

/// The signal that says where the key of a slot is placed.
pub fn fob_placed_zone_signal(slot: KeySlot) -> (r: VssPath)
    ensures
        r@ == placed_path(slot),
{
    match slot {
        0 => "Vehicle.Simulation.KeyFob.1.PlacedZone",
        1 => "Vehicle.Simulation.KeyFob.2.PlacedZone",
        2 => "Vehicle.Simulation.KeyFob.3.PlacedZone",
        3 => "Vehicle.Simulation.KeyFob.4.PlacedZone",
        4 => "Vehicle.Simulation.BlePhone.1.PlacedZone",
        5 => "Vehicle.Simulation.BlePhone.2.PlacedZone",
        _ => "Vehicle.Simulation.KeyFob.1.PlacedZone",
    }
}

/// The signal that says where the key of a slot was last observed.
pub fn fob_last_observed_zone_signal(slot: KeySlot) -> (r: VssPath)
    ensures
        r@ == observed_path(slot),
{
    match slot {
        0 => "Vehicle.Simulation.KeyFob.1.LastObservedZone",
        1 => "Vehicle.Simulation.KeyFob.2.LastObservedZone",
        2 => "Vehicle.Simulation.KeyFob.3.LastObservedZone",
        3 => "Vehicle.Simulation.KeyFob.4.LastObservedZone",
        4 => "Vehicle.Simulation.BlePhone.1.LastObservedZone",
        5 => "Vehicle.Simulation.BlePhone.2.LastObservedZone",
        _ => "Vehicle.Simulation.KeyFob.1.LastObservedZone",
    }
}

/// The pairing signal of a slot, if it has one. Phones have none.
pub fn fob_paired_signal(slot: KeySlot) -> (r: Option<VssPath>)
    ensures
        match r {
            Some(path) => paired_path(slot) == Some(path@),
            None => paired_path(slot) is None,
        },
{
    match slot {
        0 => Some("Vehicle.Simulation.KeyFob.1.Paired"),
        1 => Some("Vehicle.Simulation.KeyFob.2.Paired"),
        2 => Some("Vehicle.Simulation.KeyFob.3.Paired"),
        3 => Some("Vehicle.Simulation.KeyFob.4.Paired"),
        4 => None,
        5 => None,
        _ => Some("Vehicle.Simulation.KeyFob.1.Paired"),
    }
}

/// State of the key-search arbiter.
#[verifier::ext_equal]
pub struct SearchState {
    /// Where each key is placed, as far as known.
    pub placed: Seq<Option<Zone>>,
    /// Whether each key is paired, as far as known.
    pub paired: Seq<Option<bool>>,
    /// Where each key was last observed.
    pub observed: Seq<Option<Zone>>,
    /// Completed searches, each with the time of its completion.
    pub cache: Seq<(SearchOutcome, u64)>,
}

impl SearchState {
    /// The state after a value of the signal that says where the key of `slot` is
    /// placed.
    pub open spec fn after_placed(self, slot: KeySlot, v: Value) -> SearchState {
        match v {
            Value::Text(s) => match Zone::named(s) {
                Some(z) => SearchState { placed: self.placed.update(slot as int, Some(z)), ..self },
                None => self,
            },
            _ => self,
        }
    }

    /// The state after a value of the pairing signal of `slot`. A slot without such
    /// a signal stays as it is.
    pub open spec fn after_paired(self, slot: KeySlot, v: Value) -> SearchState {
        match v.flag() {
            Some(b) => if is_phone(slot as int) {
                self
            } else {
                SearchState { paired: self.paired.update(slot as int, Some(b)), ..self }
            },
            None => self,
        }
    }

    /// The state once a search has been asked for at `now`: results that are too
    /// old to be shared are gone.
    pub open spec fn begun(self, now: u64) -> SearchState {
        SearchState { cache: still_young(self.cache, now), ..self }
    }

    /// The state and the effects once a search has come to `outcome` at `now`.
    pub open spec fn finished(self, outcome: SearchOutcome, now: u64) -> (
        SearchState,
        Seq<Effect>,
    ) {
        let (observed, out) = noted(self.observed, outcome.antennas_fired, outcome.keys_found);
        (SearchState { observed, cache: self.cache.push((outcome, now)), ..self }, out)
    }

    /// Nothing is known of the pairing of a phone, so that all phones count as
    /// paired.
    pub open spec fn phones_paired(self) -> bool {
        forall|slot: int| is_phone(slot) ==> (#[trigger] self.paired[slot]) is None
    }
}

/// A result completed at `at` can still be shared at `now`.
pub open spec fn young(at: u64, now: u64) -> bool {
    now - at <= COALESCE_WINDOW_MS
}

/// The results that can still be shared at `now`.
pub open spec fn still_young(cache: Seq<(SearchOutcome, u64)>, now: u64) -> Seq<
    (SearchOutcome, u64),
> {
    cache.filter(|e: (SearchOutcome, u64)| young(e.1, now))
}

/// The outcome is that of a search with `antennas` in `mode`.
pub open spec fn same_search(outcome: SearchOutcome, antennas: Antennas, mode: SearchMode) -> bool {
    outcome.antennas_fired == antennas && outcome.mode == mode
}

/// The first result of a search with `antennas` in `mode`, if there is one.
pub open spec fn first_hit(
    cache: Seq<(SearchOutcome, u64)>,
    antennas: Antennas,
    mode: SearchMode,
) -> Option<SearchOutcome>
    decreases cache.len(),
{
    if cache.len() == 0 {
        None
    } else {
        match first_hit(cache.drop_last(), antennas, mode) {
            Some(hit) => Some(hit),
            None => if same_search(cache.last().0, antennas, mode) {
                Some(cache.last().0)
            } else {
                None
            },
        }
    }
}

/// The effect of reporting the zone in which a key was last observed.
pub open spec fn reports(slot: KeySlot, zone: Zone) -> Effect {
    Effect::Publish { signal: observed_path(slot), value: Value::Text(zone.name()) }
}

/// Where the keys were last observed once `keys` have been found, and what is
/// reported: each key whose zone differs from the one reported before.
pub open spec fn note_found(observed: Seq<Option<Zone>>, keys: Seq<KeyFinding>) -> (
    Seq<Option<Zone>>,
    Seq<Effect>,
)
    decreases keys.len(),
{
    if keys.len() == 0 {
        (observed, Seq::empty())
    } else {
        let (seen, out) = note_found(observed, keys.drop_last());
        let key = keys.last();
        if seen[key.slot as int] == Some(key.zone) {
            (seen, out)
        } else {
            (seen.update(key.slot as int, Some(key.zone)), out.push(reports(key.slot, key.zone)))
        }
    }
}

/// The key of a slot is among `keys`.
pub open spec fn is_found(keys: Seq<KeyFinding>, slot: int) -> bool {
    exists|i: int| 0 <= i < keys.len() && (#[trigger] keys[i]).slot == slot
}

/// The key of a slot has left: it was last observed in reach of the antennas and
/// was not found this time.
pub open spec fn has_left(
    observed: Seq<Option<Zone>>,
    antennas: Antennas,
    keys: Seq<KeyFinding>,
    slot: int,
) -> bool {
    &&& !is_found(keys, slot)
    &&& observed[slot] matches Some(z) && antennas.reaches(z) && z != Zone::OutOfRange
}

/// Where the keys of the first `n` slots were last observed once those that have
/// left are out of range, and what is reported.
pub open spec fn note_left(
    observed: Seq<Option<Zone>>,
    antennas: Antennas,
    keys: Seq<KeyFinding>,
    n: nat,
) -> (Seq<Option<Zone>>, Seq<Effect>)
    decreases n,
{
    if n == 0 {
        (observed, Seq::empty())
    } else {
        let slot = n - 1;
        let (seen, out) = note_left(observed, antennas, keys, slot as nat);
        if has_left(observed, antennas, keys, slot) {
            (
                seen.update(slot, Some(Zone::OutOfRange)),
                out.push(reports(slot as u8, Zone::OutOfRange)),
            )
        } else {
            (seen, out)
        }
    }
}

/// Where the keys were last observed after a search, and what is reported.
pub open spec fn noted(observed: Seq<Option<Zone>>, antennas: Antennas, keys: Seq<KeyFinding>) -> (
    Seq<Option<Zone>>,
    Seq<Effect>,
) {
    let (seen, found) = note_found(observed, keys);
    let (end, left) = note_left(seen, antennas, keys, NUM_KEY_SLOTS as nat);
    (end, found + left)
}

/// Every key is one of the key slots.
pub open spec fn slots_known(keys: Seq<KeyFinding>) -> bool {
    forall|i: int| 0 <= i < keys.len() ==> (#[trigger] keys[i]).slot < NUM_KEY_SLOTS
}

/// What a search request leads to.
#[derive(Debug)]
pub enum SearchStep {
    /// A result that is shared.
    Cached(KeySearchResult),
    /// A search that has to be fired: the airtimes of its legs in milliseconds,
    /// and the keys that it finds.
    Fire { airtimes: Vec<u64>, keys_found: Vec<KeyFinding> },
}

struct Completed {
    result: KeySearchResult,
    at: u64,
}

/// The key-search arbiter.
pub struct KeySearchArbiter {
    placed: [Option<Zone>; NUM_KEY_SLOTS],
    paired: [Option<bool>; NUM_KEY_SLOTS],
    observed: [Option<Zone>; NUM_KEY_SLOTS],
    cache: Vec<Completed>,
}

spec fn cache_of(cache: Seq<Completed>) -> Seq<(SearchOutcome, u64)> {
    cache.map_values(|c: Completed| (c.result@, c.at))
}

impl View for KeySearchArbiter {
    type V = SearchState;

    closed spec fn view(&self) -> SearchState {
        SearchState {
            placed: self.placed@,
            paired: self.paired@,
            observed: self.observed@,
            cache: cache_of(self.cache@),
        }
    }
}

impl KeySearchArbiter {
    /// An arbiter that knows nothing of any key.
    pub fn new() -> (r: KeySearchArbiter)
        ensures
            r@ == (SearchState {
                placed: Seq::new(NUM_KEY_SLOTS as nat, |i: int| None),
                paired: Seq::new(NUM_KEY_SLOTS as nat, |i: int| None),
                observed: Seq::new(NUM_KEY_SLOTS as nat, |i: int| None),
                cache: Seq::empty(),
            }),
            r@.phones_paired(),
    {
        let r = KeySearchArbiter {
            placed: [None; NUM_KEY_SLOTS],
            paired: [None; NUM_KEY_SLOTS],
            observed: [None; NUM_KEY_SLOTS],
            cache: Vec::new(),
        };
        proof {
            assert(r.placed@ =~= Seq::new(NUM_KEY_SLOTS as nat, |i: int| None));
            assert(r.paired@ =~= Seq::new(NUM_KEY_SLOTS as nat, |i: int| None));
            assert(r.observed@ =~= Seq::new(NUM_KEY_SLOTS as nat, |i: int| None));
            assert(cache_of(r.cache@) =~= Seq::<(SearchOutcome, u64)>::empty());
        }
        r
    }

    /// The reports at start-up: every key is out of range.
    pub fn boot(&self) -> (r: Vec<Output>)
        ensures
            Effect::all(r@) == Seq::new(
                NUM_KEY_SLOTS as nat,
                |i: int| reports(i as u8, Zone::OutOfRange),
            ),
    {
        let mut r: Vec<Output> = Vec::new();
        let mut slot: usize = 0;
        while slot < NUM_KEY_SLOTS
            invariant
                slot <= NUM_KEY_SLOTS,
                r@.len() == slot,
                forall|i: int|
                    0 <= i < slot ==> (#[trigger] r@[i])@ == reports(i as u8, Zone::OutOfRange),
            decreases NUM_KEY_SLOTS - slot,
        {
            r.push(
                publish_text(
                    fob_last_observed_zone_signal(slot as u8),
                    Zone::OutOfRange.as_str(),
                ),
            );
            slot += 1;
        }
        r
    }

    /// Takes a value of the signal that says where the key of `slot` is placed.
    /// Values that name no zone are ignored.
    pub fn on_placed(&mut self, slot: KeySlot, val: &SignalValue)
        requires
            slot < NUM_KEY_SLOTS,
        ensures
            final(self)@ == old(self)@.after_placed(slot, val@),
    {
        let ghost before = self@;
        if let SignalValue::String(s) = val {
            if let Some(z) = Zone::from_str_value(s.as_str()) {
                self.placed[slot as usize] = Some(z);
                assert(self@ =~= (SearchState {
                    placed: before.placed.update(slot as int, Some(z)),
                    ..before
                }));
            }
        }
    }

    /// Takes a value of the pairing signal of `slot`. Phones have none, and stay
    /// paired.
    pub fn on_paired(&mut self, slot: KeySlot, val: &SignalValue)
        requires
            slot < NUM_KEY_SLOTS,
        ensures
            final(self)@ == old(self)@.after_paired(slot, val@),
    {
        let ghost before = self@;
        if slot == 4 || slot == 5 {
            return;
        }
        if let Some(b) = val.as_bool() {
            self.paired[slot as usize] = Some(b);
            assert(self@ =~= (SearchState {
                paired: before.paired.update(slot as int, Some(b)),
                ..before
            }));
        }
    }

    fn drop_old_results(&mut self, now: u64)
        ensures
            final(self)@ == (SearchState {
                cache: still_young(old(self)@.cache, now),
                ..old(self)@
            }),
    {
        let ghost before = *self;
        let ghost all = cache_of(self.cache@);
        let ghost keep = |e: (SearchOutcome, u64)| young(e.1, now);
        let ghost mut k: int = 0;
        let mut i: usize = 0;
        proof {
            assert(all.take(0) =~= Seq::<(SearchOutcome, u64)>::empty());
            reveal(Seq::filter);
            assert(cache_of(self.cache@) =~= all.take(0).filter(keep) + all.skip(0));
        }
        while i < self.cache.len()
            invariant
                keep == (|e: (SearchOutcome, u64)| young(e.1, now)),
                0 <= k <= all.len(),
                i == all.take(k).filter(keep).len(),
                cache_of(self.cache@) == all.take(k).filter(keep) + all.skip(k),
                self.placed == before.placed,
                self.paired == before.paired,
                self.observed == before.observed,
            decreases all.len() - k,
        {
            let at = self.cache[i].at;
            proof {
                reveal(Seq::filter);
                let longer = all.take(k + 1);
                assert(cache_of(self.cache@)[i as int] == all[k]);
                assert(longer.drop_last() =~= all.take(k));
                assert(longer.last() == all[k]);
                assert(all.skip(k) =~= seq![all[k]] + all.skip(k + 1));
            }
            let ghost held = self.cache@;
            if at > now || now - at <= COALESCE_WINDOW_MS {
                i += 1;
                proof {
                    assert(cache_of(self.cache@) =~= all.take(k + 1).filter(keep) + all.skip(k + 1));
                }
            } else {
                let _ = self.cache.remove(i);
                proof {
                    assert(cache_of(self.cache@) =~= cache_of(held).remove(i as int));
                    assert(cache_of(self.cache@) =~= all.take(k + 1).filter(keep) + all.skip(k + 1));
                }
            }
            proof {
                k = k + 1;
            }
        }
        proof {
            assert(k == all.len()) by {
                if k < all.len() {
                    assert(all.skip(k).len() > 0);
                    assert(cache_of(self.cache@).len() == self.cache@.len());
                }
            }
            assert(all.take(k) =~= all);
            assert(all.skip(k) =~= Seq::<(SearchOutcome, u64)>::empty());
            assert(cache_of(self.cache@) =~= still_young(all, now));
            assert(self@ =~= (SearchState { cache: still_young(before@.cache, now), ..before@ }));
        }
    }

    fn find_result(&self, antennas: &AntennaSet, mode: SearchMode) -> (r: Option<KeySearchResult>)
        ensures
            match r {
                Some(hit) => first_hit(self@.cache, antennas@, mode) == Some(hit@),
                None => first_hit(self@.cache, antennas@, mode) is None,
            },
    {
        let ghost all = cache_of(self.cache@);
        let mut i: usize = 0;
        assert(all.take(0) =~= Seq::<(SearchOutcome, u64)>::empty());
        while i < self.cache.len()
            invariant
                i <= self.cache@.len(),
                all == cache_of(self.cache@),
                first_hit(all.take(i as int), antennas@, mode) is None,
            decreases self.cache@.len() - i,
        {
            let entry = &self.cache[i];
            proof {
                let longer = all.take(i + 1);
                assert(longer.drop_last() =~= all.take(i as int));
                assert(longer.last() == all[i as int]);
            }
            if entry.result.mode == mode && entry.result.antennas_fired.same_as(antennas) {
                proof {
                    lemma_first_hit_extends(all, antennas@, mode, i + 1);
                }
                return Some(entry.result.clone());
            }
            i += 1;
        }
        assert(all.take(all.len() as int) =~= all);
        None
    }

    /// Takes a search request at time `now`.
    pub fn begin(
        &mut self,
        antennas: &AntennaSet,
        mode: SearchMode,
        coalescing: Coalescing,
        now: u64,
    ) -> (r: SearchStep)
        ensures
            final(self)@ == old(self)@.begun(now),
            match r {
                SearchStep::Cached(hit) => coalescing == Coalescing::Allowed && first_hit(
                    still_young(old(self)@.cache, now),
                    antennas@,
                    mode,
                ) == Some(hit@),
                SearchStep::Fire { airtimes, keys_found } => {
                    &&& coalescing == Coalescing::Disallowed || first_hit(
                        still_young(old(self)@.cache, now),
                        antennas@,
                        mode,
                    ) is None
                    &&& airtimes@ == key_search::airtimes(antennas@, mode)
                    &&& keys_found@ == key_search::scan(
                        antennas@,
                        mode,
                        old(self)@.placed,
                        old(self)@.paired,
                    )
                    &&& slots_known(keys_found@)
                },
            },
    {
        self.drop_old_results(now);
        if coalescing == Coalescing::Allowed {
            if let Some(hit) = self.find_result(antennas, mode) {
                return SearchStep::Cached(hit);
            }
        }
        proof {
            key_search::lemma_scan_slots(antennas@, mode, self.placed@, self.paired@);
        }
        SearchStep::Fire {
            airtimes: scan_airtimes(antennas, mode),
            keys_found: run_scan(antennas, mode, &self.placed, &self.paired),
        }
    }

    /// Takes the findings of a search that has been fired and completed at time
    /// `now`, `took` milliseconds after its start.
    pub fn finish(
        &mut self,
        antennas: AntennaSet,
        mode: SearchMode,
        keys_found: Vec<KeyFinding>,
        took: u64,
        now: u64,
    ) -> (r: (KeySearchResult, Vec<Output>))
        requires
            slots_known(keys_found@),
        ensures
            r.0@ == (SearchOutcome {
                keys_found: keys_found@,
                antennas_fired: antennas@,
                mode,
                took,
            }),
            (final(self)@, Effect::all(r.1@)) == old(self)@.finished(r.0@, now),
    {
        let ghost before = *self;
        let outputs = self.publish_last_observed(&antennas, &keys_found);
        let result = KeySearchResult { keys_found, antennas_fired: antennas, mode, took };
        let copy = result.clone();
        self.cache.push(Completed { result: copy, at: now });
        assert(cache_of(self.cache@) =~= cache_of(before.cache@).push((result@, now)));
        (result, outputs)
    }

    fn publish_last_observed(
        &mut self,
        antennas: &AntennaSet,
        keys_found: &Vec<KeyFinding>,
    ) -> (r: Vec<Output>)
        requires
            slots_known(keys_found@),
        ensures
            final(self).placed == old(self).placed,
            final(self).paired == old(self).paired,
            final(self).cache == old(self).cache,
            (final(self).observed@, Effect::all(r@)) == noted(
                old(self).observed@,
                antennas@,
                keys_found@,
            ),
    {
        let ghost start = self.observed@;
        let ghost rest = *self;
        let mut outputs: Vec<Output> = Vec::new();
        let mut i: usize = 0;
        assert(keys_found@.take(0) =~= Seq::<KeyFinding>::empty());
        assert(Effect::all(outputs@) =~= Seq::<Effect>::empty());
        while i < keys_found.len()
            invariant
                i <= keys_found@.len(),
                slots_known(keys_found@),
                (self.observed@, Effect::all(outputs@)) == note_found(
                    start,
                    keys_found@.take(i as int),
                ),
                self.placed == rest.placed,
                self.paired == rest.paired,
                self.cache == rest.cache,
            decreases keys_found@.len() - i,
        {
            let key = keys_found[i];
            let ghost had = outputs@;
            proof {
                let longer = keys_found@.take(i + 1);
                assert(longer.drop_last() =~= keys_found@.take(i as int));
                assert(longer.last() == key);
                assert(key.slot < NUM_KEY_SLOTS);
            }
            let known = match self.observed[key.slot as usize] {
                Some(z) => z == key.zone,
                None => false,
            };
            if !known {
                self.observed[key.slot as usize] = Some(key.zone);
                outputs.push(
                    publish_text(fob_last_observed_zone_signal(key.slot), key.zone.as_str()),
                );
                assert(Effect::all(outputs@) =~= Effect::all(had).push(
                    reports(key.slot, key.zone),
                ));
            }
            i += 1;
        }
        assert(keys_found@.take(keys_found@.len() as int) =~= keys_found@);
        let ghost seen = self.observed@;
        let ghost found_effects = Effect::all(outputs@);
        let mut slot: usize = 0;
        assert(Effect::all(outputs@) =~= found_effects + Seq::<Effect>::empty());
        while slot < NUM_KEY_SLOTS
            invariant
                slot <= NUM_KEY_SLOTS,
                seen.len() == NUM_KEY_SLOTS,
                self.observed@ == note_left(seen, antennas@, keys_found@, slot as nat).0,
                Effect::all(outputs@) == found_effects + note_left(
                    seen,
                    antennas@,
                    keys_found@,
                    slot as nat,
                ).1,
                forall|j: int| slot <= j < NUM_KEY_SLOTS ==> self.observed@[j] == seen[j],
                self.placed == rest.placed,
                self.paired == rest.paired,
                self.cache == rest.cache,
            decreases NUM_KEY_SLOTS - slot,
        {
            let ghost had = outputs@;
            let left = match self.observed[slot] {
                Some(z) => z != Zone::OutOfRange && !slot_found(keys_found, slot as u8)
                    && set_reaches(antennas, z),
                None => false,
            };
            if left {
                self.observed[slot] = Some(Zone::OutOfRange);
                outputs.push(
                    publish_text(
                        fob_last_observed_zone_signal(slot as u8),
                        Zone::OutOfRange.as_str(),
                    ),
                );
                proof {
                    let e = reports(slot as u8, Zone::OutOfRange);
                    assert(Effect::all(outputs@) =~= Effect::all(had).push(e));
                    let so_far = note_left(seen, antennas@, keys_found@, slot as nat).1;
                    assert((found_effects + so_far).push(e) =~= found_effects + so_far.push(e));
                }
            }
            slot += 1;
        }
        outputs
    }
}

fn slot_found(keys: &Vec<KeyFinding>, slot: KeySlot) -> (r: bool)
    ensures
        r == is_found(keys@, slot as int),
{
    let mut i: usize = 0;
    while i < keys.len()
        invariant
            i <= keys@.len(),
            forall|j: int| 0 <= j < i ==> (#[trigger] keys@[j]).slot != slot,
        decreases keys@.len() - i,
    {
        if keys[i].slot == slot {
            return true;
        }
        i += 1;
    }
    false
}

fn set_reaches(antennas: &AntennaSet, zone: Zone) -> (r: bool)
    ensures
        r == antennas@.reaches(zone),
{
    match antennas {
        AntennaSet::Sequence(legs) => {
            proof {
                key_search::lemma_legs(legs@);
            }
            let mut i: usize = 0;
            while i < legs.len()
                invariant
                    i <= legs@.len(),
                    antennas@ == Antennas::Sequence(key_search::legs_of(legs@)),
                    key_search::legs_of(legs@).len() == legs@.len(),
                    forall|k: int|
                        0 <= k < legs@.len() ==> (#[trigger] key_search::legs_of(legs@)[k])
                            == (legs@[k].0@, legs@[k].1),
                    forall|k: int|
                        0 <= k < i ==> !(#[trigger] key_search::legs_of(
                            legs@,
                        )[k]).0.coverage().contains(zone),
                decreases legs@.len() - i,
            {
                let coverage = coverage_zones(&legs[i].0);
                assert(key_search::legs_of(legs@)[i as int].0 == legs@[i as int].0@);
                if has_zone(&coverage, zone) {
                    proof {
                        let all = key_search::legs_of(legs@);
                        assert(all[i as int].0.coverage().contains(zone));
                        assert(key_search::legs_reach(all, zone));
                    }
                    return true;
                }
                i += 1;
            }
            false
        },
        _ => {
            let coverage = coverage_zones(antennas);
            has_zone(&coverage, zone)
        },
    }
}

proof fn lemma_first_hit_extends(
    cache: Seq<(SearchOutcome, u64)>,
    antennas: Antennas,
    mode: SearchMode,
    n: int,
)
    requires
        0 <= n <= cache.len(),
        first_hit(cache.take(n), antennas, mode) is Some,
    ensures
        first_hit(cache, antennas, mode) == first_hit(cache.take(n), antennas, mode),
    decreases cache.len() - n,
{
    if n == cache.len() {
        assert(cache.take(n) =~= cache);
    } else {
        let longer = cache.take(n + 1);
        assert(longer.drop_last() =~= cache.take(n));
        lemma_first_hit_extends(cache, antennas, mode, n + 1);
    }
}

/// Phones are always paired: no pairing value changes that, whichever slot it is
/// for. So a search of any kind finds every phone that is placed in reach of its
/// antennas.
pub proof fn law_phones_are_always_paired(
    s: SearchState,
    slot: KeySlot,
    v: Value,
    antennas: Antennas,
    mode: SearchMode,
    phone: int,
    zone: Zone,
)
    requires
        s.phones_paired(),
        s.paired.len() == NUM_KEY_SLOTS,
        slot < NUM_KEY_SLOTS,
        antennas !is Sequence,
        is_phone(phone),
        s.placed[phone] == Some(zone),
        antennas.coverage().contains(zone),
    ensures
        ({
            let next = s.after_paired(slot, v);
            &&& next.phones_paired()
            &&& key_search_laws::sees(
                key_search::scan(antennas, mode, next.placed, next.paired),
                phone,
                zone,
            )
        }),
{
    let next = s.after_paired(slot, v);
    assert forall|p: int| is_phone(p) implies (#[trigger] next.paired[p]) is None by {
        assert(s.paired[p] is None);
    }
    assert(next.paired[phone] is None);
    key_search_laws::law_set_sees_placed_keys(
        antennas,
        mode,
        next.placed,
        next.paired,
        phone,
        zone,
    );
}

/// A shared result is one of the same search, completed within the window.
pub proof fn law_shared_result_is_fresh(
    cache: Seq<(SearchOutcome, u64)>,
    antennas: Antennas,
    mode: SearchMode,
    now: u64,
)
    ensures
        match first_hit(still_young(cache, now), antennas, mode) {
            Some(hit) => same_search(hit, antennas, mode) && exists|i: int|
                0 <= i < cache.len() && (#[trigger] cache[i]).0 == hit && young(cache[i].1, now),
            None => forall|i: int|
                0 <= i < cache.len() && young((#[trigger] cache[i]).1, now) ==> !same_search(
                    cache[i].0,
                    antennas,
                    mode,
                ),
        },
{
    let keep = |e: (SearchOutcome, u64)| young(e.1, now);
    let kept = cache.filter(keep);
    lemma_first_hit(kept, antennas, mode);
    match first_hit(kept, antennas, mode) {
        Some(hit) => {
            let i = choose|i: int|
                0 <= i < kept.len() && (#[trigger] kept[i]).0 == hit && same_search(
                    hit,
                    antennas,
                    mode,
                );
            cache.lemma_filter_pred(keep, i);
            assert(kept.contains(kept[i]));
            cache.lemma_filter_contains_rev(keep, kept[i]);
            let j = choose|j: int| 0 <= j < cache.len() && cache[j] == kept[i];
            assert(cache[j].0 == hit);
        },
        None => {
            assert forall|i: int|
                0 <= i < cache.len() && young((#[trigger] cache[i]).1, now) implies !same_search(
                cache[i].0,
                antennas,
                mode,
            ) by {
                cache.lemma_filter_contains(keep, i);
                let j = choose|j: int| 0 <= j < kept.len() && kept[j] == cache[i];
                assert(kept[j].0 == cache[i].0);
            }
        },
    }
}

proof fn lemma_first_hit(
    cache: Seq<(SearchOutcome, u64)>,
    antennas: Antennas,
    mode: SearchMode,
)
    ensures
        match first_hit(cache, antennas, mode) {
            Some(hit) => exists|i: int|
                0 <= i < cache.len() && (#[trigger] cache[i]).0 == hit && same_search(
                    hit,
                    antennas,
                    mode,
                ),
            None => forall|i: int|
                0 <= i < cache.len() ==> !same_search((#[trigger] cache[i]).0, antennas, mode),
        },
    decreases cache.len(),
{
    if cache.len() > 0 {
        let rest = cache.drop_last();
        lemma_first_hit(rest, antennas, mode);
        match first_hit(rest, antennas, mode) {
            Some(hit) => {
                let i = choose|i: int|
                    0 <= i < rest.len() && (#[trigger] rest[i]).0 == hit && same_search(
                        hit,
                        antennas,
                        mode,
                    );
                assert(cache[i] == rest[i]);
            },
            None => {
                let n = rest.len() as int;
                assert(cache[n] == cache.last());
                assert forall|i: int| 0 <= i < cache.len() && !same_search(
                    cache.last().0,
                    antennas,
                    mode,
                ) implies !same_search((#[trigger] cache[i]).0, antennas, mode) by {
                    if i < n {
                        assert(cache[i] == rest[i]);
                    }
                }
            },
        }
    }
}

/// After a search the key of a slot that was not found is reported out of range
/// where it had been observed in reach of the antennas, and is left as it was
/// everywhere else: a search says nothing of keys beyond its reach.
pub proof fn law_unfound_keys(
    observed: Seq<Option<Zone>>,
    antennas: Antennas,
    keys: Seq<KeyFinding>,
    slot: int,
)
    requires
        observed.len() == NUM_KEY_SLOTS,
        slots_known(keys),
        0 <= slot < NUM_KEY_SLOTS,
        !is_found(keys, slot),
    ensures
        noted(observed, antennas, keys).0[slot] == if has_left(observed, antennas, keys, slot) {
            Some(Zone::OutOfRange)
        } else {
            observed[slot]
        },
{
    let seen = note_found(observed, keys).0;
    lemma_note_found_elsewhere(observed, keys, slot);
    lemma_note_left_at(seen, antennas, keys, NUM_KEY_SLOTS as nat, slot);
}

/// After a search every key that was found, and found in one zone only, is
/// reported there.
pub proof fn law_found_keys_are_observed(
    observed: Seq<Option<Zone>>,
    antennas: Antennas,
    keys: Seq<KeyFinding>,
    slot: int,
    zone: Zone,
)
    requires
        observed.len() == NUM_KEY_SLOTS,
        slots_known(keys),
        0 <= slot < NUM_KEY_SLOTS,
        is_found(keys, slot),
        forall|i: int| 0 <= i < keys.len() && (#[trigger] keys[i]).slot == slot ==> keys[i].zone == zone,
    ensures
        noted(observed, antennas, keys).0[slot] == Some(zone),
{
    let seen = note_found(observed, keys).0;
    lemma_note_found_at(observed, keys, slot, zone);
    lemma_note_left_at(seen, antennas, keys, NUM_KEY_SLOTS as nat, slot);
}

proof fn lemma_note_found_elsewhere(observed: Seq<Option<Zone>>, keys: Seq<KeyFinding>, slot: int)
    requires
        observed.len() == NUM_KEY_SLOTS,
        slots_known(keys),
        0 <= slot < NUM_KEY_SLOTS,
        !is_found(keys, slot),
    ensures
        note_found(observed, keys).0.len() == NUM_KEY_SLOTS,
        note_found(observed, keys).0[slot] == observed[slot],
    decreases keys.len(),
{
    if keys.len() > 0 {
        let rest = keys.drop_last();
        assert(keys[keys.len() - 1].slot != slot);
        assert(keys[keys.len() - 1].slot < NUM_KEY_SLOTS);
        assert forall|i: int| 0 <= i < rest.len() implies (#[trigger] rest[i]).slot < NUM_KEY_SLOTS by {
            assert(rest[i] == keys[i]);
        }
        assert(!is_found(rest, slot)) by {
            if is_found(rest, slot) {
                let i = choose|i: int| 0 <= i < rest.len() && (#[trigger] rest[i]).slot == slot;
                assert(keys[i].slot == slot);
            }
        }
        lemma_note_found_elsewhere(observed, rest, slot);
    }
}

proof fn lemma_note_found_at(
    observed: Seq<Option<Zone>>,
    keys: Seq<KeyFinding>,
    slot: int,
    zone: Zone,
)
    requires
        observed.len() == NUM_KEY_SLOTS,
        slots_known(keys),
        0 <= slot < NUM_KEY_SLOTS,
        is_found(keys, slot),
        forall|i: int| 0 <= i < keys.len() && (#[trigger] keys[i]).slot == slot ==> keys[i].zone == zone,
    ensures
        note_found(observed, keys).0.len() == NUM_KEY_SLOTS,
        note_found(observed, keys).0[slot] == Some(zone),
    decreases keys.len(),
{
    let rest = keys.drop_last();
    let n = keys.len() - 1;
    assert(keys[n].slot < NUM_KEY_SLOTS);
    assert forall|i: int| 0 <= i < rest.len() implies (#[trigger] rest[i]).slot < NUM_KEY_SLOTS by {
        assert(rest[i] == keys[i]);
    }
    assert forall|i: int|
        0 <= i < rest.len() && (#[trigger] rest[i]).slot == slot implies rest[i].zone == zone by {
        assert(rest[i] == keys[i]);
    }
    if is_found(rest, slot) {
        lemma_note_found_at(observed, rest, slot, zone);
    } else {
        lemma_note_found_elsewhere(observed, rest, slot);
        let i = choose|i: int| 0 <= i < keys.len() && (#[trigger] keys[i]).slot == slot;
        if i < n {
            assert(rest[i].slot == slot);
        }
    }
}

proof fn lemma_note_left_at(
    observed: Seq<Option<Zone>>,
    antennas: Antennas,
    keys: Seq<KeyFinding>,
    n: nat,
    slot: int,
)
    requires
        observed.len() == NUM_KEY_SLOTS,
        n <= NUM_KEY_SLOTS,
        0 <= slot < NUM_KEY_SLOTS,
    ensures
        note_left(observed, antennas, keys, n).0.len() == NUM_KEY_SLOTS,
        note_left(observed, antennas, keys, n).0[slot] == if slot < n && has_left(
            observed,
            antennas,
            keys,
            slot,
        ) {
            Some(Zone::OutOfRange)
        } else {
            observed[slot]
        },
    decreases n,
{
    if n > 0 {
        lemma_note_left_at(observed, antennas, keys, (n - 1) as nat, slot);
    }
}

} // verus!
