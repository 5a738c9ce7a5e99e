//! What the key-search arbiter makes of its history.

use vstd::prelude::*;

use crate::features::key_search;
use crate::features::key_search::{
    Antennas, KeyFinding, KeySlot, SearchMode, SearchOutcome, NUM_KEY_SLOTS,
};
use crate::features::key_search_arbiter;
use crate::features::key_search_arbiter::{KeySearchArbiter, SearchState};
use crate::features::key_search_laws;
use crate::history;
use crate::ipc_message::Value;
use crate::signal_bus::{Effect, Output};
use crate::zone::Zone;

verus! {

/// Something that happens to the key-search arbiter.
pub enum SearchEvent {
    /// Value of the placement signal of a slot.
    Placed(KeySlot, Value),
    /// Value of the pairing signal of a slot.
    Paired(KeySlot, Value),
    /// A search is asked for at a time.
    Begun(u64),
    /// A search has come to an outcome at a time.
    Finished(SearchOutcome, u64),
}

/// The state after one event. There are six slots.
pub open spec fn step(s: SearchState, event: SearchEvent) -> SearchState {
    match event {
        SearchEvent::Placed(slot, v) => if slot < 6 {
            s.after_placed(slot, v)
        } else {
            s
        },
        SearchEvent::Paired(slot, v) => if slot < 6 {
            s.after_paired(slot, v)
        } else {
            s
        },
        SearchEvent::Begun(now) => s.begun(now),
        SearchEvent::Finished(outcome, now) => s.finished(outcome, now).0,
    }
}

/// The state after a run of events.
pub open spec fn run(s: SearchState, events: Seq<SearchEvent>) -> SearchState
    decreases events.len(),
{
    if events.len() == 0 {
        s
    } else {
        step(run(s, events.drop_last()), events.last())
    }
}

/// Reads off an event the zone that it names for the key of a slot.
pub open spec fn zone_named(slot: int) -> spec_fn(SearchEvent) -> Option<Zone> {
    |e: SearchEvent|
        match e {
            SearchEvent::Placed(at, Value::Text(s)) => if at == slot {
                Zone::named(s)
            } else {
                None
            },
            _ => None,
        }
}

/// Reads off an event whether the key of a slot is paired.
pub open spec fn pairing_told(slot: int) -> spec_fn(SearchEvent) -> Option<bool> {
    |e: SearchEvent|
        match e {
            SearchEvent::Paired(at, Value::Bool(b)) => if at == slot {
                Some(b)
            } else {
                None
            },
            _ => None,
        }
}

/// Over every run the key of a slot is placed in the zone named last for it,
/// whichever of the zones that is, and nowhere before the first. It is paired as
/// told last, but nothing told of a phone counts.
pub proof fn law_placement_is_the_latest(
    arbiter: KeySearchArbiter,
    events: Seq<SearchEvent>,
    slot: int,
)
    requires
        call_ensures(KeySearchArbiter::new, (), arbiter),
        0 <= slot < 6,
    ensures
        run(arbiter@, events).placed[slot] == history::latest(events, zone_named(slot)),
        run(arbiter@, events).paired[slot] == if slot == 4 || slot == 5 {
            None
        } else {
            history::latest(events, pairing_told(slot))
        },
        run(arbiter@, events).placed.len() == 6,
        run(arbiter@, events).paired.len() == 6,
    decreases events.len(),
{
    if events.len() > 0 {
        law_placement_is_the_latest(arbiter, events.drop_last(), slot);
    }
}

/// A placement value that names a zone puts the key of its slot there, from
/// whatever state, and leaves every other key and all else alone. One that names
/// no zone changes nothing.
pub proof fn law_placement_takes_effect(s: SearchState, slot: KeySlot, z: Zone, v: Value)
    requires
        slot < 6,
        s.placed.len() == 6,
    ensures
        ({
            let t = s.after_placed(slot, Value::Text(z.name()));
            &&& t.placed[slot as int] == Some(z)
            &&& t.placed.len() == 6
            &&& forall|other: int|
                0 <= other < 6 && other != slot ==> #[trigger] t.placed[other] == s.placed[other]
            &&& t.paired == s.paired
            &&& t.observed == s.observed
            &&& t.cache == s.cache
        }),
        (v matches Value::Text(text) ==> forall|y: Zone| #[trigger] y.name() != text)
            ==> s.after_placed(slot, v) == s,
{
    crate::zone::law_zone_reads_back(z);
    if let Value::Text(text) = v {
        crate::zone::law_zone_names(text);
    }
}

/// Over every run a search with a single antenna set sees a key in a zone exactly
/// when that zone is the one named last for it, the antennas cover it and, where
/// the search authenticates, the key was not told unpaired last.
pub proof fn law_search_sees_latest_placement(
    arbiter: KeySearchArbiter,
    events: Seq<SearchEvent>,
    a: Antennas,
    mode: SearchMode,
    slot: int,
    zone: Zone,
)
    requires
        call_ensures(KeySearchArbiter::new, (), arbiter),
        a !is Sequence,
    ensures
        ({
            let s = run(arbiter@, events);
            key_search_laws::sees(key_search::scan(a, mode, s.placed, s.paired), slot, zone)
                <==> {
                &&& 0 <= slot < 6
                &&& history::latest(events, zone_named(slot)) == Some(zone)
                &&& a.coverage().contains(zone)
                &&& mode is Presence || slot == 4 || slot == 5 || history::latest(
                    events,
                    pairing_told(slot),
                ) != Some(false)
            }
        }),
{
    let s = run(arbiter@, events);
    key_search_laws::law_set_sees_placed_keys(a, mode, s.placed, s.paired, slot, zone);
    if 0 <= slot < 6 {
        law_placement_is_the_latest(arbiter, events, slot);
    }
}

/// Over every run a search of any kind, chains of chains included, finds a key in
/// a zone only if that zone is the one named last for its slot.
pub proof fn law_found_only_where_placed_last(
    arbiter: KeySearchArbiter,
    events: Seq<SearchEvent>,
    a: Antennas,
    mode: SearchMode,
    i: int,
)
    requires
        call_ensures(KeySearchArbiter::new, (), arbiter),
        ({
            let s = run(arbiter@, events);
            0 <= i < key_search::scan(a, mode, s.placed, s.paired).len()
        }),
    ensures
        ({
            let s = run(arbiter@, events);
            let key = key_search::scan(a, mode, s.placed, s.paired)[i];
            &&& key.slot < 6
            &&& history::latest(events, zone_named(key.slot as int)) == Some(key.zone)
        }),
{
    let s = run(arbiter@, events);
    lemma_scan_is_placed(a, mode, s.placed, s.paired);
    let key = key_search::scan(a, mode, s.placed, s.paired)[i];
    law_placement_is_the_latest(arbiter, events, key.slot as int);
}

spec fn all_placed(keys: Seq<KeyFinding>, placed: Seq<Option<Zone>>) -> bool {
    forall|i: int|
        0 <= i < keys.len() ==> (#[trigger] keys[i]).slot < 6 && placed[keys[i].slot as int]
            == Some(keys[i].zone)
}

proof fn lemma_scan_is_placed(
    a: Antennas,
    mode: SearchMode,
    placed: Seq<Option<Zone>>,
    paired: Seq<Option<bool>>,
)
    ensures
        all_placed(key_search::scan(a, mode, placed, paired), placed),
    decreases a, 1int,
{
    match a {
        Antennas::Sequence(legs) => {
            lemma_legs_are_placed(legs, placed, paired);
        },
        _ => {
            key_search::law_search_finds_exactly_the_covered_keys(a, mode, placed, paired);
        },
    }
}

proof fn lemma_legs_are_placed(
    legs: Seq<(Antennas, SearchMode)>,
    placed: Seq<Option<Zone>>,
    paired: Seq<Option<bool>>,
)
    ensures
        all_placed(key_search::scan_legs(legs, placed, paired), placed),
    decreases legs, 0int,
{
    if legs.len() > 0 {
        let first = key_search::scan_legs(legs.drop_last(), placed, paired);
        let last = key_search::scan(legs.last().0, legs.last().1, placed, paired);
        lemma_legs_are_placed(legs.drop_last(), placed, paired);
        lemma_scan_is_placed(legs.last().0, legs.last().1, placed, paired);
        let all = key_search::scan_legs(legs, placed, paired);
        assert forall|i: int| 0 <= i < all.len() implies (#[trigger] all[i]).slot < 6
            && placed[all[i].slot as int] == Some(all[i].zone) by {
            if i < first.len() {
                assert(all[i] == first[i]);
            } else {
                assert(all[i] == last[i - first.len()]);
            }
        }
    }
}

/// Each zone is covered by the antennas meant for it: the approach antennas cover
/// what lies around the vehicle, a front handle its own side, and the others one
/// zone each. Out of range and radio range are covered by none, and a rear handle
/// and a chain by itself cover nothing.
pub proof fn law_coverage(a: Antennas, zone: Zone)
    ensures
        a.coverage().contains(zone) <==> match zone {
            Zone::OutOfRange | Zone::RfRange => false,
            Zone::Approach | Zone::Hood => a is AllApproach,
            Zone::LeftFront => a is AllApproach || (a matches Antennas::SingleHandle(door)
                && door.row == 1 && door.side is Left),
            Zone::RightFront => a is AllApproach || (a matches Antennas::SingleHandle(door)
                && door.row == 1 && door.side is Right),
            Zone::Trunk => a is AllApproach || a is TrunkOutside,
            Zone::TrunkInside => a is TrunkInside,
            Zone::Cabin => a is Cabin,
            Zone::KeyCylinder => a is Cylinder,
        },
        a.coverage().no_duplicates(),
{
    let c = a.coverage();
    if c.len() > 0 {
        assert(c[0] == c[0]);
        assert(c.contains(c[0]));
    }
    if c.len() == 5 {
        assert(c.contains(c[1]) && c.contains(c[2]) && c.contains(c[3]) && c.contains(c[4]));
    }
}

/// Authenticating takes longer than a ping, wherever a key can be authenticated:
/// twice as long with one antenna, three times as long with all on approach. The
/// key cylinder is as fast either way, and a ping always takes 50 milliseconds.
pub proof fn law_airtimes(a: Antennas)
    ensures
        a.airtime(SearchMode::Presence) == 50,
        a is AllApproach ==> a.airtime(SearchMode::Authenticated) == 3 * a.airtime(
            SearchMode::Presence,
        ),
        a is Cylinder || a is Sequence ==> a.airtime(SearchMode::Authenticated) == a.airtime(
            SearchMode::Presence,
        ),
        a !is AllApproach && a !is Cylinder && a !is Sequence ==> a.airtime(
            SearchMode::Authenticated,
        ) == 2 * a.airtime(SearchMode::Presence),
{
}

/// A key is heard the better the closer it is: best inside, less well at the
/// vehicle, faintly on approach, and as good as not at all elsewhere.
pub proof fn law_strength_falls_with_distance(z: Zone)
    ensures
        key_search::strength(z) == match z {
            Zone::Cabin | Zone::TrunkInside => -45int,
            Zone::LeftFront | Zone::RightFront | Zone::Hood | Zone::Trunk => -55int,
            Zone::Approach => -75int,
            Zone::OutOfRange | Zone::RfRange | Zone::KeyCylinder => -127int,
        },
        Antennas::Cabin.coverage().contains(z) || Antennas::TrunkInside.coverage().contains(z)
            <==> key_search::strength(z) > -50,
{
    law_coverage(Antennas::Cabin, z);
    law_coverage(Antennas::TrunkInside, z);
}

/// A result is shared as long as it is at most 50 milliseconds old, and one that
/// was completed goes into the store with the time of its completion, behind all
/// others. A request keeps what is young enough and drops the rest.
pub proof fn law_sharing_window(s: SearchState, outcome: SearchOutcome, at: u64, now: u64)
    ensures
        s.finished(outcome, at).0.cache == s.cache.push((outcome, at)),
        s.finished(outcome, at).0.placed == s.placed,
        s.finished(outcome, at).0.paired == s.paired,
        s.begun(now).placed == s.placed,
        s.begun(now).paired == s.paired,
        s.begun(now).observed == s.observed,
        forall|e: (SearchOutcome, u64)| #[trigger]
            s.begun(now).cache.contains(e) <==> s.cache.contains(e) && now - e.1 <= 50,
{
    let keep = |e: (SearchOutcome, u64)| key_search_arbiter::young(e.1, now);
    let kept = s.cache.filter(keep);
    assert forall|e: (SearchOutcome, u64)| #[trigger] kept.contains(e) <==> s.cache.contains(e)
        && now - e.1 <= 50 by {
        if kept.contains(e) {
            let i = choose|i: int| 0 <= i < kept.len() && kept[i] == e;
            s.cache.lemma_filter_pred(keep, i);
            s.cache.lemma_filter_contains_rev(keep, e);
        }
        if s.cache.contains(e) && now - e.1 <= 50 {
            let i = choose|i: int| 0 <= i < s.cache.len() && s.cache[i] == e;
            s.cache.lemma_filter_contains(keep, i);
        }
    }
}

/// Each report after a search says of one slot either that its key is where the
/// search found it, or that it is out of range, and the latter only of a key that
/// was not found.
pub proof fn law_reports_follow_the_search(
    observed: Seq<Option<Zone>>,
    antennas: Antennas,
    keys: Seq<KeyFinding>,
    k: int,
)
    requires
        observed.len() == NUM_KEY_SLOTS,
        key_search_arbiter::slots_known(keys),
        0 <= k < key_search_arbiter::noted(observed, antennas, keys).1.len(),
    ensures
        exists|slot: u8, zone: Zone|
            {
                &&& slot < 6
                &&& key_search_arbiter::noted(observed, antennas, keys).1[k]
                    == #[trigger] key_search_arbiter::reports(slot, zone)
                &&& key_search_laws::sees(keys, slot as int, zone) || zone is OutOfRange
                    && !key_search_arbiter::is_found(keys, slot as int)
            },
{
    let (seen, found) = key_search_arbiter::note_found(observed, keys);
    let (end, left) = key_search_arbiter::note_left(seen, antennas, keys, NUM_KEY_SLOTS as nat);
    if k < found.len() {
        lemma_found_reports(observed, keys, k);
        assert(key_search_arbiter::noted(observed, antennas, keys).1[k] == found[k]);
    } else {
        lemma_left_reports(seen, antennas, keys, NUM_KEY_SLOTS as nat, k - found.len());
        assert(key_search_arbiter::noted(observed, antennas, keys).1[k] == left[k - found.len()]);
    }
}

proof fn lemma_found_reports(observed: Seq<Option<Zone>>, keys: Seq<KeyFinding>, k: int)
    requires
        key_search_arbiter::slots_known(keys),
        0 <= k < key_search_arbiter::note_found(observed, keys).1.len(),
    ensures
        exists|slot: u8, zone: Zone|
            {
                &&& slot < 6
                &&& key_search_arbiter::note_found(observed, keys).1[k]
                    == #[trigger] key_search_arbiter::reports(slot, zone)
                &&& key_search_laws::sees(keys, slot as int, zone)
            },
    decreases keys.len(),
{
    let rest = keys.drop_last();
    let n = keys.len() - 1;
    let out = key_search_arbiter::note_found(observed, rest).1;
    assert(keys[n].slot < NUM_KEY_SLOTS);
    assert forall|i: int| 0 <= i < rest.len() implies (#[trigger] rest[i]).slot
        < NUM_KEY_SLOTS by {
        assert(rest[i] == keys[i]);
    }
    if k < out.len() {
        lemma_found_reports(observed, rest, k);
        let (slot, zone) = choose|slot: u8, zone: Zone|
            {
                &&& slot < 6
                &&& out[k] == #[trigger] key_search_arbiter::reports(slot, zone)
                &&& key_search_laws::sees(rest, slot as int, zone)
            };
        let i = choose|i: int|
            0 <= i < rest.len() && (#[trigger] rest[i]).slot == slot && rest[i].zone == zone;
        assert(keys[i] == rest[i]);
        assert(key_search_laws::sees(keys, slot as int, zone));
    } else {
        assert(key_search_laws::sees(keys, keys[n].slot as int, keys[n].zone));
        assert(key_search_arbiter::note_found(observed, keys).1[k] == key_search_arbiter::reports(
            keys[n].slot,
            keys[n].zone,
        ));
    }
}

proof fn lemma_left_reports(
    seen: Seq<Option<Zone>>,
    antennas: Antennas,
    keys: Seq<KeyFinding>,
    n: nat,
    k: int,
)
    requires
        n <= NUM_KEY_SLOTS,
        0 <= k < key_search_arbiter::note_left(seen, antennas, keys, n).1.len(),
    ensures
        exists|slot: u8|
            {
                &&& slot < 6
                &&& key_search_arbiter::note_left(seen, antennas, keys, n).1[k]
                    == #[trigger] key_search_arbiter::reports(slot, Zone::OutOfRange)
                &&& !key_search_arbiter::is_found(keys, slot as int)
            },
    decreases n,
{
    let m = (n - 1) as nat;
    let out = key_search_arbiter::note_left(seen, antennas, keys, m).1;
    if k < out.len() {
        lemma_left_reports(seen, antennas, keys, m, k);
    } else {
        assert(!key_search_arbiter::is_found(keys, (m as u8) as int));
        assert(key_search_arbiter::note_left(seen, antennas, keys, n).1[k]
            == key_search_arbiter::reports(m as u8, Zone::OutOfRange));
    }
}

/// Every slot has signals of its own, fobs and phones each numbered from one, and the
/// phones have no pairing signal.
pub proof fn law_slot_signals_are_distinct(a: KeySlot, b: KeySlot)
    requires
        a < 6,
        b < 6,
    ensures
        key_search_arbiter::observed_path(a) == key_search_arbiter::observed_path(b) ==> a == b,
        key_search_arbiter::placed_path(a) == key_search_arbiter::placed_path(b) ==> a == b,
        key_search_arbiter::paired_path(a) is Some && key_search_arbiter::paired_path(a)
            == key_search_arbiter::paired_path(b) ==> a == b,
        key_search_arbiter::paired_path(a) is None <==> a == 4 || a == 5,
        a < 4 ==> {
            &&& key_search_arbiter::observed_path(a)[26] as int - '0' as int == a + 1
            &&& key_search_arbiter::placed_path(a)[26] as int - '0' as int == a + 1
            &&& key_search_arbiter::paired_path(a)->0[26] as int - '0' as int == a + 1
        },
        a >= 4 ==> {
            &&& key_search_arbiter::observed_path(a)[28] as int - '0' as int == a - 3
            &&& key_search_arbiter::placed_path(a)[28] as int - '0' as int == a - 3
        },
{
    reveal_strlit("Vehicle.Simulation.KeyFob.1.LastObservedZone");
    reveal_strlit("Vehicle.Simulation.KeyFob.2.LastObservedZone");
    reveal_strlit("Vehicle.Simulation.KeyFob.3.LastObservedZone");
    reveal_strlit("Vehicle.Simulation.KeyFob.4.LastObservedZone");
    reveal_strlit("Vehicle.Simulation.BlePhone.1.LastObservedZone");
    reveal_strlit("Vehicle.Simulation.BlePhone.2.LastObservedZone");
    assert("Vehicle.Simulation.KeyFob.1.LastObservedZone"@[26] == '1');
    assert("Vehicle.Simulation.KeyFob.2.LastObservedZone"@[26] == '2');
    assert("Vehicle.Simulation.KeyFob.3.LastObservedZone"@[26] == '3');
    assert("Vehicle.Simulation.KeyFob.4.LastObservedZone"@[26] == '4');
    assert("Vehicle.Simulation.BlePhone.1.LastObservedZone"@[26] == 'e');
    assert("Vehicle.Simulation.BlePhone.2.LastObservedZone"@[26] == 'e');
    assert("Vehicle.Simulation.BlePhone.1.LastObservedZone"@[28] == '1');
    assert("Vehicle.Simulation.BlePhone.2.LastObservedZone"@[28] == '2');
    reveal_strlit("Vehicle.Simulation.KeyFob.1.PlacedZone");
    reveal_strlit("Vehicle.Simulation.KeyFob.2.PlacedZone");
    reveal_strlit("Vehicle.Simulation.KeyFob.3.PlacedZone");
    reveal_strlit("Vehicle.Simulation.KeyFob.4.PlacedZone");
    reveal_strlit("Vehicle.Simulation.BlePhone.1.PlacedZone");
    reveal_strlit("Vehicle.Simulation.BlePhone.2.PlacedZone");
    assert("Vehicle.Simulation.KeyFob.1.PlacedZone"@[26] == '1');
    assert("Vehicle.Simulation.KeyFob.2.PlacedZone"@[26] == '2');
    assert("Vehicle.Simulation.KeyFob.3.PlacedZone"@[26] == '3');
    assert("Vehicle.Simulation.KeyFob.4.PlacedZone"@[26] == '4');
    assert("Vehicle.Simulation.BlePhone.1.PlacedZone"@[26] == 'e');
    assert("Vehicle.Simulation.BlePhone.2.PlacedZone"@[26] == 'e');
    assert("Vehicle.Simulation.BlePhone.1.PlacedZone"@[28] == '1');
    assert("Vehicle.Simulation.BlePhone.2.PlacedZone"@[28] == '2');
    reveal_strlit("Vehicle.Simulation.KeyFob.1.Paired");
    reveal_strlit("Vehicle.Simulation.KeyFob.2.Paired");
    reveal_strlit("Vehicle.Simulation.KeyFob.3.Paired");
    reveal_strlit("Vehicle.Simulation.KeyFob.4.Paired");
    assert("Vehicle.Simulation.KeyFob.1.Paired"@[26] == '1');
    assert("Vehicle.Simulation.KeyFob.2.Paired"@[26] == '2');
    assert("Vehicle.Simulation.KeyFob.3.Paired"@[26] == '3');
    assert("Vehicle.Simulation.KeyFob.4.Paired"@[26] == '4');
}

/// What `out` leaves on the signal of a slot agrees with `seen`, given what was
/// there before.
pub open spec fn bus_agrees(
    out: Seq<Effect>,
    before: Option<Zone>,
    seen: Option<Zone>,
    slot: KeySlot,
) -> bool {
    match history::latest(out, history::published_on(key_search_arbiter::observed_path(slot))) {
        Some(v) => seen matches Some(zone) && v == Value::Text(zone.name()),
        None => seen == before,
    }
}

/// After every search the zone that stands on the bus for a slot is the one in
/// which its key was last observed: a change is reported on the signal of that
/// slot, and where nothing is reported nothing has changed.
pub proof fn law_bus_shows_last_observed_zone(
    observed: Seq<Option<Zone>>,
    antennas: Antennas,
    keys: Seq<KeyFinding>,
    slot: KeySlot,
)
    requires
        observed.len() == 6,
        key_search_arbiter::slots_known(keys),
        slot < 6,
    ensures
        ({
            let (end, out) = key_search_arbiter::noted(observed, antennas, keys);
            bus_agrees(out, observed[slot as int], end[slot as int], slot)
        }),
{
    let (seen, found) = key_search_arbiter::note_found(observed, keys);
    let (end, left) = key_search_arbiter::note_left(seen, antennas, keys, NUM_KEY_SLOTS as nat);
    lemma_found_bus(observed, keys, slot);
    lemma_left_bus(seen, antennas, keys, NUM_KEY_SLOTS as nat, slot);
    history::lemma_latest_of_two(
        found,
        left,
        history::published_on(key_search_arbiter::observed_path(slot)),
    );
}

proof fn lemma_found_bus(observed: Seq<Option<Zone>>, keys: Seq<KeyFinding>, slot: KeySlot)
    requires
        observed.len() == 6,
        key_search_arbiter::slots_known(keys),
        slot < 6,
    ensures
        ({
            let (seen, out) = key_search_arbiter::note_found(observed, keys);
            seen.len() == 6 && bus_agrees(out, observed[slot as int], seen[slot as int], slot)
        }),
    decreases keys.len(),
{
    if keys.len() > 0 {
        let rest = keys.drop_last();
        let key = keys[keys.len() - 1];
        assert(key.slot < NUM_KEY_SLOTS);
        assert forall|i: int| 0 <= i < rest.len() implies (#[trigger] rest[i]).slot
            < NUM_KEY_SLOTS by {
            assert(rest[i] == keys[i]);
        }
        lemma_found_bus(observed, rest, slot);
        let out = key_search_arbiter::note_found(observed, rest).1;
        history::lemma_latest_of_push(
            out,
            key_search_arbiter::reports(key.slot, key.zone),
            history::published_on(key_search_arbiter::observed_path(slot)),
        );
        law_slot_signals_are_distinct(key.slot, slot);
    }
}

proof fn lemma_left_bus(
    seen: Seq<Option<Zone>>,
    antennas: Antennas,
    keys: Seq<KeyFinding>,
    n: nat,
    slot: KeySlot,
)
    requires
        seen.len() == 6,
        n <= 6,
        slot < 6,
    ensures
        ({
            let (end, out) = key_search_arbiter::note_left(seen, antennas, keys, n);
            end.len() == 6 && bus_agrees(out, seen[slot as int], end[slot as int], slot)
        }),
    decreases n,
{
    if n > 0 {
        let m = (n - 1) as nat;
        lemma_left_bus(seen, antennas, keys, m, slot);
        let out = key_search_arbiter::note_left(seen, antennas, keys, m).1;
        history::lemma_latest_of_push(
            out,
            key_search_arbiter::reports(m as u8, Zone::OutOfRange),
            history::published_on(key_search_arbiter::observed_path(slot)),
        );
        law_slot_signals_are_distinct(m as u8, slot);
    }
}

/// Of several results that can be shared, the one completed first is.
pub proof fn law_earliest_result_is_shared(
    cache: Seq<(SearchOutcome, u64)>,
    a: Antennas,
    mode: SearchMode,
    k: int,
)
    requires
        0 <= k < cache.len(),
        cache[k].0.antennas_fired == a,
        cache[k].0.mode == mode,
        forall|j: int|
            0 <= j < k ==> (#[trigger] cache[j]).0.antennas_fired != a || cache[j].0.mode != mode,
    ensures
        key_search_arbiter::first_hit(cache, a, mode) == Some(cache[k].0),
    decreases cache.len(),
{
    let rest = cache.drop_last();
    if k < rest.len() {
        assert(rest[k] == cache[k]);
        assert forall|j: int| 0 <= j < k implies (#[trigger] rest[j]).0.antennas_fired != a
            || rest[j].0.mode != mode by {
            assert(rest[j] == cache[j]);
        }
        law_earliest_result_is_shared(rest, a, mode, k);
    } else {
        assert forall|j: int| 0 <= j < rest.len() implies (#[trigger] rest[j]).0.antennas_fired != a
            || rest[j].0.mode != mode by {
            assert(rest[j] == cache[j]);
        }
        lemma_no_hit(rest, a, mode);
    }
}

proof fn lemma_no_hit(cache: Seq<(SearchOutcome, u64)>, a: Antennas, mode: SearchMode)
    requires
        forall|j: int|
            0 <= j < cache.len() ==> (#[trigger] cache[j]).0.antennas_fired != a || cache[j].0.mode
                != mode,
    ensures
        key_search_arbiter::first_hit(cache, a, mode) is None,
    decreases cache.len(),
{
    if cache.len() > 0 {
        let rest = cache.drop_last();
        assert(cache[cache.len() - 1] == cache.last());
        assert forall|j: int| 0 <= j < rest.len() implies (#[trigger] rest[j]).0.antennas_fired != a
            || rest[j].0.mode != mode by {
            assert(rest[j] == cache[j]);
        }
        lemma_no_hit(rest, a, mode);
    }
}

/// A chain of single searches takes as long as its legs, one after the other, each
/// in its own mode.
pub proof fn law_chain_takes_its_legs_in_turn(
    legs: Seq<(Antennas, SearchMode)>,
    mode: SearchMode,
    k: int,
)
    requires
        key_search_laws::plain_legs(legs),
        0 <= k < legs.len(),
    ensures
        key_search::airtimes(Antennas::Sequence(legs), mode).len() == legs.len(),
        key_search::airtimes(Antennas::Sequence(legs), mode)[k] == legs[k].0.airtime(legs[k].1),
{
    lemma_leg_airtimes(legs, k);
}

proof fn lemma_leg_airtimes(legs: Seq<(Antennas, SearchMode)>, k: int)
    requires
        key_search_laws::plain_legs(legs),
    ensures
        key_search::leg_airtimes(legs).len() == legs.len(),
        0 <= k < legs.len() ==> key_search::leg_airtimes(legs)[k] == legs[k].0.airtime(legs[k].1),
    decreases legs.len(),
{
    if legs.len() > 0 {
        let rest = legs.drop_last();
        assert(legs[legs.len() - 1] == legs.last());
        assert forall|i: int| 0 <= i < rest.len() implies (#[trigger] rest[i]).0 !is Sequence by {
            assert(rest[i] == legs[i]);
        }
        lemma_leg_airtimes(rest, k);
        assert(key_search::airtimes(legs.last().0, legs.last().1) == seq![
            legs.last().0.airtime(legs.last().1),
        ]);
    }
}

/// After a search the key of a slot that was not found is out of range if it was
/// last observed where the antennas look, by themselves or in a leg of a chain, and
/// is left where it was observed otherwise.
pub proof fn law_unfound_key_is_out_of_range(
    observed: Seq<Option<Zone>>,
    a: Antennas,
    keys: Seq<KeyFinding>,
    slot: int,
    zone: Zone,
)
    requires
        observed.len() == 6,
        key_search_arbiter::slots_known(keys),
        0 <= slot < 6,
        forall|i: int| 0 <= i < keys.len() ==> (#[trigger] keys[i]).slot != slot,
    ensures
        ({
            let looked = a.coverage().contains(zone) || (a matches Antennas::Sequence(legs)
                && exists|i: int|
                0 <= i < legs.len() && (#[trigger] legs[i]).0.coverage().contains(zone));
            observed[slot] == Some(zone) ==> key_search_arbiter::noted(observed, a, keys).0[slot]
                == if looked {
                Some(Zone::OutOfRange)
            } else {
                Some(zone)
            }
        }),
        observed[slot] is None ==> key_search_arbiter::noted(observed, a, keys).0[slot] is None,
{
    key_search_arbiter::law_unfound_keys(observed, a, keys, slot);
    law_coverage(a, zone);
    if let Antennas::Sequence(legs) = a {
        if exists|i: int| 0 <= i < legs.len() && (#[trigger] legs[i]).0.coverage().contains(zone) {
            assert(key_search::legs_reach(legs, zone));
        }
    }
}

/// At start-up every key is reported out of range, on the signal of its slot.
pub proof fn law_boot_reports_all_keys_away(
    arbiter: KeySearchArbiter,
    boot: Vec<Output>,
    slot: KeySlot,
)
    requires
        call_ensures(KeySearchArbiter::boot, (&arbiter,), boot),
        slot < 6,
    ensures
        Effect::all(boot@).len() == 6,
        Effect::all(boot@)[slot as int] == (Effect::Publish {
            signal: key_search_arbiter::observed_path(slot),
            value: Value::Text("OutOfRange"@),
        }),
{
}

} // verus!
