//! What a search over several antenna sets can see.

use vstd::prelude::*;

use crate::features::key_search;
use crate::features::key_search::{Antennas, KeyFinding, SearchMode, NUM_KEY_SLOTS};
use crate::zone::Zone;

verus! {

/// The key of `slot` is among `keys`, found in `zone`.
pub open spec fn sees(keys: Seq<KeyFinding>, slot: int, zone: Zone) -> bool {
    exists|i: int| 0 <= i < keys.len() && (#[trigger] keys[i]).slot == slot && keys[i].zone == zone
}

/// A leg shows the key of `slot` in `zone`: it covers the zone, and it does not
/// turn the key away.
pub open spec fn shows(
    leg: (Antennas, SearchMode),
    paired: Seq<Option<bool>>,
    slot: int,
    zone: Zone,
) -> bool {
    &&& leg.0.coverage().contains(zone)
    &&& leg.1 == SearchMode::Authenticated ==> paired[slot] != Some(false)
}

/// Some leg shows the key of `slot` in `zone`.
pub open spec fn some_leg_shows(
    legs: Seq<(Antennas, SearchMode)>,
    paired: Seq<Option<bool>>,
    slot: int,
    zone: Zone,
) -> bool {
    exists|i: int| 0 <= i < legs.len() && #[trigger] shows(legs[i], paired, slot, zone)
}

/// No leg is a chain itself.
pub open spec fn plain_legs(legs: Seq<(Antennas, SearchMode)>) -> bool {
    forall|i: int| 0 <= i < legs.len() ==> (#[trigger] legs[i]).0 !is Sequence
}

/// A single search sees a key where it is placed, if it covers that zone and does
/// not turn the key away, and sees nothing else.
pub proof fn law_set_sees_placed_keys(
    a: Antennas,
    mode: SearchMode,
    placed: Seq<Option<Zone>>,
    paired: Seq<Option<bool>>,
    slot: int,
    zone: Zone,
)
    requires
        a !is Sequence,
    ensures
        sees(key_search::scan(a, mode, placed, paired), slot, zone) <==> {
            &&& 0 <= slot < NUM_KEY_SLOTS
            &&& placed[slot] == Some(zone)
            &&& shows((a, mode), paired, slot, zone)
        },
{
    let keys = key_search::scan(a, mode, placed, paired);
    key_search::law_search_finds_exactly_the_covered_keys(a, mode, placed, paired);
    if sees(keys, slot, zone) {
        let i = choose|i: int|
            0 <= i < keys.len() && (#[trigger] keys[i]).slot == slot && keys[i].zone == zone;
        assert(key_search::finds(a.coverage(), mode, placed, paired, keys[i].slot as int));
    }
    if 0 <= slot < NUM_KEY_SLOTS && placed[slot] == Some(zone) && shows(
        (a, mode),
        paired,
        slot,
        zone,
    ) {
        assert(key_search::finds(a.coverage(), mode, placed, paired, slot));
        let i = choose|i: int| 0 <= i < keys.len() && (#[trigger] keys[i]).slot == slot;
        assert(keys[i].slot == slot && keys[i].zone == zone);
    }
}

/// A chain of single searches sees exactly what one of its legs sees.
pub proof fn law_chain_sees_what_a_leg_sees(
    legs: Seq<(Antennas, SearchMode)>,
    mode: SearchMode,
    placed: Seq<Option<Zone>>,
    paired: Seq<Option<bool>>,
    slot: int,
    zone: Zone,
)
    requires
        plain_legs(legs),
    ensures
        sees(key_search::scan(Antennas::Sequence(legs), mode, placed, paired), slot, zone) <==> {
            &&& 0 <= slot < NUM_KEY_SLOTS
            &&& placed[slot] == Some(zone)
            &&& some_leg_shows(legs, paired, slot, zone)
        },
{
    lemma_legs_see(legs, placed, paired, slot, zone);
    assert(key_search::scan(Antennas::Sequence(legs), mode, placed, paired)
        == key_search::scan_legs(legs, placed, paired));
}

proof fn lemma_legs_see(
    legs: Seq<(Antennas, SearchMode)>,
    placed: Seq<Option<Zone>>,
    paired: Seq<Option<bool>>,
    slot: int,
    zone: Zone,
)
    requires
        plain_legs(legs),
    ensures
        sees(key_search::scan_legs(legs, placed, paired), slot, zone) <==> {
            &&& 0 <= slot < NUM_KEY_SLOTS
            &&& placed[slot] == Some(zone)
            &&& some_leg_shows(legs, paired, slot, zone)
        },
    decreases legs.len(),
{
    if legs.len() > 0 {
        let rest = legs.drop_last();
        let leg = legs.last();
        assert(legs[legs.len() - 1] == leg);
        assert forall|i: int| 0 <= i < rest.len() implies (#[trigger] rest[i]).0 !is Sequence by {
            assert(rest[i] == legs[i]);
        }
        lemma_legs_see(rest, placed, paired, slot, zone);
        law_set_sees_placed_keys(leg.0, leg.1, placed, paired, slot, zone);
        let first = key_search::scan_legs(rest, placed, paired);
        let second = key_search::scan(leg.0, leg.1, placed, paired);
        lemma_sees_in_sum(first, second, slot, zone);
        assert(some_leg_shows(legs, paired, slot, zone) <==> some_leg_shows(
            rest,
            paired,
            slot,
            zone,
        ) || shows(leg, paired, slot, zone)) by {
            if some_leg_shows(legs, paired, slot, zone) {
                let i = choose|i: int|
                    0 <= i < legs.len() && #[trigger] shows(legs[i], paired, slot, zone);
                if i < rest.len() {
                    assert(shows(rest[i], paired, slot, zone));
                }
            }
            if some_leg_shows(rest, paired, slot, zone) {
                let i = choose|i: int|
                    0 <= i < rest.len() && #[trigger] shows(rest[i], paired, slot, zone);
                assert(shows(legs[i], paired, slot, zone));
            }
        }
        assert((leg.0, leg.1) == leg);
    }
}

proof fn lemma_sees_in_sum(a: Seq<KeyFinding>, b: Seq<KeyFinding>, slot: int, zone: Zone)
    ensures
        sees(a + b, slot, zone) <==> sees(a, slot, zone) || sees(b, slot, zone),
{
    let all = a + b;
    if sees(all, slot, zone) {
        let i = choose|i: int|
            0 <= i < all.len() && (#[trigger] all[i]).slot == slot && all[i].zone == zone;
        if i < a.len() {
            assert(a[i].slot == slot && a[i].zone == zone);
        } else {
            assert(b[i - a.len()].slot == slot && b[i - a.len()].zone == zone);
        }
    }
    if sees(a, slot, zone) {
        let i = choose|i: int|
            0 <= i < a.len() && (#[trigger] a[i]).slot == slot && a[i].zone == zone;
        assert(all[i].slot == slot && all[i].zone == zone);
    }
    if sees(b, slot, zone) {
        let i = choose|i: int|
            0 <= i < b.len() && (#[trigger] b[i]).slot == slot && b[i].zone == zone;
        assert(all[a.len() + i].slot == slot && all[a.len() + i].zone == zone);
    }
}

} // verus!
