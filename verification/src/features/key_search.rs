//! Searches for keys: what an antenna set covers, and what a search finds.

use vstd::prelude::*;

use crate::zone::Zone;

verus! {

/// Identifier of a key: slots 0 to 3 are fobs, slots 4 and 5 are phones.
pub type KeySlot = u8;

/// Number of key slots.
pub const NUM_KEY_SLOTS: usize = 6;

/// Side of the vehicle.
#[derive(Debug, Clone, Copy, PartialEq, Eq, Hash, Structural)]
pub enum Side {
    Left,
    Right,
}

/// Identifies one physical door.
#[derive(Debug, Clone, Copy, PartialEq, Eq, Hash, Structural)]
pub struct DoorRef {
    /// 1 or 2.
    pub row: u8,
    pub side: Side,
}

/// How a search looks for keys.
#[derive(Debug, Clone, Copy, PartialEq, Eq, Structural)]
pub enum SearchMode {
    /// LF ping: the key only has to acknowledge.
    Presence,
    /// Challenge and response: the key has to be paired.
    Authenticated,
}

/// Whether a search may share the result of one just completed.
#[derive(Debug, Clone, Copy, PartialEq, Eq, Structural)]
pub enum Coalescing {
    /// Take a result of the same search that is young enough.
    Allowed,
    /// Always run a fresh search.
    Disallowed,
}

/// Physical antenna group fired by the LF subsystem.
#[derive(Debug)]
pub enum AntennaSet {
    /// Cabin antennas.
    Cabin,
    /// Antenna at the key cylinder.
    Cylinder,
    /// All corner, handle, hood and outer trunk antennas.
    AllApproach,
    /// The antenna of one handle.
    SingleHandle(DoorRef),
    /// Antenna outside the trunk.
    TrunkOutside,
    /// Antenna in the cargo area.
    TrunkInside,
    /// Chain of searches, one after the other.
    Sequence(Vec<(AntennaSet, SearchMode)>),
}

/// What an [`AntennaSet`] stands for.
pub enum Antennas {
    Cabin,
    Cylinder,
    AllApproach,
    SingleHandle(DoorRef),
    TrunkOutside,
    TrunkInside,
    Sequence(Seq<(Antennas, SearchMode)>),
}

/// What an antenna set stands for.
pub open spec fn antennas_of(a: AntennaSet) -> Antennas
    decreases a,
{
    match a {
        AntennaSet::Cabin => Antennas::Cabin,
        AntennaSet::Cylinder => Antennas::Cylinder,
        AntennaSet::AllApproach => Antennas::AllApproach,
        AntennaSet::SingleHandle(door) => Antennas::SingleHandle(door),
        AntennaSet::TrunkOutside => Antennas::TrunkOutside,
        AntennaSet::TrunkInside => Antennas::TrunkInside,
        AntennaSet::Sequence(legs) => Antennas::Sequence(legs_of(legs@)),
    }
}

/// What the legs of a chain stand for.
pub open spec fn legs_of(legs: Seq<(AntennaSet, SearchMode)>) -> Seq<(Antennas, SearchMode)>
    decreases legs,
{
    if legs.len() == 0 {
        Seq::empty()
    } else {
        legs_of(legs.drop_last()).push((antennas_of(legs.last().0), legs.last().1))
    }
}

impl View for AntennaSet {
    type V = Antennas;

    open spec fn view(&self) -> Antennas {
        antennas_of(*self)
    }
}

/// The legs of a chain stand for themselves, one by one.
pub proof fn lemma_legs(legs: Seq<(AntennaSet, SearchMode)>)
    ensures
        legs_of(legs).len() == legs.len(),
        forall|i: int|
            0 <= i < legs.len() ==> #[trigger] legs_of(legs)[i] == (
                antennas_of(legs[i].0),
                legs[i].1,
            ),
    decreases legs.len(),
{
    if legs.len() > 0 {
        let rest = legs.drop_last();
        lemma_legs(rest);
        assert forall|i: int| 0 <= i < legs.len() implies #[trigger] legs_of(legs)[i] == (
            antennas_of(legs[i].0),
            legs[i].1,
        ) by {
            if i < rest.len() {
                assert(legs_of(rest)[i] == (antennas_of(rest[i].0), rest[i].1));
                assert(rest[i] == legs[i]);
            }
        }
    }
}

impl AntennaSet {
    /// True iff both sets fire the same antennas in the same way.
    pub fn same_as(&self, other: &AntennaSet) -> (r: bool)
        ensures
            r == (self@ == other@),
        decreases self,
    {
        match (self, other) {
            (AntennaSet::Cabin, AntennaSet::Cabin) => true,
            (AntennaSet::Cylinder, AntennaSet::Cylinder) => true,
            (AntennaSet::AllApproach, AntennaSet::AllApproach) => true,
            (AntennaSet::SingleHandle(a), AntennaSet::SingleHandle(b)) => *a == *b,
            (AntennaSet::TrunkOutside, AntennaSet::TrunkOutside) => true,
            (AntennaSet::TrunkInside, AntennaSet::TrunkInside) => true,
            (AntennaSet::Sequence(a), AntennaSet::Sequence(b)) => {
                proof {
                    lemma_legs(a@);
                    lemma_legs(b@);
                }
                if a.len() != b.len() {
                    return false;
                }
                let mut i: usize = 0;
                while i < a.len()
                    invariant
                        i <= a@.len(),
                        a@.len() == b@.len(),
                        *self == AntennaSet::Sequence(*a),
                        *other == AntennaSet::Sequence(*b),
                        legs_of(a@).len() == a@.len(),
                        legs_of(b@).len() == b@.len(),
                        forall|k: int|
                            0 <= k < a@.len() ==> #[trigger] legs_of(a@)[k] == (
                                antennas_of(a@[k].0),
                                a@[k].1,
                            ),
                        forall|k: int|
                            0 <= k < b@.len() ==> #[trigger] legs_of(b@)[k] == (
                                antennas_of(b@[k].0),
                                b@[k].1,
                            ),
                        forall|k: int| 0 <= k < i ==> legs_of(a@)[k] == legs_of(b@)[k],
                    decreases a@.len() - i,
                {
                    proof {
                        let leg = a@[i as int];
                        assert(decreases_to!(*self => self->Sequence_0));
                        assert(decreases_to!(*a => a@));
                        assert(decreases_to!(a@ => a@[i as int]));
                        assert(decreases_to!(leg => leg.0));
                    }
                    if !(a[i].1 == b[i].1 && a[i].0.same_as(&b[i].0)) {
                        assert(legs_of(a@)[i as int] != legs_of(b@)[i as int]);
                        return false;
                    }
                    i += 1;
                }
                assert(legs_of(a@) =~= legs_of(b@));
                true
            },
            _ => false,
        }
    }
}

impl Clone for AntennaSet {
    fn clone(&self) -> (r: Self)
        ensures
            r@ == self@,
        decreases self,
    {
        match self {
            AntennaSet::Cabin => AntennaSet::Cabin,
            AntennaSet::Cylinder => AntennaSet::Cylinder,
            AntennaSet::AllApproach => AntennaSet::AllApproach,
            AntennaSet::SingleHandle(door) => AntennaSet::SingleHandle(*door),
            AntennaSet::TrunkOutside => AntennaSet::TrunkOutside,
            AntennaSet::TrunkInside => AntennaSet::TrunkInside,
            AntennaSet::Sequence(legs) => {
                let mut copy: Vec<(AntennaSet, SearchMode)> = Vec::new();
                let mut i: usize = 0;
                while i < legs.len()
                    invariant
                        i <= legs@.len(),
                        copy@.len() == i,
                        *self == AntennaSet::Sequence(*legs),
                        forall|k: int|
                            0 <= k < i ==> antennas_of((#[trigger] copy@[k]).0) == antennas_of(
                                legs@[k].0,
                            ) && copy@[k].1 == legs@[k].1,
                    decreases legs@.len() - i,
                {
                    proof {
                        let leg = legs@[i as int];
                        assert(decreases_to!(*self => self->Sequence_0));
                        assert(decreases_to!(*legs => legs@));
                        assert(decreases_to!(legs@ => legs@[i as int]));
                        assert(decreases_to!(leg => leg.0));
                    }
                    copy.push((legs[i].0.clone(), legs[i].1));
                    i += 1;
                }
                proof {
                    lemma_legs(legs@);
                    lemma_legs(copy@);
                    assert(legs_of(copy@) =~= legs_of(legs@));
                }
                AntennaSet::Sequence(copy)
            },
        }
    }
}

/// A key found by a search.
#[derive(Debug, Clone, Copy, PartialEq, Eq, Structural)]
pub struct KeyFinding {
    pub slot: KeySlot,
    pub zone: Zone,
    pub rssi: i8,
}

/// A leg of a chain reaches the zone by itself.
pub open spec fn legs_reach(legs: Seq<(Antennas, SearchMode)>, zone: Zone) -> bool {
    exists|i: int| 0 <= i < legs.len() && (#[trigger] legs[i]).0.coverage().contains(zone)
}

impl Antennas {
    /// The zones covered by a single antenna set. A chain covers nothing itself:
    /// its legs are run one by one.
    pub open spec fn coverage(self) -> Seq<Zone> {
        match self {
            Antennas::Cabin => seq![Zone::Cabin],
            Antennas::Cylinder => seq![Zone::KeyCylinder],
            Antennas::AllApproach => seq![
                Zone::Approach,
                Zone::LeftFront,
                Zone::RightFront,
                Zone::Hood,
                Zone::Trunk,
            ],
            Antennas::SingleHandle(door) => if door.row == 1 && door.side == Side::Left {
                seq![Zone::LeftFront]
            } else if door.row == 1 && door.side == Side::Right {
                seq![Zone::RightFront]
            } else {
                Seq::empty()
            },
            Antennas::TrunkOutside => seq![Zone::Trunk],
            Antennas::TrunkInside => seq![Zone::TrunkInside],
            Antennas::Sequence(_) => Seq::empty(),
        }
    }

    /// Some leg of a chain, or the set itself, covers `zone`.
    pub open spec fn reaches(self, zone: Zone) -> bool {
        match self {
            Antennas::Sequence(legs) => legs_reach(legs, zone),
            _ => self.coverage().contains(zone),
        }
    }

    /// Simulated airtime of a single antenna set, in milliseconds.
    pub open spec fn airtime(self, mode: SearchMode) -> u64 {
        match (self, mode) {
            (Antennas::AllApproach, SearchMode::Authenticated) => 150,
            (Antennas::Cabin, SearchMode::Authenticated) => 100,
            (Antennas::SingleHandle(_), SearchMode::Authenticated) => 100,
            (Antennas::TrunkOutside, SearchMode::Authenticated) => 100,
            (Antennas::TrunkInside, SearchMode::Authenticated) => 100,
            _ => 50,
        }
    }
}

/// Simulated airtime of a single antenna set, in milliseconds.
pub fn latency(antennas: &AntennaSet, mode: SearchMode) -> (r: u64)
    ensures
        r == antennas@.airtime(mode),
{
    match (antennas, mode) {
        (AntennaSet::AllApproach, SearchMode::Authenticated) => 150,
        (AntennaSet::Cabin, SearchMode::Authenticated) => 100,
        (AntennaSet::SingleHandle(_), SearchMode::Authenticated) => 100,
        (AntennaSet::TrunkOutside, SearchMode::Authenticated) => 100,
        (AntennaSet::TrunkInside, SearchMode::Authenticated) => 100,
        _ => 50,
    }
}

/// The zones that an antenna set covers.
pub fn coverage_zones(antennas: &AntennaSet) -> (r: Vec<Zone>)
    ensures
        r@ == antennas@.coverage(),
{
    match antennas {
        AntennaSet::Cabin => vec![Zone::Cabin],
        AntennaSet::Cylinder => vec![Zone::KeyCylinder],
        AntennaSet::AllApproach => vec![
            Zone::Approach,
            Zone::LeftFront,
            Zone::RightFront,
            Zone::Hood,
            Zone::Trunk,
        ],
        AntennaSet::SingleHandle(door) => {
            if door.row == 1 && door.side == Side::Left {
                vec![Zone::LeftFront]
            } else if door.row == 1 && door.side == Side::Right {
                vec![Zone::RightFront]
            } else {
                Vec::new()
            }
        },
        AntennaSet::TrunkOutside => vec![Zone::Trunk],
        AntennaSet::TrunkInside => vec![Zone::TrunkInside],
        AntennaSet::Sequence(_) => Vec::new(),
    }
}

/// True iff `zone` is in the list.
pub fn has_zone(zones: &Vec<Zone>, zone: Zone) -> (r: bool)
    ensures
        r == zones@.contains(zone),
{
    let mut i: usize = 0;
    while i < zones.len()
        invariant
            i <= zones@.len(),
            forall|j: int| 0 <= j < i ==> zones@[j] != zone,
        decreases zones@.len() - i,
    {
        if zones[i] == zone {
            return true;
        }
        i += 1;
    }
    false
}

/// Field strength reported for a key in a zone.
pub open spec fn strength(z: Zone) -> int {
    match z {
        Zone::Cabin | Zone::TrunkInside => -45,
        Zone::LeftFront | Zone::RightFront | Zone::Hood | Zone::Trunk => -55,
        Zone::Approach => -75,
        _ => -127,
    }
}

/// Field strength reported for a key in a zone: strongest close by, weakest on
/// approach.
pub fn rssi_for_zone(z: Zone) -> (r: i8)
    ensures
        r == strength(z),
{
    match z {
        Zone::Cabin | Zone::TrunkInside => -45,
        Zone::LeftFront | Zone::RightFront | Zone::Hood | Zone::Trunk => -55,
        Zone::Approach => -75,
        _ => -127,
    }
}

/// A single search in `mode` with antennas that cover `zones` finds the key in
/// `slot`. A key whose pairing is not known counts as paired.
pub open spec fn finds(
    zones: Seq<Zone>,
    mode: SearchMode,
    placed: Seq<Option<Zone>>,
    paired: Seq<Option<bool>>,
    slot: int,
) -> bool {
    &&& placed[slot] matches Some(z) && zones.contains(z)
    &&& mode == SearchMode::Authenticated ==> paired[slot] != Some(false)
}

/// What a single search finds in the first `n` slots.
pub open spec fn found_in(
    zones: Seq<Zone>,
    mode: SearchMode,
    placed: Seq<Option<Zone>>,
    paired: Seq<Option<bool>>,
    n: nat,
) -> Seq<KeyFinding>
    decreases n,
{
    if n == 0 {
        Seq::empty()
    } else {
        let slot = n - 1;
        let rest = found_in(zones, mode, placed, paired, slot as nat);
        if finds(zones, mode, placed, paired, slot) {
            let zone = placed[slot]->0;
            rest.push(KeyFinding { slot: slot as u8, zone, rssi: strength(zone) as i8 })
        } else {
            rest
        }
    }
}

/// What a search finds: a chain finds what its legs find, one after the other,
/// each in its own mode.
pub open spec fn scan(
    a: Antennas,
    mode: SearchMode,
    placed: Seq<Option<Zone>>,
    paired: Seq<Option<bool>>,
) -> Seq<KeyFinding>
    decreases a,
{
    match a {
        Antennas::Sequence(legs) => scan_legs(legs, placed, paired),
        _ => found_in(a.coverage(), mode, placed, paired, NUM_KEY_SLOTS as nat),
    }
}

/// What the legs of a chain find, one after the other.
pub open spec fn scan_legs(
    legs: Seq<(Antennas, SearchMode)>,
    placed: Seq<Option<Zone>>,
    paired: Seq<Option<bool>>,
) -> Seq<KeyFinding>
    decreases legs,
{
    if legs.len() == 0 {
        Seq::empty()
    } else {
        scan_legs(legs.drop_last(), placed, paired) + scan(
            legs.last().0,
            legs.last().1,
            placed,
            paired,
        )
    }
}

/// The airtimes of a search, leg by leg.
pub open spec fn airtimes(a: Antennas, mode: SearchMode) -> Seq<u64>
    decreases a,
{
    match a {
        Antennas::Sequence(legs) => leg_airtimes(legs),
        _ => seq![a.airtime(mode)],
    }
}

/// The airtimes of the legs of a chain.
pub open spec fn leg_airtimes(legs: Seq<(Antennas, SearchMode)>) -> Seq<u64>
    decreases legs,
{
    if legs.len() == 0 {
        Seq::empty()
    } else {
        leg_airtimes(legs.drop_last()) + airtimes(legs.last().0, legs.last().1)
    }
}

/// What came of a search.
pub struct SearchOutcome {
    pub keys_found: Seq<KeyFinding>,
    pub antennas_fired: Antennas,
    pub mode: SearchMode,
    pub took: u64,
}

/// Result of a search.
#[derive(Debug)]
pub struct KeySearchResult {
    pub keys_found: Vec<KeyFinding>,
    pub antennas_fired: AntennaSet,
    pub mode: SearchMode,
    /// How long the search took, in milliseconds.
    pub took: u64,
}

impl View for KeySearchResult {
    type V = SearchOutcome;

    open spec fn view(&self) -> SearchOutcome {
        SearchOutcome {
            keys_found: self.keys_found@,
            antennas_fired: self.antennas_fired@,
            mode: self.mode,
            took: self.took,
        }
    }
}

fn copy_findings(keys: &Vec<KeyFinding>) -> (r: Vec<KeyFinding>)
    ensures
        r@ == keys@,
{
    let mut r: Vec<KeyFinding> = Vec::new();
    let mut i: usize = 0;
    while i < keys.len()
        invariant
            i <= keys@.len(),
            r@ == keys@.take(i as int),
        decreases keys@.len() - i,
    {
        r.push(keys[i]);
        i += 1;
    }
    assert(keys@.take(keys@.len() as int) =~= keys@);
    r
}

impl Clone for KeySearchResult {
    fn clone(&self) -> (r: Self)
        ensures
            r@ == self@,
    {
        KeySearchResult {
            keys_found: copy_findings(&self.keys_found),
            antennas_fired: self.antennas_fired.clone(),
            mode: self.mode,
            took: self.took,
        }
    }
}

/// Runs a search over where the keys are placed and which of them are paired.
pub fn run_scan(
    antennas: &AntennaSet,
    mode: SearchMode,
    placed: &[Option<Zone>; NUM_KEY_SLOTS],
    paired: &[Option<bool>; NUM_KEY_SLOTS],
) -> (r: Vec<KeyFinding>)
    ensures
        r@ == scan(antennas@, mode, placed@, paired@),
    decreases antennas,
{
    if let AntennaSet::Sequence(legs) = antennas {
        let mut combined: Vec<KeyFinding> = Vec::new();
        let mut i: usize = 0;
        proof {
            lemma_legs(legs@);
            assert(legs_of(legs@).take(0) =~= Seq::<(Antennas, SearchMode)>::empty());
        }
        while i < legs.len()
            invariant
                i <= legs@.len(),
                *antennas == AntennaSet::Sequence(*legs),
                legs_of(legs@).len() == legs@.len(),
                forall|k: int|
                    0 <= k < legs@.len() ==> #[trigger] legs_of(legs@)[k] == (
                        antennas_of(legs@[k].0),
                        legs@[k].1,
                    ),
                combined@ == scan_legs(legs_of(legs@).take(i as int), placed@, paired@),
            decreases legs@.len() - i,
        {
            proof {
                let leg = legs@[i as int];
                assert(decreases_to!(*antennas => antennas->Sequence_0));
                assert(decreases_to!(*legs => legs@));
                assert(decreases_to!(legs@ => legs@[i as int]));
                assert(decreases_to!(leg => leg.0));
                let longer = legs_of(legs@).take(i + 1);
                assert(longer.drop_last() =~= legs_of(legs@).take(i as int));
                assert(longer.last() == legs_of(legs@)[i as int]);
            }
            let mut found = run_scan(&legs[i].0, legs[i].1, placed, paired);
            combined.append(&mut found);
            i += 1;
        }
        assert(legs_of(legs@).take(legs@.len() as int) =~= legs_of(legs@));
        return combined;
    }
    let coverage = coverage_zones(antennas);
    let mut found: Vec<KeyFinding> = Vec::new();
    let mut slot: usize = 0;
    while slot < NUM_KEY_SLOTS
        invariant
            slot <= NUM_KEY_SLOTS,
            coverage@ == antennas@.coverage(),
            found@ == found_in(antennas@.coverage(), mode, placed@, paired@, slot as nat),
        decreases NUM_KEY_SLOTS - slot,
    {
        if let Some(zone) = placed[slot] {
            let admitted = match mode {
                SearchMode::Presence => true,
                SearchMode::Authenticated => match paired[slot] {
                    Some(is_paired) => is_paired,
                    None => true,
                },
            };
            if has_zone(&coverage, zone) && admitted {
                found.push(
                    KeyFinding { slot: slot as u8, zone, rssi: rssi_for_zone(zone) },
                );
            }
        }
        slot += 1;
    }
    found
}

/// The airtimes of a search in milliseconds, leg by leg.
pub fn scan_airtimes(antennas: &AntennaSet, mode: SearchMode) -> (r: Vec<u64>)
    ensures
        r@ == airtimes(antennas@, mode),
    decreases antennas,
{
    if let AntennaSet::Sequence(legs) = antennas {
        let mut combined: Vec<u64> = Vec::new();
        let mut i: usize = 0;
        proof {
            lemma_legs(legs@);
            assert(legs_of(legs@).take(0) =~= Seq::<(Antennas, SearchMode)>::empty());
        }
        while i < legs.len()
            invariant
                i <= legs@.len(),
                *antennas == AntennaSet::Sequence(*legs),
                legs_of(legs@).len() == legs@.len(),
                forall|k: int|
                    0 <= k < legs@.len() ==> #[trigger] legs_of(legs@)[k] == (
                        antennas_of(legs@[k].0),
                        legs@[k].1,
                    ),
                combined@ == leg_airtimes(legs_of(legs@).take(i as int)),
            decreases legs@.len() - i,
        {
            proof {
                let leg = legs@[i as int];
                assert(decreases_to!(*antennas => antennas->Sequence_0));
                assert(decreases_to!(*legs => legs@));
                assert(decreases_to!(legs@ => legs@[i as int]));
                assert(decreases_to!(leg => leg.0));
                let longer = legs_of(legs@).take(i + 1);
                assert(longer.drop_last() =~= legs_of(legs@).take(i as int));
                assert(longer.last() == legs_of(legs@)[i as int]);
            }
            let mut times = scan_airtimes(&legs[i].0, legs[i].1);
            combined.append(&mut times);
            i += 1;
        }
        assert(legs_of(legs@).take(legs@.len() as int) =~= legs_of(legs@));
        return combined;
    }
    vec![latency(antennas, mode)]
}

/// A search with a single antenna set finds a key exactly where the antennas
/// cover its zone and, in an authenticated search, the key is not known to be
/// unpaired. Findings are in the order of the slots.
pub proof fn law_search_finds_exactly_the_covered_keys(
    a: Antennas,
    mode: SearchMode,
    placed: Seq<Option<Zone>>,
    paired: Seq<Option<bool>>,
)
    requires
        a !is Sequence,
    ensures
        forall|i: int|
            #![trigger scan(a, mode, placed, paired)[i]]
            0 <= i < scan(a, mode, placed, paired).len() ==> ({
                let key = scan(a, mode, placed, paired)[i];
                &&& key.slot < NUM_KEY_SLOTS
                &&& finds(a.coverage(), mode, placed, paired, key.slot as int)
                &&& placed[key.slot as int] == Some(key.zone)
                &&& key.rssi == strength(key.zone)
            }),
        forall|slot: int|
            0 <= slot < NUM_KEY_SLOTS && #[trigger] finds(a.coverage(), mode, placed, paired, slot)
                ==> exists|i: int|
                0 <= i < scan(a, mode, placed, paired).len() && (#[trigger] scan(
                    a,
                    mode,
                    placed,
                    paired,
                )[i]).slot == slot,
        forall|i: int, j: int|
            0 <= i < j < scan(a, mode, placed, paired).len() ==> (#[trigger] scan(
                a,
                mode,
                placed,
                paired,
            )[i]).slot < (#[trigger] scan(a, mode, placed, paired)[j]).slot,
{
    lemma_found(a.coverage(), mode, placed, paired, NUM_KEY_SLOTS as nat);
}

proof fn lemma_found(
    zones: Seq<Zone>,
    mode: SearchMode,
    placed: Seq<Option<Zone>>,
    paired: Seq<Option<bool>>,
    n: nat,
)
    requires
        n <= NUM_KEY_SLOTS,
    ensures
        forall|i: int|
            #![trigger found_in(zones, mode, placed, paired, n)[i]]
            0 <= i < found_in(zones, mode, placed, paired, n).len() ==> ({
                let key = found_in(zones, mode, placed, paired, n)[i];
                &&& key.slot < n
                &&& finds(zones, mode, placed, paired, key.slot as int)
                &&& placed[key.slot as int] == Some(key.zone)
                &&& key.rssi == strength(key.zone)
            }),
        forall|slot: int|
            0 <= slot < n && #[trigger] finds(zones, mode, placed, paired, slot) ==> exists|i: int|
                0 <= i < found_in(zones, mode, placed, paired, n).len() && (#[trigger] found_in(
                    zones,
                    mode,
                    placed,
                    paired,
                    n,
                )[i]).slot == slot,
        forall|i: int, j: int|
            0 <= i < j < found_in(zones, mode, placed, paired, n).len() ==> (#[trigger] found_in(
                zones,
                mode,
                placed,
                paired,
                n,
            )[i]).slot < (#[trigger] found_in(zones, mode, placed, paired, n)[j]).slot,
    decreases n,
{
    if n > 0 {
        let m = (n - 1) as nat;
        lemma_found(zones, mode, placed, paired, m);
        let rest = found_in(zones, mode, placed, paired, m);
        let all = found_in(zones, mode, placed, paired, n);
        assert forall|slot: int|
            0 <= slot < n && #[trigger] finds(zones, mode, placed, paired, slot) implies exists|i: int|
            0 <= i < all.len() && (#[trigger] all[i]).slot == slot by {
            if slot < m {
                let i = choose|i: int| 0 <= i < rest.len() && (#[trigger] rest[i]).slot == slot;
                assert(all[i] == rest[i]);
            } else {
                assert(all[rest.len() as int].slot == slot);
            }
        }
        assert forall|i: int| 0 <= i < all.len() implies ({
            let key = #[trigger] all[i];
            &&& key.slot < n
            &&& finds(zones, mode, placed, paired, key.slot as int)
            &&& placed[key.slot as int] == Some(key.zone)
            &&& key.rssi == strength(key.zone)
        }) by {
            if i < rest.len() {
                assert(all[i] == rest[i]);
            }
        }
        assert forall|i: int, j: int| 0 <= i < j < all.len() implies (#[trigger] all[i]).slot < (
        #[trigger] all[j]).slot by {
            assert(all[i] == rest[i]);
            if j < rest.len() {
                assert(all[j] == rest[j]);
            }
        }
    }
}

/// Every leg of a chain, down to the single sets, is searched in `mode`.
pub open spec fn all_legs_in(a: Antennas, mode: SearchMode) -> bool
    decreases a,
{
    match a {
        Antennas::Sequence(legs) => legs_all_in(legs, mode),
        _ => true,
    }
}

/// Every one of the legs is searched in `mode`.
pub open spec fn legs_all_in(legs: Seq<(Antennas, SearchMode)>, mode: SearchMode) -> bool
    decreases legs,
{
    legs.len() == 0 || (legs_all_in(legs.drop_last(), mode) && legs.last().1 == mode && all_legs_in(
        legs.last().0,
        mode,
    ))
}

/// An authenticated search never reports a key that is known to be unpaired, a
/// chain of authenticated legs included.
pub proof fn law_authenticated_search_rejects_unpaired(
    a: Antennas,
    placed: Seq<Option<Zone>>,
    paired: Seq<Option<bool>>,
)
    requires
        all_legs_in(a, SearchMode::Authenticated),
    ensures
        forall|i: int|
            #![trigger scan(a, SearchMode::Authenticated, placed, paired)[i]]
            0 <= i < scan(a, SearchMode::Authenticated, placed, paired).len() ==> paired[scan(
                a,
                SearchMode::Authenticated,
                placed,
                paired,
            )[i].slot as int] != Some(false),
    decreases a, 1int,
{
    match a {
        Antennas::Sequence(legs) => lemma_legs_reject_unpaired(legs, placed, paired),
        _ => lemma_found(
            a.coverage(),
            SearchMode::Authenticated,
            placed,
            paired,
            NUM_KEY_SLOTS as nat,
        ),
    }
}

proof fn lemma_legs_reject_unpaired(
    legs: Seq<(Antennas, SearchMode)>,
    placed: Seq<Option<Zone>>,
    paired: Seq<Option<bool>>,
)
    requires
        legs_all_in(legs, SearchMode::Authenticated),
    ensures
        forall|i: int|
            #![trigger scan_legs(legs, placed, paired)[i]]
            0 <= i < scan_legs(legs, placed, paired).len() ==> paired[scan_legs(
                legs,
                placed,
                paired,
            )[i].slot as int] != Some(false),
    decreases legs, 0int,
{
    if legs.len() > 0 {
        let first = scan_legs(legs.drop_last(), placed, paired);
        let last = scan(legs.last().0, legs.last().1, placed, paired);
        lemma_legs_reject_unpaired(legs.drop_last(), placed, paired);
        law_authenticated_search_rejects_unpaired(legs.last().0, placed, paired);
        let all = scan_legs(legs, placed, paired);
        assert forall|i: int| 0 <= i < all.len() implies paired[(#[trigger] all[i]).slot as int]
            != Some(false) by {
            if i < first.len() {
                assert(all[i] == first[i]);
            } else {
                assert(all[i] == last[i - first.len()]);
            }
        }
    }
}

/// Every slot that a search reports is one of the key slots.
pub proof fn lemma_scan_slots(
    a: Antennas,
    mode: SearchMode,
    placed: Seq<Option<Zone>>,
    paired: Seq<Option<bool>>,
)
    ensures
        forall|i: int|
            0 <= i < scan(a, mode, placed, paired).len() ==> (#[trigger] scan(
                a,
                mode,
                placed,
                paired,
            )[i]).slot < NUM_KEY_SLOTS,
    decreases a, 1int,
{
    match a {
        Antennas::Sequence(legs) => lemma_leg_slots(legs, placed, paired),
        _ => lemma_found(a.coverage(), mode, placed, paired, NUM_KEY_SLOTS as nat),
    }
}

proof fn lemma_leg_slots(
    legs: Seq<(Antennas, SearchMode)>,
    placed: Seq<Option<Zone>>,
    paired: Seq<Option<bool>>,
)
    ensures
        forall|i: int|
            0 <= i < scan_legs(legs, placed, paired).len() ==> (#[trigger] scan_legs(
                legs,
                placed,
                paired,
            )[i]).slot < NUM_KEY_SLOTS,
    decreases legs, 0int,
{
    if legs.len() > 0 {
        let first = scan_legs(legs.drop_last(), placed, paired);
        let last = scan(legs.last().0, legs.last().1, placed, paired);
        lemma_leg_slots(legs.drop_last(), placed, paired);
        lemma_scan_slots(legs.last().0, legs.last().1, placed, paired);
        let all = scan_legs(legs, placed, paired);
        assert forall|i: int| 0 <= i < all.len() implies (#[trigger] all[i]).slot < NUM_KEY_SLOTS by {
            if i < first.len() {
                assert(all[i] == first[i]);
            } else {
                assert(all[i] == last[i - first.len()]);
            }
        }
    }
}

} // verus!
