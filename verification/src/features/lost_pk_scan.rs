//! Lost-key scan: warns when the last door closes while the vehicle runs and no
//! key is found anywhere on it.

use vstd::prelude::*;

use crate::features::doors;
use crate::features::doors::{any_set, no_flags};
use crate::features::key_search;
use crate::features::key_search::{
    AntennaSet, Antennas, Coalescing, KeyFinding, KeySearchResult, SearchMode, NUM_KEY_SLOTS,
};
use crate::features::key_search_laws;
use crate::features::power::is_power_on;
use crate::ipc_message::{SignalValue, Value};
use crate::signal_bus::{no_outputs, publish_bool, Effect, Output, VssPath};
use crate::zone::Zone;

verus! {

/// Open-state signals of the doors.
pub const DOOR_OPEN_SIGNALS: [VssPath; 4] = [
    "Vehicle.Cabin.Door.Row1.Left.IsOpen",
    "Vehicle.Cabin.Door.Row1.Right.IsOpen",
    "Vehicle.Cabin.Door.Row2.Left.IsOpen",
    "Vehicle.Cabin.Door.Row2.Right.IsOpen",
];

/// Warning in the instrument cluster.
pub const LOST_KEY_WARNING: VssPath = "Vehicle.Controller.Body.PEPS.LostKeyWarning";

/// State of the feature.
#[verifier::ext_equal]
pub struct LostState {
    /// Which doors are open.
    pub open: Seq<bool>,
    /// The ignition is live.
    pub live: bool,
    /// The warning shows.
    pub warning: bool,
}

/// The antennas of the search.
pub open spec fn vehicle_antennas() -> Antennas {
    Antennas::Sequence(vehicle_legs())
}

/// The legs of the search.
pub open spec fn vehicle_legs() -> Seq<(Antennas, SearchMode)> {
    seq![
        (Antennas::AllApproach, SearchMode::Presence),
        (Antennas::TrunkInside, SearchMode::Presence),
        (Antennas::Cabin, SearchMode::Presence),
    ]
}

/// The zone lies in or around the vehicle, within reach of its antennas.
pub open spec fn on_vehicle(zone: Zone) -> bool {
    ||| zone is Approach
    ||| zone is LeftFront
    ||| zone is RightFront
    ||| zone is Hood
    ||| zone is Trunk
    ||| zone is TrunkInside
    ||| zone is Cabin
}

impl LostState {
    /// The state at start-up.
    pub open spec fn initial() -> LostState {
        LostState { open: doors::none_set(), live: false, warning: false }
    }

    /// The state with the warning as wanted, and the effect of the change.
    pub open spec fn warned(self, want: bool) -> (LostState, Seq<Effect>) {
        if want == self.warning {
            (self, Seq::empty())
        } else {
            (
                LostState { warning: want, ..self },
                seq![Effect::publish(LOST_KEY_WARNING, Value::Bool(want))],
            )
        }
    }

    /// The state and the effects after a value of the power state. Only texts
    /// count.
    pub open spec fn after_ignition(self, v: Value) -> (LostState, Seq<Effect>) {
        if v is Text {
            let s = LostState { live: v.power_on(), ..self };
            if v.power_on() {
                (s, Seq::empty())
            } else {
                s.warned(false)
            }
        } else {
            (self, Seq::empty())
        }
    }

    /// The state after a value of the door at position `i`.
    pub open spec fn after_door(self, i: int, v: Value) -> LostState {
        LostState { open: self.open.update(i, v == Value::Bool(true)), ..self }
    }

    /// A value of the door at position `i` asks for a search: it closes the last
    /// open door while the ignition is live.
    pub open spec fn asks_search(self, i: int, v: Value) -> bool {
        self.live && doors::any(self.open) && !doors::any(self.after_door(i, v).open)
    }

    /// The state and the effects after the search. No result counts as no key.
    pub open spec fn after_search(self, keys: Option<Seq<KeyFinding>>) -> (
        LostState,
        Seq<Effect>,
    ) {
        self.warned(
            match keys {
                Some(found) => found.len() == 0,
                None => true,
            },
        )
    }
}

/// The lost-key feature.
pub struct LostPkScan {
    door_open: [bool; 4],
    ign_live: bool,
    warning_active: bool,
}

impl View for LostPkScan {
    type V = LostState;

    closed spec fn view(&self) -> LostState {
        LostState {
            open: self.door_open@,
            live: self.ign_live,
            warning: self.warning_active,
        }
    }
}

impl LostPkScan {
    /// The feature with all doors closed and the ignition off.
    pub fn new() -> (r: LostPkScan)
        ensures
            r@ == LostState::initial(),
    {
        LostPkScan { door_open: no_flags(), ign_live: false, warning_active: false }
    }

    /// The outputs at start-up: no warning.
    pub fn boot(&self) -> (r: Vec<Output>)
        ensures
            Effect::all(r@) == seq![Effect::publish(LOST_KEY_WARNING, Value::Bool(false))],
    {
        let r = vec![publish_bool(LOST_KEY_WARNING, false)];
        assert(Effect::all(r@) =~= seq![Effect::publish(LOST_KEY_WARNING, Value::Bool(false))]);
        r
    }

    fn show(&mut self, want: bool) -> (r: Vec<Output>)
        ensures
            (final(self)@, Effect::all(r@)) == old(self)@.warned(want),
    {
        if want == self.warning_active {
            no_outputs()
        } else {
            self.warning_active = want;
            let r = vec![publish_bool(LOST_KEY_WARNING, want)];
            assert(Effect::all(r@) =~= seq![Effect::publish(LOST_KEY_WARNING, Value::Bool(want))]);
            r
        }
    }

    /// Takes a value of the power state.
    pub fn on_ignition(&mut self, val: &SignalValue) -> (r: Vec<Output>)
        ensures
            (final(self)@, Effect::all(r@)) == old(self)@.after_ignition(val@),
    {
        if let SignalValue::String(_) = val {
            let live = is_power_on(val);
            self.ign_live = live;
            if !live {
                return self.show(false);
            }
        }
        no_outputs()
    }

    /// Takes a value of the open-state signal at position `i`: true iff the search
    /// has to be made.
    pub fn on_door(&mut self, i: usize, val: &SignalValue) -> (r: bool)
        requires
            i < 4,
        ensures
            final(self)@ == old(self)@.after_door(i as int, val@),
            r == old(self)@.asks_search(i as int, val@),
    {
        let ghost before = self@;
        let was_open = any_set(&self.door_open);
        self.door_open[i] = val.is_true();
        assert(self@ =~= before.after_door(i as int, val@));
        was_open && !any_set(&self.door_open) && self.ign_live
    }

    /// The search to be made: antennas, mode, and whether a shared result will do.
    pub fn search() -> (r: (AntennaSet, SearchMode, Coalescing))
        ensures
            r.0@ == vehicle_antennas(),
            r.1 == SearchMode::Presence,
            r.2 == Coalescing::Disallowed,
    {
        let legs = vec![
            (AntennaSet::AllApproach, SearchMode::Presence),
            (AntennaSet::TrunkInside, SearchMode::Presence),
            (AntennaSet::Cabin, SearchMode::Presence),
        ];
        proof {
            key_search::lemma_legs(legs@);
            let of = key_search::legs_of(legs@);
            assert(of[0] == (legs@[0].0@, legs@[0].1));
            assert(of[1] == (legs@[1].0@, legs@[1].1));
            assert(of[2] == (legs@[2].0@, legs@[2].1));
            assert(of =~= vehicle_legs());
        }
        (AntennaSet::Sequence(legs), SearchMode::Presence, Coalescing::Disallowed)
    }

    /// Takes the result of the search. No result counts as no key.
    pub fn on_search(&mut self, result: Option<&KeySearchResult>) -> (r: Vec<Output>)
        ensures
            (final(self)@, Effect::all(r@)) == old(self)@.after_search(
                match result {
                    Some(found) => Some(found@.keys_found),
                    None => None,
                },
            ),
    {
        let any_found = match result {
            Some(found) => found.keys_found.len() > 0,
            None => false,
        };
        self.show(!any_found)
    }
}

/// The warning shows after a search exactly when no key is placed in or around
/// the vehicle.
pub proof fn law_warning_means_no_key(
    s: LostState,
    placed: Seq<Option<Zone>>,
    paired: Seq<Option<bool>>,
)
    ensures
        ({
            let keys = key_search::scan(vehicle_antennas(), SearchMode::Presence, placed, paired);
            s.after_search(Some(keys)).0.warning <==> forall|slot: int|
                0 <= slot < NUM_KEY_SLOTS ==> !((#[trigger] placed[slot]) is Some && on_vehicle(
                    placed[slot]->0,
                ))
        }),
{
    let mode = SearchMode::Presence;
    let legs = vehicle_legs();
    let keys = key_search::scan(vehicle_antennas(), mode, placed, paired);
    if keys.len() > 0 {
        let slot = keys[0].slot as int;
        let zone = keys[0].zone;
        assert(key_search_laws::sees(keys, slot, zone));
        key_search_laws::law_chain_sees_what_a_leg_sees(legs, mode, placed, paired, slot, zone);
        let j = choose|j: int|
            0 <= j < legs.len() && #[trigger] key_search_laws::shows(legs[j], paired, slot, zone);
        assert(legs[j].0.coverage().contains(zone));
        assert(placed[slot] is Some && on_vehicle(placed[slot]->0));
    }
    assert forall|slot: int|
        0 <= slot < NUM_KEY_SLOTS && keys.len() == 0 implies !((#[trigger] placed[slot]) is Some
        && on_vehicle(placed[slot]->0)) by {
        if placed[slot] is Some && on_vehicle(placed[slot]->0) {
            let zone = placed[slot]->0;
            let around = Antennas::AllApproach.coverage();
            assert(around[0] == Zone::Approach && around[1] == Zone::LeftFront && around[2]
                == Zone::RightFront && around[3] == Zone::Hood && around[4] == Zone::Trunk);
            assert(Antennas::TrunkInside.coverage()[0] == Zone::TrunkInside);
            assert(Antennas::Cabin.coverage()[0] == Zone::Cabin);
            assert(key_search_laws::shows(legs[0], paired, slot, zone) || key_search_laws::shows(
                legs[1],
                paired,
                slot,
                zone,
            ) || key_search_laws::shows(legs[2], paired, slot, zone));
            assert(key_search_laws::some_leg_shows(legs, paired, slot, zone));
            key_search_laws::law_chain_sees_what_a_leg_sees(legs, mode, placed, paired, slot, zone);
            assert(key_search_laws::sees(keys, slot, zone));
        }
    }
}

/// A search is made only when the last door closes while the ignition is live. A
/// value that changes nothing never asks for one.
pub proof fn law_search_on_last_door_only(s: LostState, i: int, v: Value)
    requires
        s.open.len() == 4,
        0 <= i < 4,
    ensures
        s.asks_search(i, v) ==> s.live && s.open[i] && v != Value::Bool(true) && !doors::any(
            s.after_door(i, v).open,
        ),
        s.open[i] == (v == Value::Bool(true)) ==> !s.asks_search(i, v),
        !s.live ==> !s.asks_search(i, v),
{
    let next = s.after_door(i, v).open;
    if s.open[i] == (v == Value::Bool(true)) {
        assert(next =~= s.open);
    }
    if v == Value::Bool(true) {
        assert(next[i]);
    }
    if doors::any(s.open) && !s.open[i] {
        let j = choose|j: int| 0 <= j < s.open.len() && #[trigger] s.open[j];
        assert(next[j]);
    }
}

/// The warning goes when the ignition does, and when a search finds a key.
pub proof fn law_warning_is_cleared(s: LostState, v: Value, keys: Seq<KeyFinding>)
    ensures
        v is Text && !v.power_on() ==> !s.after_ignition(v).0.warning,
        keys.len() > 0 ==> !s.after_search(Some(keys)).0.warning,
{
}

/// What the cluster was told last is what the warning is: each change of the
/// warning is published, and nothing else is.
pub proof fn law_cluster_is_in_step(s: LostState, v: Value, keys: Option<Seq<KeyFinding>>)
    ensures
        s.after_ignition(v).1 == if s.after_ignition(v).0.warning != s.warning {
            seq![
                Effect::publish(
                    LOST_KEY_WARNING,
                    Value::Bool(s.after_ignition(v).0.warning),
                ),
            ]
        } else {
            Seq::empty()
        },
        s.after_search(keys).1 == if s.after_search(keys).0.warning != s.warning {
            seq![
                Effect::publish(
                    LOST_KEY_WARNING,
                    Value::Bool(s.after_search(keys).0.warning),
                ),
            ]
        } else {
            Seq::empty()
        },
{
}

} // verus!
