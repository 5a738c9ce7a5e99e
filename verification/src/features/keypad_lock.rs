//! Keypad lock: locks the vehicle from the capacitive pads of the front outside
//! door handles.
//!
//! A pad held for the debounce span asks for a fresh search. The doors are locked
//! only if that search shows a paired device outside the cabin, so that no key is
//! locked in.

use vstd::prelude::*;

use crate::arbiter::door_lock::FEEDBACK_REQUEST;
use crate::clock;
use crate::features::key_search;
use crate::features::key_search::{
    AntennaSet, Antennas, Coalescing, KeyFinding, KeySearchResult, SearchMode, NUM_KEY_SLOTS,
};
use crate::features::key_search_laws;
use crate::ipc_message::{FeatureId, SignalValue, Value};
use crate::signal_bus::{
    lock_request, publish_text, Effect, LockCommand, Output, VssPath,
};
use crate::zone::Zone;

verus! {

/// Pad of the left front handle.
pub const LEFT_PAD: VssPath = "Body.Doors.Row1.Left.Handle.Outside.LockPad.IsPressed";

/// Pad of the right front handle.
pub const RIGHT_PAD: VssPath = "Body.Doors.Row1.Right.Handle.Outside.LockPad.IsPressed";

/// How long a pad has to be held, in milliseconds.
pub const DEBOUNCE_MS: u64 = 500;

/// The zone lies outside the cabin, within approach range.
pub open spec fn outside(zone: Zone) -> bool {
    zone is LeftFront || zone is RightFront || zone is Hood || zone is Trunk || zone is Approach
}

/// True iff `zone` is one where a person leaving the vehicle carries a device.
pub fn is_outside_cabin(zone: Zone) -> (r: bool)
    ensures
        r == outside(zone),
{
    match zone {
        Zone::LeftFront | Zone::RightFront | Zone::Hood | Zone::Trunk | Zone::Approach => true,
        _ => false,
    }
}

/// A key was found outside the cabin.
pub open spec fn key_outside(keys: Seq<KeyFinding>) -> bool {
    exists|i: int| 0 <= i < keys.len() && outside((#[trigger] keys[i]).zone)
}

/// A pad pressed at `since` has been held long enough at `now`.
pub open spec fn held(since: Option<u64>, now: u64) -> bool {
    since matches Some(t) && now - t >= DEBOUNCE_MS
}

/// The antennas of the search that decides.
pub open spec fn gate_antennas() -> Antennas {
    Antennas::Sequence(
        seq![
            (Antennas::Cabin, SearchMode::Authenticated),
            (Antennas::AllApproach, SearchMode::Authenticated),
        ],
    )
}

/// What follows the search.
pub open spec fn verdict(keys: Option<Seq<KeyFinding>>) -> Seq<Effect> {
    if keys is Some && key_outside(keys->0) {
        seq![
            Effect::lock(LockCommand::LockAll, FeatureId::KeypadLock),
            Effect::publish(FEEDBACK_REQUEST, Value::Text("lock"@)),
        ]
    } else {
        seq![Effect::publish(FEEDBACK_REQUEST, Value::Text("lock_denied"@))]
    }
}

/// The keypad-lock feature: since when each pad has been pressed.
#[derive(Debug, Clone, Copy, PartialEq, Eq)]
pub struct KeypadLock {
    pub left: Option<u64>,
    pub right: Option<u64>,
}

/// Something that happens to the pads.
pub enum PadEvent {
    /// Value of the left pad, and the time.
    Left(Value, u64),
    /// Value of the right pad, and the time.
    Right(Value, u64),
    /// The clock has reached a time.
    Tick(u64),
}

impl KeypadLock {
    /// The time of the press that a pad value stands for.
    pub open spec fn press(v: Value, now: u64) -> Option<u64> {
        if v == Value::Bool(true) {
            Some(now)
        } else {
            None
        }
    }

    /// The state after an event, and whether a search is asked for.
    pub open spec fn after(self, event: PadEvent) -> (KeypadLock, bool) {
        match event {
            PadEvent::Left(v, now) => (
                KeypadLock { left: KeypadLock::press(v, now), ..self },
                false,
            ),
            PadEvent::Right(v, now) => (
                KeypadLock { right: KeypadLock::press(v, now), ..self },
                false,
            ),
            PadEvent::Tick(now) => (
                KeypadLock {
                    left: if held(self.left, now) {
                        None
                    } else {
                        self.left
                    },
                    right: if held(self.right, now) {
                        None
                    } else {
                        self.right
                    },
                },
                held(self.left, now) || held(self.right, now),
            ),
        }
    }

    /// The feature with both pads released.
    pub fn new() -> (r: KeypadLock)
        ensures
            r == (KeypadLock { left: None, right: None }),
    {
        KeypadLock { left: None, right: None }
    }

    /// When the next pad has been held long enough, if one is pressed.
    pub fn deadline(&self) -> (r: Option<u64>)
        ensures
            r == match (self.left, self.right) {
                (Some(a), Some(b)) => Some(
                    clock::later(
                        if a <= b {
                            a
                        } else {
                            b
                        },
                        DEBOUNCE_MS,
                    ),
                ),
                (Some(a), None) => Some(clock::later(a, DEBOUNCE_MS)),
                (None, Some(b)) => Some(clock::later(b, DEBOUNCE_MS)),
                (None, None) => None,
            },
    {
        match (self.left, self.right) {
            (Some(a), Some(b)) => {
                if a <= b {
                    Some(clock::deadline(a, DEBOUNCE_MS))
                } else {
                    Some(clock::deadline(b, DEBOUNCE_MS))
                }
            },
            (Some(a), None) => Some(clock::deadline(a, DEBOUNCE_MS)),
            (None, Some(b)) => Some(clock::deadline(b, DEBOUNCE_MS)),
            (None, None) => None,
        }
    }

    /// Takes a value of the left pad at time `now`.
    pub fn on_left_pad(&mut self, val: &SignalValue, now: u64)
        ensures
            *final(self) == old(self).after(PadEvent::Left(val@, now)).0,
    {
        self.left = if val.is_true() {
            Some(now)
        } else {
            None
        };
    }

    /// Takes a value of the right pad at time `now`.
    pub fn on_right_pad(&mut self, val: &SignalValue, now: u64)
        ensures
            *final(self) == old(self).after(PadEvent::Right(val@, now)).0,
    {
        self.right = if val.is_true() {
            Some(now)
        } else {
            None
        };
    }

    /// Takes the time: true iff a pad has been held long enough, so that the
    /// search has to be made. Such a pad has to be pressed anew to count again.
    pub fn on_tick(&mut self, now: u64) -> (r: bool)
        ensures
            (*final(self), r) == old(self).after(PadEvent::Tick(now)),
    {
        let left_done = match self.left {
            Some(t) => now >= t && now - t >= DEBOUNCE_MS,
            None => false,
        };
        let right_done = match self.right {
            Some(t) => now >= t && now - t >= DEBOUNCE_MS,
            None => false,
        };
        if left_done {
            self.left = None;
        }
        if right_done {
            self.right = None;
        }
        left_done || right_done
    }

    /// The search to be made: antennas, mode, and whether a shared result will do.
    pub fn search() -> (r: (AntennaSet, SearchMode, Coalescing))
        ensures
            r.0@ == gate_antennas(),
            r.1 == SearchMode::Authenticated,
            r.2 == Coalescing::Disallowed,
    {
        let legs = vec![
            (AntennaSet::Cabin, SearchMode::Authenticated),
            (AntennaSet::AllApproach, SearchMode::Authenticated),
        ];
        proof {
            key_search::lemma_legs(legs@);
            assert(key_search::legs_of(legs@) =~= seq![
                (Antennas::Cabin, SearchMode::Authenticated),
                (Antennas::AllApproach, SearchMode::Authenticated),
            ]) by {
                assert(key_search::legs_of(legs@)[0] == (legs@[0].0@, legs@[0].1));
                assert(key_search::legs_of(legs@)[1] == (legs@[1].0@, legs@[1].1));
            }
        }
        (AntennaSet::Sequence(legs), SearchMode::Authenticated, Coalescing::Disallowed)
    }

    /// Takes the result of the search. No result counts as no key.
    pub fn on_search(result: Option<&KeySearchResult>) -> (r: Vec<Output>)
        ensures
            Effect::all(r@) == verdict(
                match result {
                    Some(found) => Some(found@.keys_found),
                    None => None,
                },
            ),
    {
        let device_outside = match result {
            Some(found) => any_outside(&found.keys_found),
            None => false,
        };
        let ghost keys = match result {
            Some(found) => Some(found@.keys_found),
            None => None,
        };
        let r = if device_outside {
            vec![
                lock_request(LockCommand::LockAll, FeatureId::KeypadLock),
                publish_text(FEEDBACK_REQUEST, "lock"),
            ]
        } else {
            vec![publish_text(FEEDBACK_REQUEST, "lock_denied")]
        };
        assert(Effect::all(r@) =~= verdict(keys));
        r
    }
}

fn any_outside(keys: &Vec<KeyFinding>) -> (r: bool)
    ensures
        r == key_outside(keys@),
{
    let mut i: usize = 0;
    while i < keys.len()
        invariant
            i <= keys@.len(),
            forall|j: int| 0 <= j < i ==> !outside((#[trigger] keys@[j]).zone),
        decreases keys@.len() - i,
    {
        if is_outside_cabin(keys[i].zone) {
            return true;
        }
        i += 1;
    }
    false
}

/// The state after a run of events.
pub open spec fn run(s: KeypadLock, events: Seq<PadEvent>) -> KeypadLock
    decreases events.len(),
{
    if events.len() == 0 {
        s
    } else {
        run(s, events.drop_last()).after(events.last()).0
    }
}

/// The doors are locked exactly when the search sees a device outside the cabin
/// that is not unpaired. A device in the cabin alone never locks them.
pub proof fn law_lock_needs_device_outside(
    placed: Seq<Option<Zone>>,
    paired: Seq<Option<bool>>,
)
    ensures
        ({
            let keys = key_search::scan(
                gate_antennas(),
                SearchMode::Authenticated,
                placed,
                paired,
            );
            verdict(Some(keys)).contains(
                Effect::lock(LockCommand::LockAll, FeatureId::KeypadLock),
            ) <==> exists|slot: int|
                0 <= slot < NUM_KEY_SLOTS && (#[trigger] placed[slot]) is Some && outside(
                    placed[slot]->0,
                ) && paired[slot] != Some(false)
        }),
{
    let legs = seq![
        (Antennas::Cabin, SearchMode::Authenticated),
        (Antennas::AllApproach, SearchMode::Authenticated),
    ];
    let mode = SearchMode::Authenticated;
    let keys = key_search::scan(gate_antennas(), mode, placed, paired);
    let order = Effect::lock(LockCommand::LockAll, FeatureId::KeypadLock);
    assert(verdict(Some(keys)).contains(order) <==> key_outside(keys)) by {
        if key_outside(keys) {
            assert(verdict(Some(keys))[0] == order);
        }
    }
    if key_outside(keys) {
        let i = choose|i: int| 0 <= i < keys.len() && outside((#[trigger] keys[i]).zone);
        let slot = keys[i].slot as int;
        let zone = keys[i].zone;
        assert(key_search_laws::sees(keys, slot, zone));
        key_search_laws::law_chain_sees_what_a_leg_sees(legs, mode, placed, paired, slot, zone);
        let j = choose|j: int|
            0 <= j < legs.len() && #[trigger] key_search_laws::shows(legs[j], paired, slot, zone);
        assert(legs[j].1 == SearchMode::Authenticated);
        assert(placed[slot] is Some);
    }
    if exists|slot: int|
        0 <= slot < NUM_KEY_SLOTS && (#[trigger] placed[slot]) is Some && outside(placed[slot]->0)
            && paired[slot] != Some(false) {
        let slot = choose|slot: int|
            0 <= slot < NUM_KEY_SLOTS && (#[trigger] placed[slot]) is Some && outside(
                placed[slot]->0,
            ) && paired[slot] != Some(false);
        let zone = placed[slot]->0;
        let cover = Antennas::AllApproach.coverage();
        assert(cover.contains(zone)) by {
            assert(cover[0] == Zone::Approach && cover[1] == Zone::LeftFront && cover[2]
                == Zone::RightFront && cover[3] == Zone::Hood && cover[4] == Zone::Trunk);
        }
        assert(key_search_laws::shows(legs[1], paired, slot, zone));
        key_search_laws::law_chain_sees_what_a_leg_sees(legs, mode, placed, paired, slot, zone);
        assert(key_search_laws::sees(keys, slot, zone));
        let i = choose|i: int|
            0 <= i < keys.len() && (#[trigger] keys[i]).slot == slot && keys[i].zone == zone;
        assert(outside(keys[i].zone));
    }
}

/// A pad counts only when held: a search is asked for exactly when a pad that is
/// still pressed was pressed at least the debounce span ago.
pub proof fn law_search_only_after_hold(s: KeypadLock, now: u64)
    ensures
        s.after(PadEvent::Tick(now)).1 <==> {
            ||| s.left is Some && now - s.left->0 >= DEBOUNCE_MS
            ||| s.right is Some && now - s.right->0 >= DEBOUNCE_MS
        },
{
}

/// Once both pads are released, no passage of time asks for a search.
pub proof fn law_release_cancels(s: KeypadLock, v: Value, w: Value, t: u64, now: u64)
    requires
        v != Value::Bool(true),
        w != Value::Bool(true),
    ensures
        !run(s, seq![PadEvent::Left(v, t), PadEvent::Right(w, t)]).after(PadEvent::Tick(now)).1,
{
    let events = seq![PadEvent::Left(v, t), PadEvent::Right(w, t)];
    reveal_with_fuel(run, 3);
    assert(events.drop_last() =~= seq![PadEvent::Left(v, t)]);
    assert(events.drop_last().drop_last() =~= Seq::<PadEvent>::empty());
}

/// A press starts the span of its pad anew: within the span that follows, only
/// the other pad can ask for a search.
pub proof fn law_new_press_restarts(s: KeypadLock, t: u64, now: u64)
    requires
        now - t < DEBOUNCE_MS,
    ensures
        s.after(PadEvent::Left(Value::Bool(true), t)).0.after(PadEvent::Tick(now)).1 == held(
            s.right,
            now,
        ),
        s.after(PadEvent::Right(Value::Bool(true), t)).0.after(PadEvent::Tick(now)).1 == held(
            s.left,
            now,
        ),
{
}

/// Either pad alone is enough.
pub proof fn law_either_pad_suffices(t: u64, now: u64)
    requires
        now - t >= DEBOUNCE_MS,
    ensures
        (KeypadLock { left: Some(t), right: None }).after(PadEvent::Tick(now)).1,
        (KeypadLock { left: None, right: Some(t) }).after(PadEvent::Tick(now)).1,
{
}

/// A hold asks for one search: after it, no time asks for another unless a pad
/// is pressed again.
pub proof fn law_one_search_per_hold(s: KeypadLock, now: u64, then: u64)
    requires
        s.left is None || held(s.left, now),
        s.right is None || held(s.right, now),
    ensures
        !s.after(PadEvent::Tick(now)).0.after(PadEvent::Tick(then)).1,
{
}

} // verus!
