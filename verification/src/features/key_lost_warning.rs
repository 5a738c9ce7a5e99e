//! Key-lost warning: a short chime and a flag in the cluster when the vehicle is
//! closed up under power with no paired key in or around it.
//!
//! The warning is given once. It can be given again only after the situation has
//! changed in between.

use vstd::prelude::*;

use crate::clock;
use crate::features::doors;
use crate::features::doors::{any_set, no_flags};
use crate::features::power::is_power_on;
use crate::ipc_message::{SignalValue, Value};
use crate::signal_bus::{no_outputs, publish_bool, Effect, Output, VssPath};

verus! {

/// Number of paired keys in and around the vehicle.
pub const APPROACH_KEYS: VssPath = "Vehicle.Controller.Body.PEPS.ApproachKeys";

/// Open state of the trunk.
pub const TRUNK_OPEN: VssPath = "Vehicle.Body.Trunk.Rear.IsOpen";

/// The chime.
pub const CHIME: VssPath = "Vehicle.Controller.Body.Chime.IsActive";

/// The flag in the cluster.
pub const KEY_LOST_WARNING_OUT: VssPath = "Vehicle.Controller.Starting.KeyLostWarning";

/// Open-state signals of the doors.
pub const DOOR_OPEN_SIGNALS: [VssPath; 4] = [
    "Vehicle.Cabin.Door.Row1.Left.IsOpen",
    "Vehicle.Cabin.Door.Row1.Right.IsOpen",
    "Vehicle.Cabin.Door.Row2.Left.IsOpen",
    "Vehicle.Cabin.Door.Row2.Right.IsOpen",
];

/// How long chime and flag stay, in milliseconds.
pub const WARNING_DURATION_MS: u64 = 2_000;

impl Value {
    /// The number of keys that the value carries, if it is one.
    pub open spec fn key_count(self) -> Option<u8> {
        match self {
            Value::Uint8(n) => Some(n),
            _ => None,
        }
    }
}

/// The number of keys that a value carries, if it is one.
pub fn approach_keys_count(val: &SignalValue) -> (r: Option<u8>)
    ensures
        r == val@.key_count(),
{
    match val {
        SignalValue::Uint8(n) => Some(*n),
        _ => None,
    }
}

/// The open state that a value carries, if it is one.
pub fn is_open(val: &SignalValue) -> (r: Option<bool>)
    ensures
        r == val@.flag(),
{
    val.as_bool()
}

/// State of the feature.
#[verifier::ext_equal]
pub struct KeyLostState {
    pub power_on: bool,
    pub keys: u8,
    pub trunk_open: bool,
    /// Which doors are open.
    pub open: Seq<bool>,
    /// When the warning is over, if it is being given.
    pub deadline: Option<u64>,
    /// The warning has been given for the present situation.
    pub latched: bool,
}

/// Something that happens to the feature.
pub enum KeyLostEvent {
    /// Value of the number of keys, and the time.
    Keys(Value, u64),
    /// Value of the power state, and the time.
    Power(Value, u64),
    /// Value of the trunk, and the time.
    Trunk(Value, u64),
    /// Value of the door at a position, and the time.
    Door(int, Value, u64),
    /// The clock has reached a time.
    Tick(u64),
}

/// The effects of giving the warning.
pub open spec fn asserted() -> Seq<Effect> {
    seq![
        Effect::publish(KEY_LOST_WARNING_OUT, Value::Bool(true)),
        Effect::publish(CHIME, Value::Bool(true)),
    ]
}

/// The effects of taking the warning back.
pub open spec fn cleared() -> Seq<Effect> {
    seq![
        Effect::publish(CHIME, Value::Bool(false)),
        Effect::publish(KEY_LOST_WARNING_OUT, Value::Bool(false)),
    ]
}

impl KeyLostState {
    /// The state at start-up.
    pub open spec fn initial() -> KeyLostState {
        KeyLostState {
            power_on: false,
            keys: 0,
            trunk_open: false,
            open: doors::none_set(),
            deadline: None,
            latched: false,
        }
    }

    /// The vehicle is closed up under power without a key.
    pub open spec fn sealed(self) -> bool {
        self.power_on && !self.trunk_open && !doors::any(self.open) && self.keys == 0
    }

    /// The warning is given only for a situation that it was given for.
    pub open spec fn valid(self) -> bool {
        &&& self.open.len() == 4
        &&& self.deadline is Some ==> self.latched
        &&& self.latched == self.sealed()
    }

    /// The state and the effects once the situation is weighed.
    pub open spec fn weighed(self, now: u64) -> (KeyLostState, Seq<Effect>) {
        if self.sealed() && !self.latched {
            (
                KeyLostState {
                    latched: true,
                    deadline: Some(clock::later(now, WARNING_DURATION_MS)),
                    ..self
                },
                asserted(),
            )
        } else if !self.sealed() && self.latched {
            (
                KeyLostState { latched: false, deadline: None, ..self },
                if self.deadline is Some {
                    cleared()
                } else {
                    Seq::empty()
                },
            )
        } else {
            (self, Seq::empty())
        }
    }

    /// The state once the input of an event is noted.
    pub open spec fn noted(self, event: KeyLostEvent) -> KeyLostState {
        match event {
            KeyLostEvent::Keys(v, _) => match v.key_count() {
                Some(n) => KeyLostState { keys: n, ..self },
                None => self,
            },
            KeyLostEvent::Power(v, _) => KeyLostState { power_on: v.power_on(), ..self },
            KeyLostEvent::Trunk(v, _) => match v.flag() {
                Some(b) => KeyLostState { trunk_open: b, ..self },
                None => self,
            },
            KeyLostEvent::Door(i, v, _) => match v.flag() {
                Some(b) => KeyLostState { open: self.open.update(i, b), ..self },
                None => self,
            },
            KeyLostEvent::Tick(_) => self,
        }
    }

    /// The state and the effects after an event.
    pub open spec fn after(self, event: KeyLostEvent) -> (KeyLostState, Seq<Effect>) {
        match event {
            KeyLostEvent::Keys(_, now) | KeyLostEvent::Power(_, now) | KeyLostEvent::Trunk(
                _,
                now,
            ) | KeyLostEvent::Door(_, _, now) => self.noted(event).weighed(now),
            KeyLostEvent::Tick(now) => {
                if self.deadline is Some && now >= self.deadline->0 {
                    (KeyLostState { deadline: None, ..self }, cleared())
                } else {
                    (self, Seq::empty())
                }
            },
        }
    }
}

/// The key-lost feature.
pub struct KeyLostWarning {
    power_on: bool,
    approach_keys: u8,
    trunk_open: bool,
    door_open: [bool; 4],
    warning_deadline: Option<u64>,
    latched_active: bool,
}

impl View for KeyLostWarning {
    type V = KeyLostState;

    closed spec fn view(&self) -> KeyLostState {
        KeyLostState {
            power_on: self.power_on,
            keys: self.approach_keys,
            trunk_open: self.trunk_open,
            open: self.door_open@,
            deadline: self.warning_deadline,
            latched: self.latched_active,
        }
    }
}

impl KeyLostWarning {
    /// The feature in a parked, closed vehicle.
    pub fn new() -> (r: KeyLostWarning)
        ensures
            r@ == KeyLostState::initial(),
    {
        KeyLostWarning {
            power_on: false,
            approach_keys: 0,
            trunk_open: false,
            door_open: no_flags(),
            warning_deadline: None,
            latched_active: false,
        }
    }

    /// When the warning is over, if it is being given.
    pub fn deadline(&self) -> (r: Option<u64>)
        ensures
            r == self@.deadline,
    {
        self.warning_deadline
    }

    fn assert_warning() -> (r: Vec<Output>)
        ensures
            Effect::all(r@) == asserted(),
    {
        let r = vec![publish_bool(KEY_LOST_WARNING_OUT, true), publish_bool(CHIME, true)];
        assert(Effect::all(r@) =~= asserted());
        r
    }

    fn clear_warning() -> (r: Vec<Output>)
        ensures
            Effect::all(r@) == cleared(),
    {
        let r = vec![publish_bool(CHIME, false), publish_bool(KEY_LOST_WARNING_OUT, false)];
        assert(Effect::all(r@) =~= cleared());
        r
    }

    fn evaluate_gating(&mut self, now: u64) -> (r: Vec<Output>)
        ensures
            (final(self)@, Effect::all(r@)) == old(self)@.weighed(now),
    {
        let all_closed = !self.trunk_open && !any_set(&self.door_open);
        let gating_true = self.power_on && all_closed && self.approach_keys == 0;
        if gating_true {
            if !self.latched_active {
                self.latched_active = true;
                self.warning_deadline = Some(clock::deadline(now, WARNING_DURATION_MS));
                KeyLostWarning::assert_warning()
            } else {
                no_outputs()
            }
        } else if self.latched_active {
            self.latched_active = false;
            let given = self.warning_deadline.is_some();
            self.warning_deadline = None;
            if given {
                KeyLostWarning::clear_warning()
            } else {
                no_outputs()
            }
        } else {
            no_outputs()
        }
    }

    /// Takes a value of the number of keys at time `now`.
    pub fn on_keys(&mut self, val: &SignalValue, now: u64) -> (r: Vec<Output>)
        ensures
            (final(self)@, Effect::all(r@)) == old(self)@.after(KeyLostEvent::Keys(val@, now)),
    {
        if let Some(n) = approach_keys_count(val) {
            self.approach_keys = n;
        }
        self.evaluate_gating(now)
    }

    /// Takes a value of the power state at time `now`.
    pub fn on_power(&mut self, val: &SignalValue, now: u64) -> (r: Vec<Output>)
        ensures
            (final(self)@, Effect::all(r@)) == old(self)@.after(KeyLostEvent::Power(val@, now)),
    {
        self.power_on = is_power_on(val);
        self.evaluate_gating(now)
    }

    /// Takes a value of the trunk at time `now`.
    pub fn on_trunk(&mut self, val: &SignalValue, now: u64) -> (r: Vec<Output>)
        ensures
            (final(self)@, Effect::all(r@)) == old(self)@.after(KeyLostEvent::Trunk(val@, now)),
    {
        if let Some(b) = is_open(val) {
            self.trunk_open = b;
        }
        self.evaluate_gating(now)
    }

    /// Takes a value of the door at position `i` at time `now`.
    pub fn on_door(&mut self, i: usize, val: &SignalValue, now: u64) -> (r: Vec<Output>)
        requires
            i < 4,
        ensures
            (final(self)@, Effect::all(r@)) == old(self)@.after(
                KeyLostEvent::Door(i as int, val@, now),
            ),
    {
        let ghost before = self@;
        if let Some(b) = is_open(val) {
            self.door_open[i] = b;
        }
        assert(self@ =~= before.noted(KeyLostEvent::Door(i as int, val@, now)));
        self.evaluate_gating(now)
    }

    /// Takes the time.
    pub fn on_tick(&mut self, now: u64) -> (r: Vec<Output>)
        ensures
            (final(self)@, Effect::all(r@)) == old(self)@.after(KeyLostEvent::Tick(now)),
    {
        if let Some(d) = self.warning_deadline {
            if now >= d {
                self.warning_deadline = None;
                return KeyLostWarning::clear_warning();
            }
        }
        no_outputs()
    }
}

/// The positions of the doors that events name exist.
pub open spec fn known_doors(events: Seq<KeyLostEvent>) -> bool {
    forall|k: int|
        0 <= k < events.len() ==> ((#[trigger] events[k]) is Door ==> 0 <= events[k]->Door_0 < 4)
}

/// The state after a run of events.
pub open spec fn run(s: KeyLostState, events: Seq<KeyLostEvent>) -> KeyLostState
    decreases events.len(),
{
    if events.len() == 0 {
        s
    } else {
        run(s, events.drop_last()).after(events.last()).0
    }
}

/// Whatever happens, the warning has been given for the present situation exactly
/// when the vehicle is closed up under power without a key.
pub proof fn law_latch_follows_situation(s: KeyLostState, events: Seq<KeyLostEvent>)
    requires
        s.valid(),
        known_doors(events),
    ensures
        run(s, events).valid(),
    decreases events.len(),
{
    if events.len() > 0 {
        let rest = events.drop_last();
        assert forall|k: int| 0 <= k < rest.len() && (#[trigger] rest[k]) is Door implies 0
            <= rest[k]->Door_0 < 4 by {
            assert(rest[k] == events[k]);
        }
        law_latch_follows_situation(s, rest);
        assert(events[events.len() - 1] == events.last());
    }
}

/// The state at start-up is valid.
pub proof fn law_initial_state_is_valid()
    ensures
        KeyLostState::initial().valid(),
{
}

/// The warning is given exactly when the situation begins.
pub proof fn law_warning_on_rising_edge(s: KeyLostState, event: KeyLostEvent)
    requires
        s.valid(),
        event is Door ==> 0 <= event->Door_0 < 4,
    ensures
        s.after(event).1 == asserted() <==> !s.sealed() && s.after(event).0.sealed(),
{
    assert(asserted()[0]->Publish_value == Value::Bool(true));
    assert(cleared()[0]->Publish_value == Value::Bool(false));
    assert(asserted().len() != Seq::<Effect>::empty().len());
}

/// While it is being given, the end of the situation takes it back at once. So
/// does the end of its span.
pub proof fn law_warning_is_cleared(s: KeyLostState, event: KeyLostEvent)
    requires
        s.valid(),
        s.deadline is Some,
        event is Door ==> 0 <= event->Door_0 < 4,
    ensures
        !s.after(event).0.sealed() ==> s.after(event).1 == cleared(),
        event is Tick && event->Tick_0 >= s.deadline->0 ==> s.after(event).1 == cleared()
            && s.after(event).0.deadline is None,
{
}

/// Once it is over, the same situation gives no second warning: no value that
/// leaves the vehicle closed up without a key does anything.
pub proof fn law_no_second_warning(s: KeyLostState, event: KeyLostEvent)
    requires
        s.valid(),
        s.sealed(),
        s.deadline is None,
        event is Door ==> 0 <= event->Door_0 < 4,
        s.after(event).0.sealed(),
    ensures
        s.after(event).1 == Seq::<Effect>::empty(),
{
}

} // verus!
