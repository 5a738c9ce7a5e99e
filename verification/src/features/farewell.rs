//! Farewell: courtesy lighting after the driver steps out.
//!
//! Switching the vehicle off arms the feature. If a door opens within the arm
//! window, puddle and dome lights are claimed, and held until the hold span is
//! over, the vehicle is locked, or it is switched on again.

use vstd::prelude::*;

use crate::arbiter::door_lock::{STATUS_DOUBLE_LOCKED, STATUS_LOCKED};
use crate::arbiter::tables::{DOME, PUDDLE_LEFT, PUDDLE_RIGHT};
use crate::clock;
use crate::features::power::is_power_on;
use crate::ipc_message::{FeatureId, Priority, SignalValue, Value};
use crate::signal_bus::{
    claim_bool, no_outputs, release_claim, Domain, Effect, Output, VssPath,
};

verus! {

/// How long after switch-off a door opening still counts, in seconds.
pub const ARM_WINDOW_SECS: u64 = 30;

/// How long the lights are held by default, in seconds.
pub const DEFAULT_HOLD_SECS: u64 = 20;

/// How long after switch-off a door opening still counts, in milliseconds.
pub const ARM_WINDOW_MS: u64 = ARM_WINDOW_SECS * 1000;

/// How long the lights are held by default, in milliseconds.
pub const DEFAULT_HOLD_MS: u64 = DEFAULT_HOLD_SECS * 1000;

/// Open-state signals of the doors.
pub const DOOR_OPEN_SIGNALS: [VssPath; 4] = [
    "Body.Doors.Row1.Left.IsOpen",
    "Body.Doors.Row1.Right.IsOpen",
    "Body.Doors.Row2.Left.IsOpen",
    "Body.Doors.Row2.Right.IsOpen",
];

impl Value {
    /// The value is a lock status that means locked.
    pub open spec fn locked_status(self) -> bool {
        self == Value::Text(STATUS_LOCKED@) || self == Value::Text(STATUS_DOUBLE_LOCKED@)
    }
}

/// What the feature is doing.
#[derive(Debug, Clone, Copy, PartialEq, Eq)]
pub enum FarewellPhase {
    /// Waiting for the vehicle to be switched off.
    Idle,
    /// Switched off; waiting for a door to open until `arm_deadline`.
    Armed { arm_deadline: u64 },
    /// Lights claimed until `hold_deadline`.
    Holding { hold_deadline: u64 },
}

/// The farewell feature. Spans are in milliseconds.
#[derive(Debug, Clone, Copy, PartialEq, Eq)]
pub struct Farewell {
    pub arm_window: u64,
    pub hold: u64,
    /// The vehicle was on when its power state was seen last.
    pub powered_on: bool,
    pub phase: FarewellPhase,
}

/// Something that happens to the feature.
pub enum FarewellEvent {
    /// Value of the power state, and the time.
    Power(Value, u64),
    /// Value of the cabin lock status.
    LockStatus(Value),
    /// Value of an open-state signal of a door, and the time.
    Door(Value, u64),
    /// The clock has reached a time.
    Tick(u64),
}

impl Farewell {
    /// The effects of claiming the lights.
    pub open spec fn lights_claimed() -> Seq<Effect> {
        seq![
            Effect::claim(
                Domain::Puddle,
                PUDDLE_LEFT,
                Value::Bool(true),
                Priority::Medium,
                FeatureId::Farewell,
            ),
            Effect::claim(
                Domain::Puddle,
                PUDDLE_RIGHT,
                Value::Bool(true),
                Priority::Medium,
                FeatureId::Farewell,
            ),
            Effect::claim(
                Domain::Courtesy,
                DOME,
                Value::Bool(true),
                Priority::Medium,
                FeatureId::Farewell,
            ),
        ]
    }

    /// The effects of giving the lights back.
    pub open spec fn lights_released() -> Seq<Effect> {
        seq![
            Effect::release(Domain::Puddle, PUDDLE_LEFT, FeatureId::Farewell),
            Effect::release(Domain::Puddle, PUDDLE_RIGHT, FeatureId::Farewell),
            Effect::release(Domain::Courtesy, DOME, FeatureId::Farewell),
        ]
    }

    /// The state in another phase.
    pub open spec fn to(self, phase: FarewellPhase) -> Farewell {
        Farewell { phase, ..self }
    }

    /// The effects of going idle.
    pub open spec fn given_up(self) -> Seq<Effect> {
        if self.phase is Holding {
            Farewell::lights_released()
        } else {
            Seq::empty()
        }
    }

    /// While the vehicle is on, the feature is idle.
    pub open spec fn valid(self) -> bool {
        self.powered_on ==> self.phase is Idle
    }

    /// The state and the effects after an event.
    pub open spec fn after(self, event: FarewellEvent) -> (Farewell, Seq<Effect>) {
        match event {
            FarewellEvent::Power(v, now) => {
                let s = Farewell { powered_on: v.power_on(), ..self };
                if self.powered_on && !v.power_on() {
                    (
                        s.to(
                            FarewellPhase::Armed {
                                arm_deadline: clock::later(now, self.arm_window),
                            },
                        ),
                        Seq::empty(),
                    )
                } else if !self.powered_on && v.power_on() {
                    (s.to(FarewellPhase::Idle), self.given_up())
                } else {
                    (s, Seq::empty())
                }
            },
            FarewellEvent::LockStatus(v) => {
                if v.locked_status() && self.phase is Holding {
                    (self.to(FarewellPhase::Idle), self.given_up())
                } else {
                    (self, Seq::empty())
                }
            },
            FarewellEvent::Door(v, now) => {
                if v == Value::Bool(true) && self.phase is Armed {
                    (
                        self.to(
                            FarewellPhase::Holding { hold_deadline: clock::later(now, self.hold) },
                        ),
                        Farewell::lights_claimed(),
                    )
                } else {
                    (self, Seq::empty())
                }
            },
            FarewellEvent::Tick(now) => {
                let over = match self.phase {
                    FarewellPhase::Armed { arm_deadline } => now >= arm_deadline,
                    FarewellPhase::Holding { hold_deadline } => now >= hold_deadline,
                    FarewellPhase::Idle => false,
                };
                if over {
                    (self.to(FarewellPhase::Idle), self.given_up())
                } else {
                    (self, Seq::empty())
                }
            },
        }
    }

    /// The feature with the default spans.
    pub fn new() -> (r: Farewell)
        ensures
            r == (Farewell {
                arm_window: ARM_WINDOW_MS,
                hold: DEFAULT_HOLD_MS,
                powered_on: false,
                phase: FarewellPhase::Idle,
            }),
            r.valid(),
    {
        Farewell {
            arm_window: ARM_WINDOW_MS,
            hold: DEFAULT_HOLD_MS,
            powered_on: false,
            phase: FarewellPhase::Idle,
        }
    }

    /// The same feature with another arm window, in milliseconds.
    pub fn with_arm_window(self, window: u64) -> (r: Farewell)
        ensures
            r == (Farewell { arm_window: window, ..self }),
    {
        Farewell { arm_window: window, ..self }
    }

    /// The same feature with another hold span, in milliseconds.
    pub fn with_hold(self, hold: u64) -> (r: Farewell)
        ensures
            r == (Farewell { hold, ..self }),
    {
        Farewell { hold, ..self }
    }

    /// When the current phase runs out, if it does.
    pub fn deadline(&self) -> (r: Option<u64>)
        ensures
            r == match self.phase {
                FarewellPhase::Armed { arm_deadline } => Some(arm_deadline),
                FarewellPhase::Holding { hold_deadline } => Some(hold_deadline),
                FarewellPhase::Idle => None,
            },
    {
        match self.phase {
            FarewellPhase::Armed { arm_deadline } => Some(arm_deadline),
            FarewellPhase::Holding { hold_deadline } => Some(hold_deadline),
            FarewellPhase::Idle => None,
        }
    }

    fn claim_all() -> (r: Vec<Output>)
        ensures
            Effect::all(r@) == Farewell::lights_claimed(),
    {
        let r = vec![
            claim_bool(
                Domain::Puddle,
                PUDDLE_LEFT,
                true,
                Priority::Medium,
                FeatureId::Farewell,
            ),
            claim_bool(
                Domain::Puddle,
                PUDDLE_RIGHT,
                true,
                Priority::Medium,
                FeatureId::Farewell,
            ),
            claim_bool(Domain::Courtesy, DOME, true, Priority::Medium, FeatureId::Farewell),
        ];
        assert(Effect::all(r@) =~= Farewell::lights_claimed());
        r
    }

    fn release_all() -> (r: Vec<Output>)
        ensures
            Effect::all(r@) == Farewell::lights_released(),
    {
        let r = vec![
            release_claim(Domain::Puddle, PUDDLE_LEFT, FeatureId::Farewell),
            release_claim(Domain::Puddle, PUDDLE_RIGHT, FeatureId::Farewell),
            release_claim(Domain::Courtesy, DOME, FeatureId::Farewell),
        ];
        assert(Effect::all(r@) =~= Farewell::lights_released());
        r
    }

    fn give_up(&mut self) -> (r: Vec<Output>)
        ensures
            *final(self) == old(self).to(FarewellPhase::Idle),
            Effect::all(r@) == old(self).given_up(),
    {
        let r = match self.phase {
            FarewellPhase::Holding { .. } => Farewell::release_all(),
            _ => no_outputs(),
        };
        self.phase = FarewellPhase::Idle;
        r
    }

    /// Takes a value of the power state at time `now`.
    pub fn on_power(&mut self, val: &SignalValue, now: u64) -> (r: Vec<Output>)
        ensures
            (*final(self), Effect::all(r@)) == old(self).after(FarewellEvent::Power(val@, now)),
    {
        let was_on = self.powered_on;
        let now_on = is_power_on(val);
        self.powered_on = now_on;
        if was_on && !now_on {
            self.phase = FarewellPhase::Armed { arm_deadline: clock::deadline(now, self.arm_window) };
            no_outputs()
        } else if !was_on && now_on {
            self.give_up()
        } else {
            no_outputs()
        }
    }

    /// Takes a value of the cabin lock status.
    pub fn on_lock_status(&mut self, val: &SignalValue) -> (r: Vec<Output>)
        ensures
            (*final(self), Effect::all(r@)) == old(self).after(FarewellEvent::LockStatus(val@)),
    {
        if let FarewellPhase::Holding { .. } = self.phase {
            if val.is_text(STATUS_LOCKED) || val.is_text(STATUS_DOUBLE_LOCKED) {
                return self.give_up();
            }
        }
        no_outputs()
    }

    /// Takes a value of an open-state signal of a door at time `now`.
    pub fn on_door(&mut self, val: &SignalValue, now: u64) -> (r: Vec<Output>)
        ensures
            (*final(self), Effect::all(r@)) == old(self).after(FarewellEvent::Door(val@, now)),
    {
        if let FarewellPhase::Armed { .. } = self.phase {
            if val.is_true() {
                self.phase = FarewellPhase::Holding { hold_deadline: clock::deadline(now, self.hold) };
                return Farewell::claim_all();
            }
        }
        no_outputs()
    }

    /// Takes the time.
    pub fn on_tick(&mut self, now: u64) -> (r: Vec<Output>)
        ensures
            (*final(self), Effect::all(r@)) == old(self).after(FarewellEvent::Tick(now)),
    {
        match self.deadline() {
            Some(t) => {
                if now >= t {
                    self.give_up()
                } else {
                    no_outputs()
                }
            },
            None => no_outputs(),
        }
    }
}

/// The state after a run of events.
pub open spec fn run(s: Farewell, events: Seq<FarewellEvent>) -> Farewell
    decreases events.len(),
{
    if events.len() == 0 {
        s
    } else {
        run(s, events.drop_last()).after(events.last()).0
    }
}

/// While the vehicle is on, the feature is idle, whatever has happened.
pub proof fn law_idle_while_powered_on(s: Farewell, events: Seq<FarewellEvent>)
    requires
        s.valid(),
    ensures
        run(s, events).valid(),
    decreases events.len(),
{
    if events.len() > 0 {
        law_idle_while_powered_on(s, events.drop_last());
    }
}

/// The lights are claimed exactly when the hold begins, given back exactly when
/// it ends, and left alone otherwise. So they are never left on by mistake.
pub proof fn law_lights_follow_hold(s: Farewell, event: FarewellEvent)
    requires
        s.valid(),
    ensures
        s.after(event).1 == if s.phase !is Holding && s.after(event).0.phase is Holding {
            Farewell::lights_claimed()
        } else if s.phase is Holding && s.after(event).0.phase !is Holding {
            Farewell::lights_released()
        } else {
            Seq::empty()
        },
{
}

/// The hold begins only with a door that opens while the feature is armed, and
/// the feature is armed only by switching the vehicle off.
pub proof fn law_hold_needs_switch_off_and_door(s: Farewell, event: FarewellEvent)
    ensures
        s.phase !is Holding && s.after(event).0.phase is Holding ==> s.phase is Armed
            && event is Door && event->Door_0 == Value::Bool(true),
        s.phase !is Armed && s.after(event).0.phase is Armed ==> s.powered_on && event is Power
            && !event->Power_0.power_on(),
{
}

/// A door that opens after the arm window is over claims nothing.
pub proof fn law_arm_window_ends(s: Farewell, t: u64, v: Value, now: u64)
    requires
        s.phase matches FarewellPhase::Armed { arm_deadline } && t >= arm_deadline,
    ensures
        s.after(FarewellEvent::Tick(t)).0.after(FarewellEvent::Door(v, now)).1
            == Seq::<Effect>::empty(),
{
}

/// Locking, switching on, and the end of the hold span each give the lights back.
pub proof fn law_hold_ends(s: Farewell, v: Value, now: u64)
    requires
        s.phase is Holding,
        !s.powered_on,
    ensures
        v.locked_status() ==> s.after(FarewellEvent::LockStatus(v)) == (
            s.to(FarewellPhase::Idle),
            Farewell::lights_released(),
        ),
        v.power_on() ==> s.after(FarewellEvent::Power(v, now)).1 == Farewell::lights_released(),
        now >= s.phase->hold_deadline ==> s.after(FarewellEvent::Tick(now)) == (
            s.to(FarewellPhase::Idle),
            Farewell::lights_released(),
        ),
        now < s.phase->hold_deadline ==> s.after(FarewellEvent::Tick(now)) == (
            s,
            Seq::<Effect>::empty(),
        ),
{
}

} // verus!
