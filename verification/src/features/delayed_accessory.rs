//! Delayed accessory power: accessories stay powered for a while after the
//! vehicle is switched off, until a door opens.

use vstd::prelude::*;

use crate::clock;
use crate::features::power::is_ign_on;
use crate::ipc_message::{SignalValue, Value};
use crate::signal_bus::{no_outputs, publish_bool, Effect, Output, VssPath};

verus! {

/// True while accessories are powered.
pub const DAP_OUT: VssPath = "Body.Power.DelayedAccessory.IsActive";

/// Open-state signals of the doors.
pub const DOOR_OPEN_SIGNALS: [VssPath; 4] = [
    "Body.Doors.Row1.Left.IsOpen",
    "Body.Doors.Row1.Right.IsOpen",
    "Body.Doors.Row2.Left.IsOpen",
    "Body.Doors.Row2.Right.IsOpen",
];

/// Default countdown after switch-off, in milliseconds.
pub const DEFAULT_TIMEOUT_MS: u64 = 120_000;

/// The delayed-accessory feature.
#[derive(Debug, Clone, Copy, PartialEq, Eq)]
pub struct DelayedAccessory {
    /// Countdown after switch-off, in milliseconds.
    pub timeout: u64,
    /// The vehicle is on.
    pub ign_on: bool,
    /// When the countdown is over, if it runs.
    pub deadline: Option<u64>,
    /// What was published last.
    pub published: bool,
}

/// Something that happens to the feature.
pub enum AccessoryEvent {
    /// Value of the power state, and the time.
    Power(Value, u64),
    /// Value of an open-state signal of a door.
    Door(Value),
    /// The clock has reached a time.
    Tick(u64),
}

impl DelayedAccessory {
    /// Accessories are powered: the vehicle is on, or the countdown runs.
    pub open spec fn active(self) -> bool {
        self.ign_on || self.deadline is Some
    }

    /// What was published last is what holds.
    pub open spec fn valid(self) -> bool {
        self.published == self.active()
    }

    /// The state and the effects once the output is brought up to date.
    pub open spec fn updated(self) -> (DelayedAccessory, Seq<Effect>) {
        if self.published == self.active() {
            (self, Seq::empty())
        } else {
            (
                DelayedAccessory { published: self.active(), ..self },
                seq![Effect::publish(DAP_OUT, Value::Bool(self.active()))],
            )
        }
    }

    /// The state and the effects after an event.
    pub open spec fn after(self, event: AccessoryEvent) -> (DelayedAccessory, Seq<Effect>) {
        match event {
            AccessoryEvent::Power(v, now) => {
                if v is Text && v.power_on() != self.ign_on {
                    (DelayedAccessory {
                        ign_on: v.power_on(),
                        deadline: if v.power_on() {
                            None
                        } else {
                            Some(clock::later(now, self.timeout))
                        },
                        ..self
                    }).updated()
                } else {
                    (self, Seq::empty())
                }
            },
            AccessoryEvent::Door(v) => {
                if v == Value::Bool(true) && !self.ign_on && self.deadline is Some {
                    (DelayedAccessory { deadline: None, ..self }).updated()
                } else {
                    (self, Seq::empty())
                }
            },
            AccessoryEvent::Tick(now) => {
                if self.deadline is Some && now >= self.deadline->0 {
                    (DelayedAccessory { deadline: None, ..self }).updated()
                } else {
                    (self, Seq::empty())
                }
            },
        }
    }

    /// The feature with the default countdown.
    pub fn new() -> (r: DelayedAccessory)
        ensures
            r == (DelayedAccessory {
                timeout: DEFAULT_TIMEOUT_MS,
                ign_on: false,
                deadline: None,
                published: false,
            }),
            r.valid(),
    {
        DelayedAccessory {
            timeout: DEFAULT_TIMEOUT_MS,
            ign_on: false,
            deadline: None,
            published: false,
        }
    }

    /// The same feature with another countdown, in milliseconds.
    pub fn with_timeout(self, timeout: u64) -> (r: DelayedAccessory)
        ensures
            r == (DelayedAccessory { timeout, ..self }),
    {
        DelayedAccessory { timeout, ..self }
    }

    /// The outputs at start-up, when the power state is not known yet.
    pub fn boot(&self) -> (r: Vec<Output>)
        ensures
            Effect::all(r@) == seq![Effect::publish(DAP_OUT, Value::Bool(false))],
    {
        let r = vec![publish_bool(DAP_OUT, false)];
        assert(Effect::all(r@) =~= seq![Effect::publish(DAP_OUT, Value::Bool(false))]);
        r
    }

    /// When the countdown is over, if it runs.
    pub fn deadline(&self) -> (r: Option<u64>)
        ensures
            r == self.deadline,
    {
        self.deadline
    }

    /// True iff accessories are powered.
    pub fn compute(&self) -> (r: bool)
        ensures
            r == self.active(),
    {
        self.ign_on || self.deadline.is_some()
    }

    fn publish(&mut self) -> (r: Vec<Output>)
        ensures
            (*final(self), Effect::all(r@)) == old(self).updated(),
    {
        let want = self.compute();
        if self.published == want {
            no_outputs()
        } else {
            self.published = want;
            let r = vec![publish_bool(DAP_OUT, want)];
            assert(Effect::all(r@) =~= seq![Effect::publish(DAP_OUT, Value::Bool(want))]);
            r
        }
    }

    /// Takes a value of the power state at time `now`.
    pub fn on_power(&mut self, val: &SignalValue, now: u64) -> (r: Vec<Output>)
        ensures
            (*final(self), Effect::all(r@)) == old(self).after(AccessoryEvent::Power(val@, now)),
    {
        if let SignalValue::String(s) = val {
            let now_on = is_ign_on(s.as_str());
            if now_on != self.ign_on {
                self.deadline = if now_on {
                    None
                } else {
                    Some(clock::deadline(now, self.timeout))
                };
                self.ign_on = now_on;
                return self.publish();
            }
        }
        no_outputs()
    }

    /// Takes a value of an open-state signal of a door.
    pub fn on_door(&mut self, val: &SignalValue) -> (r: Vec<Output>)
        ensures
            (*final(self), Effect::all(r@)) == old(self).after(AccessoryEvent::Door(val@)),
    {
        if val.is_true() && !self.ign_on && self.deadline.is_some() {
            self.deadline = None;
            self.publish()
        } else {
            no_outputs()
        }
    }

    /// Takes the time.
    pub fn on_tick(&mut self, now: u64) -> (r: Vec<Output>)
        ensures
            (*final(self), Effect::all(r@)) == old(self).after(AccessoryEvent::Tick(now)),
    {
        if let Some(d) = self.deadline {
            if now >= d {
                self.deadline = None;
                return self.publish();
            }
        }
        no_outputs()
    }
}

/// The state after a run of events.
pub open spec fn run(s: DelayedAccessory, events: Seq<AccessoryEvent>) -> DelayedAccessory
    decreases events.len(),
{
    if events.len() == 0 {
        s
    } else {
        run(s, events.drop_last()).after(events.last()).0
    }
}

/// What was published last is always what holds.
pub proof fn law_output_is_in_step(s: DelayedAccessory, events: Seq<AccessoryEvent>)
    requires
        s.valid(),
    ensures
        run(s, events).valid(),
    decreases events.len(),
{
    if events.len() > 0 {
        law_output_is_in_step(s, events.drop_last());
    }
}

/// The output is published exactly when it changes.
pub proof fn law_publishes_changes_only(s: DelayedAccessory, event: AccessoryEvent)
    requires
        s.valid(),
    ensures
        s.after(event).1 == if s.active() != s.after(event).0.active() {
            seq![Effect::publish(DAP_OUT, Value::Bool(s.after(event).0.active()))]
        } else {
            Seq::empty()
        },
{
}

/// While the vehicle is on, accessories are powered, and no door or time changes
/// that.
pub proof fn law_powered_while_on(s: DelayedAccessory, v: Value, now: u64)
    requires
        s.valid(),
        s.ign_on,
    ensures
        s.active(),
        s.after(AccessoryEvent::Door(v)) == (s, Seq::<Effect>::empty()),
        s.after(AccessoryEvent::Tick(now)).0.active(),
{
}

/// Switching off keeps accessories powered for the countdown: until it is over or
/// a door opens, and not longer.
pub proof fn law_countdown(s: DelayedAccessory, off: Value, now: u64, t: u64)
    requires
        s.valid(),
        s.ign_on,
        off is Text,
        !off.power_on(),
    ensures
        ({
            let counting = s.after(AccessoryEvent::Power(off, now));
            &&& counting.0.active()
            &&& counting.1 == Seq::<Effect>::empty()
            &&& counting.0.after(AccessoryEvent::Tick(t)).0.active() == (t < clock::later(
                now,
                s.timeout,
            ))
            &&& counting.0.after(AccessoryEvent::Door(Value::Bool(true))).1
                == seq![Effect::publish(DAP_OUT, Value::Bool(false))]
        }),
{
}

/// Switching on again ends the countdown and keeps accessories powered.
pub proof fn law_power_on_cancels_countdown(s: DelayedAccessory, on: Value, now: u64)
    requires
        s.valid(),
        !s.ign_on,
        on.power_on(),
    ensures
        ({
            let next = s.after(AccessoryEvent::Power(on, now)).0;
            next.deadline is None && next.active()
        }),
{
}

/// A door that opens outside the countdown changes nothing.
pub proof fn law_door_matters_in_countdown_only(s: DelayedAccessory, v: Value)
    requires
        s.ign_on || s.deadline is None,
    ensures
        s.after(AccessoryEvent::Door(v)) == (s, Seq::<Effect>::empty()),
{
}

} // verus!
