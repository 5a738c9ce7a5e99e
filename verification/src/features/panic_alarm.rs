//! Panic alarm: direction indicators and horn pulse together while the panic
//! switch is engaged, whatever the ignition does.
//!
//! An unlock takes the switch back. A press while another alarm is active is
//! meant to cancel that alarm, and starts none of its own.

use vstd::prelude::*;

use crate::arbiter::tables::{HORN, LEFT_INDICATOR, RIGHT_INDICATOR};
use crate::clock;
use crate::ipc_message::{FeatureId, Priority, SignalValue, Value};
use crate::signal_bus::{
    claim_bool, no_outputs, publish_bool, release_claim, Domain, Effect, Output, VssPath,
};

verus! {

/// The panic switch.
pub const PANIC_SWITCH: VssPath = "Body.Switches.Panic.IsEngaged";

/// True while an alarm is active, whichever feature raised it.
pub const ALARM_STATUS: VssPath = "Vehicle.Body.Alarm.IsActive";

/// How long indicators and horn are on in a pulse, in milliseconds.
pub const ON_MS: u64 = 400;

/// How long indicators and horn are off in a pulse, in milliseconds.
pub const OFF_MS: u64 = 600;

/// A half of a pulse.
#[derive(Debug, Clone, Copy, PartialEq, Eq)]
pub struct Pulse {
    /// Indicators and horn are on.
    pub on: bool,
    /// When this half is over.
    pub until: u64,
}

/// The panic-alarm feature.
#[derive(Debug, Clone, Copy, PartialEq, Eq)]
pub struct PanicAlarm {
    /// The pulse that runs while the alarm is engaged.
    pub pulse: Option<Pulse>,
    /// The alarm status seen last.
    pub alarm_seen: bool,
}

/// Something that happens to the feature.
pub enum PanicEvent {
    /// Value of the panic switch, and the time.
    Switch(Value, u64),
    /// Value of the alarm status.
    AlarmStatus(Value),
    /// Value of the lock feedback request.
    Feedback(Value),
    /// The clock has reached a time.
    Tick(u64),
}

impl PanicAlarm {
    /// The alarm is engaged.
    pub open spec fn engaged(self) -> bool {
        self.pulse is Some
    }

    /// The effects of claiming indicators and horn.
    pub open spec fn claims(on: bool) -> Seq<Effect> {
        seq![
            Effect::claim(
                Domain::Lighting,
                LEFT_INDICATOR,
                Value::Bool(on),
                Priority::High,
                FeatureId::PanicAlarm,
            ),
            Effect::claim(
                Domain::Lighting,
                RIGHT_INDICATOR,
                Value::Bool(on),
                Priority::High,
                FeatureId::PanicAlarm,
            ),
            Effect::claim(
                Domain::Horn,
                HORN,
                Value::Bool(on),
                Priority::High,
                FeatureId::PanicAlarm,
            ),
        ]
    }

    /// The effects of giving indicators and horn back.
    pub open spec fn releases() -> Seq<Effect> {
        seq![
            Effect::release(Domain::Lighting, LEFT_INDICATOR, FeatureId::PanicAlarm),
            Effect::release(Domain::Lighting, RIGHT_INDICATOR, FeatureId::PanicAlarm),
            Effect::release(Domain::Horn, HORN, FeatureId::PanicAlarm),
        ]
    }

    /// The effect of publishing the alarm status.
    pub open spec fn status(on: bool) -> Seq<Effect> {
        seq![Effect::publish(ALARM_STATUS, Value::Bool(on))]
    }

    /// The effect of taking the switch back.
    pub open spec fn switch_off() -> Seq<Effect> {
        seq![Effect::publish(PANIC_SWITCH, Value::Bool(false))]
    }

    /// The state and the effects after an event.
    pub open spec fn after(self, event: PanicEvent) -> (PanicAlarm, Seq<Effect>) {
        match event {
            PanicEvent::Switch(v, now) => {
                let want = v == Value::Bool(true);
                if want == self.engaged() {
                    (self, Seq::empty())
                } else if want && self.alarm_seen {
                    (self, PanicAlarm::switch_off())
                } else if want {
                    (
                        PanicAlarm {
                            pulse: Some(Pulse { on: true, until: clock::later(now, ON_MS) }),
                            ..self
                        },
                        PanicAlarm::status(true) + PanicAlarm::claims(true),
                    )
                } else {
                    (
                        PanicAlarm { pulse: None, ..self },
                        PanicAlarm::releases() + PanicAlarm::status(false),
                    )
                }
            },
            PanicEvent::AlarmStatus(v) => match v.flag() {
                Some(b) => (PanicAlarm { alarm_seen: b, ..self }, Seq::empty()),
                None => (self, Seq::empty()),
            },
            PanicEvent::Feedback(v) => {
                if v == Value::Text("unlock"@) {
                    (self, PanicAlarm::switch_off())
                } else {
                    (self, Seq::empty())
                }
            },
            PanicEvent::Tick(now) => match self.pulse {
                Some(p) => {
                    if now >= p.until {
                        let span = if p.on {
                            OFF_MS
                        } else {
                            ON_MS
                        };
                        (
                            PanicAlarm {
                                pulse: Some(Pulse { on: !p.on, until: clock::later(now, span) }),
                                ..self
                            },
                            PanicAlarm::claims(!p.on),
                        )
                    } else {
                        (self, Seq::empty())
                    }
                },
                None => (self, Seq::empty()),
            },
        }
    }

    /// The feature, not engaged.
    pub fn new() -> (r: PanicAlarm)
        ensures
            r == (PanicAlarm { pulse: None, alarm_seen: false }),
    {
        PanicAlarm { pulse: None, alarm_seen: false }
    }

    /// When the current half of a pulse is over, if the alarm is engaged.
    pub fn deadline(&self) -> (r: Option<u64>)
        ensures
            r == match self.pulse {
                Some(p) => Some(p.until),
                None => None,
            },
    {
        match self.pulse {
            Some(p) => Some(p.until),
            None => None,
        }
    }

    fn claim_all(on: bool) -> (r: Vec<Output>)
        ensures
            Effect::all(r@) == PanicAlarm::claims(on),
    {
        let r = vec![
            claim_bool(
                Domain::Lighting,
                LEFT_INDICATOR,
                on,
                Priority::High,
                FeatureId::PanicAlarm,
            ),
            claim_bool(
                Domain::Lighting,
                RIGHT_INDICATOR,
                on,
                Priority::High,
                FeatureId::PanicAlarm,
            ),
            claim_bool(Domain::Horn, HORN, on, Priority::High, FeatureId::PanicAlarm),
        ];
        assert(Effect::all(r@) =~= PanicAlarm::claims(on));
        r
    }

    /// Gives indicators and horn back: on disengaging, and when the feature ends.
    pub fn release_all() -> (r: Vec<Output>)
        ensures
            Effect::all(r@) == PanicAlarm::releases(),
    {
        let r = vec![
            release_claim(Domain::Lighting, LEFT_INDICATOR, FeatureId::PanicAlarm),
            release_claim(Domain::Lighting, RIGHT_INDICATOR, FeatureId::PanicAlarm),
            release_claim(Domain::Horn, HORN, FeatureId::PanicAlarm),
        ];
        assert(Effect::all(r@) =~= PanicAlarm::releases());
        r
    }

    fn take_switch_back() -> (r: Vec<Output>)
        ensures
            Effect::all(r@) == PanicAlarm::switch_off(),
    {
        let r = vec![publish_bool(PANIC_SWITCH, false)];
        assert(Effect::all(r@) =~= PanicAlarm::switch_off());
        r
    }

    /// Takes a value of the panic switch at time `now`.
    pub fn on_switch(&mut self, val: &SignalValue, now: u64) -> (r: Vec<Output>)
        ensures
            (*final(self), Effect::all(r@)) == old(self).after(PanicEvent::Switch(val@, now)),
    {
        let want = val.is_true();
        let engaged = self.pulse.is_some();
        if want == engaged {
            no_outputs()
        } else if want && self.alarm_seen {
            PanicAlarm::take_switch_back()
        } else if want {
            self.pulse = Some(Pulse { on: true, until: clock::deadline(now, ON_MS) });
            let mut r = vec![publish_bool(ALARM_STATUS, true)];
            let mut claims = PanicAlarm::claim_all(true);
            r.append(&mut claims);
            assert(Effect::all(r@) =~= PanicAlarm::status(true) + PanicAlarm::claims(true));
            r
        } else {
            self.pulse = None;
            let mut r = PanicAlarm::release_all();
            let ghost given_back = r@;
            r.push(publish_bool(ALARM_STATUS, false));
            assert(Effect::all(r@) =~= Effect::all(given_back) + PanicAlarm::status(false));
            r
        }
    }

    /// Takes a value of the alarm status.
    pub fn on_alarm_status(&mut self, val: &SignalValue) -> (r: Vec<Output>)
        ensures
            (*final(self), Effect::all(r@)) == old(self).after(PanicEvent::AlarmStatus(val@)),
    {
        if let Some(b) = val.as_bool() {
            self.alarm_seen = b;
        }
        no_outputs()
    }

    /// Takes a value of the lock feedback request: an unlock takes the switch back.
    pub fn on_feedback(&self, val: &SignalValue) -> (r: Vec<Output>)
        ensures
            (*self, Effect::all(r@)) == self.after(PanicEvent::Feedback(val@)),
    {
        if val.is_text("unlock") {
            PanicAlarm::take_switch_back()
        } else {
            no_outputs()
        }
    }

    /// Takes the time.
    pub fn on_tick(&mut self, now: u64) -> (r: Vec<Output>)
        ensures
            (*final(self), Effect::all(r@)) == old(self).after(PanicEvent::Tick(now)),
    {
        if let Some(p) = self.pulse {
            if now >= p.until {
                let span = if p.on {
                    OFF_MS
                } else {
                    ON_MS
                };
                self.pulse = Some(Pulse { on: !p.on, until: clock::deadline(now, span) });
                return PanicAlarm::claim_all(!p.on);
            }
        }
        no_outputs()
    }
}

/// The alarm status is published exactly when the alarm is engaged or disengaged,
/// and never per pulse.
pub proof fn law_status_follows_engagement(s: PanicAlarm, event: PanicEvent, on: bool)
    ensures
        s.after(event).1.contains(Effect::publish(ALARM_STATUS, Value::Bool(on)))
            <==> s.engaged() != s.after(event).0.engaged() && s.after(event).0.engaged() == on,
{
    reveal_strlit("Body.Switches.Panic.IsEngaged");
    reveal_strlit("Vehicle.Body.Alarm.IsActive");
    assert(PANIC_SWITCH@[0] == 'B' && ALARM_STATUS@[0] == 'V');
    let e = Effect::publish(ALARM_STATUS, Value::Bool(on));
    let out = s.after(event).1;
    if s.engaged() != s.after(event).0.engaged() && s.after(event).0.engaged() == on {
        if on {
            assert(out[0] == e);
        } else {
            assert(out[3] == e);
        }
    }
    if out.contains(e) {
        let i = choose|i: int| 0 <= i < out.len() && out[i] == e;
        if event is Tick {
            assert(PanicAlarm::claims(true)[i] !is Publish);
            assert(PanicAlarm::claims(false)[i] !is Publish);
        }
    }
}

/// A repeated value of the switch changes nothing.
pub proof fn law_switch_is_idempotent(s: PanicAlarm, v: Value, now: u64)
    requires
        (v == Value::Bool(true)) == s.engaged(),
    ensures
        s.after(PanicEvent::Switch(v, now)) == (s, Seq::<Effect>::empty()),
{
}

/// Disengaging gives everything back that pulses claim.
pub proof fn law_disengage_releases_all(s: PanicAlarm, v: Value, now: u64)
    requires
        s.engaged(),
        v != Value::Bool(true),
    ensures
        !s.after(PanicEvent::Switch(v, now)).0.engaged(),
        s.after(PanicEvent::Switch(v, now)).1 == PanicAlarm::releases() + PanicAlarm::status(false),
{
}

/// While the alarm is not engaged, the passage of time does nothing.
pub proof fn law_no_pulse_unless_engaged(s: PanicAlarm, now: u64)
    requires
        !s.engaged(),
    ensures
        s.after(PanicEvent::Tick(now)) == (s, Seq::<Effect>::empty()),
{
}

/// A press while another alarm is active engages nothing and takes the switch
/// back.
pub proof fn law_press_during_other_alarm_cancels(s: PanicAlarm, now: u64)
    requires
        s.alarm_seen,
        !s.engaged(),
    ensures
        s.after(PanicEvent::Switch(Value::Bool(true), now)) == (s, PanicAlarm::switch_off()),
{
}

/// An unlock takes the switch back, and the switch being off ends the alarm. Other
/// feedback does nothing.
pub proof fn law_unlock_cancels(s: PanicAlarm, v: Value, now: u64)
    ensures
        s.after(PanicEvent::Feedback(Value::Text("unlock"@))).1
            == seq![Effect::publish(PANIC_SWITCH, Value::Bool(false))],
        !s.after(PanicEvent::Switch(Value::Bool(false), now)).0.engaged(),
        v != Value::Text("unlock"@) ==> s.after(PanicEvent::Feedback(v)) == (
            s,
            Seq::<Effect>::empty(),
        ),
{
}

/// Indicators and horn go on and off together: the halves of a pulse take turns,
/// the on half lasting its span, the off half its own.
pub proof fn law_pulse_cadence(s: PanicAlarm, now: u64)
    requires
        s.pulse is Some,
        now <= u64::MAX - 600,
    ensures
        now < s.pulse->0.until ==> s.after(PanicEvent::Tick(now)) == (s, Seq::<Effect>::empty()),
        now >= s.pulse->0.until ==> {
            let next = s.after(PanicEvent::Tick(now));
            &&& next.1 == PanicAlarm::claims(!s.pulse->0.on)
            &&& next.0.pulse == Some(
                Pulse {
                    on: !s.pulse->0.on,
                    until: if s.pulse->0.on {
                        (now + 600) as u64
                    } else {
                        (now + 400) as u64
                    },
                },
            )
        },
{
}

} // verus!
