//! Follow me home: low beam, parking lights and licence plate light stay on for a
//! while when the driver leaves in the dark.

use vstd::prelude::*;

use crate::arbiter::tables::{LICENSE_PLATE, LOW_BEAM, PARKING_LIGHTS};
use crate::clock;
use crate::features::power::is_power_on;
use crate::ipc_message::{FeatureId, Priority, SignalValue, Value};
use crate::signal_bus::{
    claim_bool, no_outputs, release_claim, Domain, Effect, Output, VssPath,
};

verus! {

/// Ambient light.
pub const ILLUMINANCE: VssPath = "Body.Lights.AmbientLightSensor.Illuminance";

/// Open state of the driver door.
pub const DRIVER_DOOR: VssPath = "Body.Doors.Row1.Left.IsOpen";

/// How long the lights stay on, in seconds.
pub const FMH_DURATION_SECS: u64 = 45;

/// How long the lights stay on, in milliseconds.
pub const FMH_DURATION_MS: u64 = FMH_DURATION_SECS * 1000;

/// The follow-me-home feature.
#[derive(Debug, Clone, Copy, PartialEq, Eq)]
pub struct FollowMeHome {
    /// It is dark below this illuminance.
    pub lux_threshold: u16,
    /// The vehicle was off when its power state was seen last.
    pub armed: bool,
    /// The driver door is open.
    pub door_ajar: bool,
    /// The illuminance seen last. Bright until known.
    pub ambient_lux: u16,
    /// When the lights go off, if they are held.
    pub deadline: Option<u64>,
}

/// Something that happens to the feature.
pub enum HomeEvent {
    /// Value of the power state.
    Power(Value),
    /// Value of the driver door, and the time.
    Door(Value, u64),
    /// Value of the ambient light.
    Lux(Value),
    /// The clock has reached a time.
    Tick(u64),
}

impl FollowMeHome {
    /// The effects of claiming the lights.
    pub open spec fn lights_claimed() -> Seq<Effect> {
        seq![
            Effect::claim(
                Domain::LowBeam,
                LOW_BEAM,
                Value::Bool(true),
                Priority::High,
                FeatureId::FollowMeHome,
            ),
            Effect::claim(
                Domain::LowBeam,
                PARKING_LIGHTS,
                Value::Bool(true),
                Priority::High,
                FeatureId::FollowMeHome,
            ),
            Effect::claim(
                Domain::LowBeam,
                LICENSE_PLATE,
                Value::Bool(true),
                Priority::High,
                FeatureId::FollowMeHome,
            ),
        ]
    }

    /// The effects of giving the lights back.
    pub open spec fn lights_released() -> Seq<Effect> {
        seq![
            Effect::release(Domain::LowBeam, LOW_BEAM, FeatureId::FollowMeHome),
            Effect::release(Domain::LowBeam, PARKING_LIGHTS, FeatureId::FollowMeHome),
            Effect::release(Domain::LowBeam, LICENSE_PLATE, FeatureId::FollowMeHome),
        ]
    }

    /// The power state arms the feature: off, or the accessory position.
    pub open spec fn arms(v: Value) -> bool {
        v == Value::Text("OFF"@) || v == Value::Text("ACC"@)
    }

    /// It is dark.
    pub open spec fn dark(self) -> bool {
        self.ambient_lux < self.lux_threshold
    }

    /// The state and the effects after an event.
    pub open spec fn after(self, event: HomeEvent) -> (FollowMeHome, Seq<Effect>) {
        match event {
            HomeEvent::Power(v) => {
                if v.power_on() {
                    (
                        FollowMeHome { armed: false, deadline: None, ..self },
                        if self.deadline is Some {
                            FollowMeHome::lights_released()
                        } else {
                            Seq::empty()
                        },
                    )
                } else {
                    (FollowMeHome { armed: FollowMeHome::arms(v), ..self }, Seq::empty())
                }
            },
            HomeEvent::Door(v, now) => {
                let s = FollowMeHome { door_ajar: v == Value::Bool(true), ..self };
                if !self.door_ajar && s.door_ajar && self.armed && self.dark() {
                    (
                        FollowMeHome {
                            deadline: Some(clock::later(now, FMH_DURATION_MS)),
                            ..s
                        },
                        FollowMeHome::lights_claimed(),
                    )
                } else {
                    (s, Seq::empty())
                }
            },
            HomeEvent::Lux(v) => match v {
                Value::Uint16(lux) => (FollowMeHome { ambient_lux: lux, ..self }, Seq::empty()),
                _ => (self, Seq::empty()),
            },
            HomeEvent::Tick(now) => {
                if self.deadline is Some && now >= self.deadline->0 {
                    (FollowMeHome { deadline: None, ..self }, FollowMeHome::lights_released())
                } else {
                    (self, Seq::empty())
                }
            },
        }
    }

    /// The feature with this threshold.
    pub fn new(lux_threshold: u16) -> (r: FollowMeHome)
        ensures
            r == (FollowMeHome {
                lux_threshold,
                armed: false,
                door_ajar: false,
                ambient_lux: u16::MAX,
                deadline: None,
            }),
    {
        FollowMeHome {
            lux_threshold,
            armed: false,
            door_ajar: false,
            ambient_lux: u16::MAX,
            deadline: None,
        }
    }

    /// When the lights go off, if they are held.
    pub fn deadline(&self) -> (r: Option<u64>)
        ensures
            r == self.deadline,
    {
        self.deadline
    }

    fn claim_all() -> (r: Vec<Output>)
        ensures
            Effect::all(r@) == FollowMeHome::lights_claimed(),
    {
        let r = vec![
            claim_bool(
                Domain::LowBeam,
                LOW_BEAM,
                true,
                Priority::High,
                FeatureId::FollowMeHome,
            ),
            claim_bool(
                Domain::LowBeam,
                PARKING_LIGHTS,
                true,
                Priority::High,
                FeatureId::FollowMeHome,
            ),
            claim_bool(
                Domain::LowBeam,
                LICENSE_PLATE,
                true,
                Priority::High,
                FeatureId::FollowMeHome,
            ),
        ];
        assert(Effect::all(r@) =~= FollowMeHome::lights_claimed());
        r
    }

    fn release_all() -> (r: Vec<Output>)
        ensures
            Effect::all(r@) == FollowMeHome::lights_released(),
    {
        let r = vec![
            release_claim(Domain::LowBeam, LOW_BEAM, FeatureId::FollowMeHome),
            release_claim(Domain::LowBeam, PARKING_LIGHTS, FeatureId::FollowMeHome),
            release_claim(Domain::LowBeam, LICENSE_PLATE, FeatureId::FollowMeHome),
        ];
        assert(Effect::all(r@) =~= FollowMeHome::lights_released());
        r
    }

    /// Takes a value of the power state.
    pub fn on_power(&mut self, val: &SignalValue) -> (r: Vec<Output>)
        ensures
            (*final(self), Effect::all(r@)) == old(self).after(HomeEvent::Power(val@)),
    {
        if is_power_on(val) {
            self.armed = false;
            let held = self.deadline.is_some();
            self.deadline = None;
            if held {
                return FollowMeHome::release_all();
            }
        } else {
            self.armed = val.is_text("OFF") || val.is_text("ACC");
        }
        no_outputs()
    }

    /// Takes a value of the driver door at time `now`.
    pub fn on_door(&mut self, val: &SignalValue, now: u64) -> (r: Vec<Output>)
        ensures
            (*final(self), Effect::all(r@)) == old(self).after(HomeEvent::Door(val@, now)),
    {
        let was_ajar = self.door_ajar;
        self.door_ajar = val.is_true();
        if !was_ajar && self.door_ajar && self.armed && self.ambient_lux < self.lux_threshold {
            self.deadline = Some(clock::deadline(now, FMH_DURATION_MS));
            FollowMeHome::claim_all()
        } else {
            no_outputs()
        }
    }

    /// Takes a value of the ambient light.
    pub fn on_lux(&mut self, val: &SignalValue) -> (r: Vec<Output>)
        ensures
            (*final(self), Effect::all(r@)) == old(self).after(HomeEvent::Lux(val@)),
    {
        if let SignalValue::Uint16(lux) = val {
            self.ambient_lux = *lux;
        }
        no_outputs()
    }

    /// Takes the time.
    pub fn on_tick(&mut self, now: u64) -> (r: Vec<Output>)
        ensures
            (*final(self), Effect::all(r@)) == old(self).after(HomeEvent::Tick(now)),
    {
        if let Some(d) = self.deadline {
            if now >= d {
                self.deadline = None;
                return FollowMeHome::release_all();
            }
        }
        no_outputs()
    }
}

/// The lights are claimed exactly when the driver door opens while the vehicle is
/// off and it is dark.
pub proof fn law_trigger(s: FollowMeHome, event: HomeEvent)
    ensures
        s.after(event).1 == FollowMeHome::lights_claimed() <==> event is Door && event->Door_0
            == Value::Bool(true) && !s.door_ajar && s.armed && s.dark(),
{
    assert(FollowMeHome::lights_claimed()[0] is Claim);
    assert(FollowMeHome::lights_released()[0] is Release);
    assert(Seq::<Effect>::empty().len() != FollowMeHome::lights_claimed().len());
    assert(Seq::<Effect>::empty().len() != FollowMeHome::lights_released().len());
}

/// The lights are given back exactly when they stop being held: at the end of
/// their span, or when the vehicle is switched on. They are held in between.
pub proof fn law_lights_are_given_back(s: FollowMeHome, event: HomeEvent)
    ensures
        s.deadline is Some && s.after(event).0.deadline is None <==> s.after(event).1
            == FollowMeHome::lights_released(),
        s.deadline is Some && s.after(event).0.deadline is None ==> {
            ||| event is Tick && event->Tick_0 >= s.deadline->0
            ||| event is Power && event->Power_0.power_on()
        },
        s.deadline is None && s.after(event).0.deadline is Some ==> s.after(event).1
            == FollowMeHome::lights_claimed(),
{
    assert(FollowMeHome::lights_claimed()[0] is Claim);
    assert(FollowMeHome::lights_released()[0] is Release);
    assert(Seq::<Effect>::empty().len() != FollowMeHome::lights_claimed().len());
    assert(Seq::<Effect>::empty().len() != FollowMeHome::lights_released().len());
}

/// The feature is armed exactly while the power state is off or the accessory
/// position: every other power state disarms it, and nothing but a power state
/// changes it. Lights that are held stay on unless the vehicle is switched on.
pub proof fn law_armed_by_off_or_accessory(s: FollowMeHome, v: Value, event: HomeEvent)
    ensures
        s.after(HomeEvent::Power(v)).0.armed == FollowMeHome::arms(v),
        event !is Power ==> s.after(event).0.armed == s.armed,
        !v.power_on() ==> s.after(HomeEvent::Power(v)).0.deadline == s.deadline
            && s.after(HomeEvent::Power(v)).1 == Seq::<Effect>::empty(),
{
    if FollowMeHome::arms(v) {
        crate::features::power::law_on_and_off_exclude_each_other(v);
    }
}

/// While the vehicle is on, the feature is not armed and holds nothing.
pub proof fn law_nothing_held_while_on(s: FollowMeHome, v: Value, w: Value, now: u64)
    requires
        v.power_on(),
    ensures
        ({
            let on = s.after(HomeEvent::Power(v)).0;
            on.deadline is None && on.after(HomeEvent::Door(w, now)).1 == Seq::<Effect>::empty()
        }),
{
}

/// The lights stay on for the whole span after the door opened last.
pub proof fn law_span(s: FollowMeHome, now: u64, t: u64)
    requires
        !s.door_ajar,
        s.armed,
        s.dark(),
        now <= u64::MAX - 45000,
    ensures
        ({
            let lit = s.after(HomeEvent::Door(Value::Bool(true), now)).0;
            lit.after(HomeEvent::Tick(t)).0.deadline is Some <==> t < now + 45000
        }),
{
}

} // verus!
