//! Fog lamps: front and rear, each by its own switch, with the ignition on.

use vstd::prelude::*;

use crate::features::power::is_power_on;
use crate::ipc_message::{SignalValue, Value};
use crate::signal_bus::{publish_bool, Effect, Output, VssPath};

verus! {

/// Switch of the front fog lamps.
pub const FRONT_SWITCH: VssPath = "Body.Switches.Fog.Front.IsEngaged";

/// Switch of the rear fog lamp.
pub const REAR_SWITCH: VssPath = "Body.Switches.Fog.Rear.IsEngaged";

/// Front fog lamps.
pub const FRONT_OUT: VssPath = "Body.Lights.Fog.Front.IsOn";

/// Rear fog lamp.
pub const REAR_OUT: VssPath = "Body.Lights.Fog.Rear.IsOn";

/// The fog-lamps feature.
#[derive(Debug, Clone, Copy, PartialEq, Eq)]
pub struct FogLamps {
    pub ignition_on: bool,
    pub front_sw: bool,
    pub rear_sw: bool,
}

/// Something that happens to the feature.
pub enum FogEvent {
    Power(Value),
    Front(Value),
    Rear(Value),
}

impl FogLamps {
    /// The effects of publishing both lamps.
    pub open spec fn lamps(self) -> Seq<Effect> {
        seq![
            Effect::publish(FRONT_OUT, Value::Bool(self.ignition_on && self.front_sw)),
            Effect::publish(REAR_OUT, Value::Bool(self.ignition_on && self.rear_sw)),
        ]
    }

    /// The state after an event.
    pub open spec fn after(self, event: FogEvent) -> FogLamps {
        match event {
            FogEvent::Power(v) => FogLamps { ignition_on: v.power_on(), ..self },
            FogEvent::Front(v) => FogLamps { front_sw: v == Value::Bool(true), ..self },
            FogEvent::Rear(v) => FogLamps { rear_sw: v == Value::Bool(true), ..self },
        }
    }

    /// The feature with everything off.
    pub fn new() -> (r: FogLamps)
        ensures
            r == (FogLamps { ignition_on: false, front_sw: false, rear_sw: false }),
    {
        FogLamps { ignition_on: false, front_sw: false, rear_sw: false }
    }

    fn apply(&self) -> (r: Vec<Output>)
        ensures
            Effect::all(r@) == self.lamps(),
    {
        let r = vec![
            publish_bool(FRONT_OUT, self.ignition_on && self.front_sw),
            publish_bool(REAR_OUT, self.ignition_on && self.rear_sw),
        ];
        assert(Effect::all(r@) =~= self.lamps());
        r
    }

    /// Takes a value of the power state.
    pub fn on_power(&mut self, val: &SignalValue) -> (r: Vec<Output>)
        ensures
            *final(self) == old(self).after(FogEvent::Power(val@)),
            Effect::all(r@) == final(self).lamps(),
    {
        self.ignition_on = is_power_on(val);
        self.apply()
    }

    /// Takes a value of the front switch.
    pub fn on_front(&mut self, val: &SignalValue) -> (r: Vec<Output>)
        ensures
            *final(self) == old(self).after(FogEvent::Front(val@)),
            Effect::all(r@) == final(self).lamps(),
    {
        self.front_sw = val.is_true();
        self.apply()
    }

    /// Takes a value of the rear switch.
    pub fn on_rear(&mut self, val: &SignalValue) -> (r: Vec<Output>)
        ensures
            *final(self) == old(self).after(FogEvent::Rear(val@)),
            Effect::all(r@) == final(self).lamps(),
    {
        self.rear_sw = val.is_true();
        self.apply()
    }
}

/// Without the ignition both lamps are off, whatever the switches say.
pub proof fn law_no_fog_without_ignition(s: FogLamps)
    requires
        !s.ignition_on,
    ensures
        s.lamps() == seq![
            Effect::publish(FRONT_OUT, Value::Bool(false)),
            Effect::publish(REAR_OUT, Value::Bool(false)),
        ],
{
}

/// The lamps are independent: a switch changes its own lamp only.
pub proof fn law_lamps_are_independent(s: FogLamps, v: Value)
    ensures
        s.after(FogEvent::Front(v)).lamps()[1] == s.lamps()[1],
        s.after(FogEvent::Rear(v)).lamps()[0] == s.lamps()[0],
{
}

} // verus!
