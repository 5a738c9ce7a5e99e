//! Manual lighting: low and high beam by light switch and stalk.

use vstd::prelude::*;

use crate::arbiter::tables::{HIGH_BEAM, LOW_BEAM};
use crate::features::power::is_power_on;
use crate::history;
use crate::ipc_message::{SignalValue, Value};
use crate::signal_bus::{no_outputs, publish_bool, Effect, Output, VssPath};

verus! {

/// Light switch.
pub const LIGHT_SWITCH: VssPath = "Body.Lights.LightSwitch";

/// High-beam stalk.
pub const HIGH_BEAM_SWITCH: VssPath = "Body.Switches.HighBeam.IsEngaged";

/// Ambient light.
pub const ILLUMINANCE: VssPath = "Body.Lights.AmbientLightSensor.Illuminance";

/// Position of the light switch.
#[derive(Debug, Clone, Copy, PartialEq, Eq, Structural)]
pub enum SwitchPos {
    Off,
    Position,
    Drl,
    Auto,
    Beam,
}

impl SwitchPos {
    /// The position that a value names. Every other value means off.
    pub open spec fn named(v: Value) -> SwitchPos {
        if v == Value::Text("POSITION"@) {
            SwitchPos::Position
        } else if v == Value::Text("DRL"@) {
            SwitchPos::Drl
        } else if v == Value::Text("AUTO"@) {
            SwitchPos::Auto
        } else if v == Value::Text("BEAM"@) {
            SwitchPos::Beam
        } else {
            SwitchPos::Off
        }
    }

    /// The position that a value names. Every other value means off.
    pub fn from_signal(val: &SignalValue) -> (r: SwitchPos)
        ensures
            r == SwitchPos::named(val@),
    {
        if val.is_text("POSITION") {
            SwitchPos::Position
        } else if val.is_text("DRL") {
            SwitchPos::Drl
        } else if val.is_text("AUTO") {
            SwitchPos::Auto
        } else if val.is_text("BEAM") {
            SwitchPos::Beam
        } else {
            SwitchPos::Off
        }
    }
}

/// The manual-lighting feature.
#[derive(Debug, Clone, Copy, PartialEq, Eq)]
pub struct ManualLighting {
    /// It is dark below this illuminance.
    pub auto_lux_threshold: u16,
    pub ignition_on: bool,
    pub switch_pos: SwitchPos,
    pub high_beam_engaged: bool,
    /// The illuminance seen last. Bright until known.
    pub ambient_lux: u16,
}

/// Something that happens to the feature.
pub enum LightingEvent {
    Power(Value),
    Switch(Value),
    HighBeam(Value),
    Lux(Value),
}

impl ManualLighting {
    /// The low beam is on.
    pub open spec fn low_on(self) -> bool {
        self.ignition_on && (self.switch_pos is Beam || self.switch_pos is Auto
            && self.ambient_lux < self.auto_lux_threshold)
    }

    /// The high beam is on.
    pub open spec fn high_on(self) -> bool {
        self.low_on() && self.high_beam_engaged
    }

    /// The effects of publishing both beams.
    pub open spec fn beams(self) -> Seq<Effect> {
        seq![
            Effect::publish(LOW_BEAM, Value::Bool(self.low_on())),
            Effect::publish(HIGH_BEAM, Value::Bool(self.high_on())),
        ]
    }

    /// The state after an event.
    pub open spec fn noted(self, event: LightingEvent) -> ManualLighting {
        match event {
            LightingEvent::Power(v) => ManualLighting { ignition_on: v.power_on(), ..self },
            LightingEvent::Switch(v) => ManualLighting {
                switch_pos: SwitchPos::named(v),
                ..self
            },
            LightingEvent::HighBeam(v) => ManualLighting {
                high_beam_engaged: v == Value::Bool(true),
                ..self
            },
            LightingEvent::Lux(v) => match v {
                Value::Uint16(lux) => ManualLighting { ambient_lux: lux, ..self },
                _ => self,
            },
        }
    }

    /// The state and the effects after an event: both beams are published, except
    /// on a light reading that is none.
    pub open spec fn after(self, event: LightingEvent) -> (ManualLighting, Seq<Effect>) {
        if event is Lux && event->Lux_0 !is Uint16 {
            (self, Seq::empty())
        } else {
            (self.noted(event), self.noted(event).beams())
        }
    }

    /// The feature with this threshold.
    pub fn new(auto_lux_threshold: u16) -> (r: ManualLighting)
        ensures
            r == (ManualLighting {
                auto_lux_threshold,
                ignition_on: false,
                switch_pos: SwitchPos::Off,
                high_beam_engaged: false,
                ambient_lux: u16::MAX,
            }),
    {
        ManualLighting {
            auto_lux_threshold,
            ignition_on: false,
            switch_pos: SwitchPos::Off,
            high_beam_engaged: false,
            ambient_lux: u16::MAX,
        }
    }

    fn apply(&self) -> (r: Vec<Output>)
        ensures
            Effect::all(r@) == self.beams(),
    {
        let low_on = self.ignition_on && match self.switch_pos {
            SwitchPos::Beam => true,
            SwitchPos::Auto => self.ambient_lux < self.auto_lux_threshold,
            _ => false,
        };
        let high_on = low_on && self.high_beam_engaged;
        let r = vec![publish_bool(LOW_BEAM, low_on), publish_bool(HIGH_BEAM, high_on)];
        assert(Effect::all(r@) =~= self.beams());
        r
    }

    /// Takes a value of the power state.
    pub fn on_power(&mut self, val: &SignalValue) -> (r: Vec<Output>)
        ensures
            (*final(self), Effect::all(r@)) == old(self).after(LightingEvent::Power(val@)),
    {
        self.ignition_on = is_power_on(val);
        self.apply()
    }

    /// Takes a value of the light switch.
    pub fn on_switch(&mut self, val: &SignalValue) -> (r: Vec<Output>)
        ensures
            (*final(self), Effect::all(r@)) == old(self).after(LightingEvent::Switch(val@)),
    {
        self.switch_pos = SwitchPos::from_signal(val);
        self.apply()
    }

    /// Takes a value of the high-beam stalk.
    pub fn on_high_beam(&mut self, val: &SignalValue) -> (r: Vec<Output>)
        ensures
            (*final(self), Effect::all(r@)) == old(self).after(LightingEvent::HighBeam(val@)),
    {
        self.high_beam_engaged = val.is_true();
        self.apply()
    }

    /// Takes a value of the ambient light.
    pub fn on_lux(&mut self, val: &SignalValue) -> (r: Vec<Output>)
        ensures
            (*final(self), Effect::all(r@)) == old(self).after(LightingEvent::Lux(val@)),
    {
        if let SignalValue::Uint16(lux) = val {
            self.ambient_lux = *lux;
            self.apply()
        } else {
            no_outputs()
        }
    }
}

/// The high beam is on only with the low beam.
pub proof fn law_high_beam_needs_low_beam(s: ManualLighting)
    ensures
        s.high_on() ==> s.low_on(),
{
}

/// Nothing is on while the ignition is off.
pub proof fn law_no_beam_without_ignition(s: ManualLighting)
    requires
        !s.ignition_on,
    ensures
        !s.low_on(),
        !s.high_on(),
{
}

/// What each position of the switch means with the ignition on.
pub proof fn law_switch_positions(s: ManualLighting)
    requires
        s.ignition_on,
    ensures
        s.switch_pos is Off || s.switch_pos is Position || s.switch_pos is Drl ==> !s.low_on(),
        s.switch_pos is Beam ==> s.low_on(),
        s.switch_pos is Auto ==> s.low_on() == (s.ambient_lux < s.auto_lux_threshold),
        s.low_on() ==> s.high_on() == s.high_beam_engaged,
{
}

/// The state after a run of events.
pub open spec fn run(s: ManualLighting, events: Seq<LightingEvent>) -> ManualLighting
    decreases events.len(),
{
    if events.len() == 0 {
        s
    } else {
        run(s, events.drop_last()).after(events.last()).0
    }
}

/// Reads off an event whether the vehicle is on.
pub open spec fn ignition_seen() -> spec_fn(LightingEvent) -> Option<bool> {
    |e: LightingEvent|
        match e {
            LightingEvent::Power(v) => Some(
                v == Value::Text("ON"@) || v == Value::Text("START"@),
            ),
            _ => None,
        }
}

/// Reads off an event the value of the light switch.
pub open spec fn switch_seen() -> spec_fn(LightingEvent) -> Option<Value> {
    |e: LightingEvent|
        match e {
            LightingEvent::Switch(v) => Some(v),
            _ => None,
        }
}

/// Reads off an event whether the stalk is engaged.
pub open spec fn stalk_seen() -> spec_fn(LightingEvent) -> Option<bool> {
    |e: LightingEvent|
        match e {
            LightingEvent::HighBeam(v) => Some(v == Value::Bool(true)),
            _ => None,
        }
}

/// Reads off an event the illuminance.
pub open spec fn lux_seen() -> spec_fn(LightingEvent) -> Option<u16> {
    |e: LightingEvent|
        match e {
            LightingEvent::Lux(Value::Uint16(lux)) => Some(lux),
            _ => None,
        }
}

/// The low beam that a history calls for: the vehicle was seen on last, and the
/// switch seen last is at the beam, or at automatic with the latest illuminance
/// below the threshold.
pub open spec fn low_beam_due(threshold: u16, history: Seq<LightingEvent>) -> bool {
    let switch = history::latest(history, switch_seen());
    &&& history::latest(history, ignition_seen()) == Some(true)
    &&& {
        ||| switch == Some(Value::Text("BEAM"@))
        ||| switch == Some(Value::Text("AUTO"@)) && history::latest_or(
            history,
            lux_seen(),
            u16::MAX,
        ) < threshold
    }
}

proof fn lemma_state_is_latest(s: ManualLighting, threshold: u16, events: Seq<LightingEvent>)
    requires
        call_ensures(ManualLighting::new, (threshold,), s),
    ensures
        ({
            let t = run(s, events);
            let switch = history::latest_or(events, switch_seen(), Value::Text("OFF"@));
            &&& t.auto_lux_threshold == threshold
            &&& t.ignition_on == history::latest_or(events, ignition_seen(), false)
            &&& t.high_beam_engaged == history::latest_or(events, stalk_seen(), false)
            &&& t.ambient_lux == history::latest_or(events, lux_seen(), u16::MAX)
            &&& (t.switch_pos is Beam) == (switch == Value::Text("BEAM"@))
            &&& (t.switch_pos is Auto) == (switch == Value::Text("AUTO"@))
        }),
    decreases events.len(),
{
    reveal_strlit("OFF");
    reveal_strlit("POSITION");
    reveal_strlit("DRL");
    reveal_strlit("AUTO");
    reveal_strlit("BEAM");
    assert("AUTO"@[0] == 'A' && "BEAM"@[0] == 'B');
    assert("OFF"@.len() == 3 && "POSITION"@.len() == 8 && "DRL"@.len() == 3);
    assert("AUTO"@.len() == 4 && "BEAM"@.len() == 4);
    if events.len() > 0 {
        lemma_state_is_latest(s, threshold, events.drop_last());
    }
}

/// Over every run, what is published after an event is fixed by what was seen
/// last of each input: the low beam is on exactly when the history calls for it,
/// and the high beam exactly when the low beam is and the latest value of the
/// stalk is engaged. Only a light reading that is none publishes nothing.
pub proof fn law_beams_follow_latest_inputs(
    s: ManualLighting,
    threshold: u16,
    events: Seq<LightingEvent>,
    event: LightingEvent,
)
    requires
        call_ensures(ManualLighting::new, (threshold,), s),
    ensures
        ({
            let all = events.push(event);
            let low = low_beam_due(threshold, all);
            let high = low && history::latest(all, stalk_seen()) == Some(true);
            run(s, events).after(event).1 == if event matches LightingEvent::Lux(v) && v
                !is Uint16 {
                Seq::empty()
            } else {
                seq![
                    Effect::publish(LOW_BEAM, Value::Bool(low)),
                    Effect::publish(HIGH_BEAM, Value::Bool(high)),
                ]
            }
        }),
{
    let all = events.push(event);
    assert(all.drop_last() =~= events);
    lemma_state_is_latest(s, threshold, all);
    reveal_strlit("OFF");
    reveal_strlit("AUTO");
    reveal_strlit("BEAM");
    assert("OFF"@.len() == 3 && "AUTO"@.len() == 4 && "BEAM"@.len() == 4);
}

/// A value of the stalk takes effect at once: whatever came before, the high beam
/// published is on exactly when the low beam is on and that value is engaged.
pub proof fn law_stalk_is_followed(s: ManualLighting, v: Value)
    ensures
        ({
            let out = s.after(LightingEvent::HighBeam(v)).1;
            &&& out == seq![
                Effect::publish(LOW_BEAM, Value::Bool(s.low_on())),
                Effect::publish(HIGH_BEAM, Value::Bool(s.low_on() && v == Value::Bool(true))),
            ]
        }),
{
}

} // verus!
