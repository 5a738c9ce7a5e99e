//! Door-open assist: the puddle lamps are on while a door is open in the dark,
//! whatever the ignition does.

use vstd::prelude::*;

use crate::arbiter::tables::{PUDDLE_LEFT, PUDDLE_RIGHT};
use crate::config::PlatformConfig;
use crate::features::doors;
use crate::features::doors::{any_set, no_flags};
use crate::ipc_message::{FeatureId, Priority, SignalValue, Value};
use crate::signal_bus::{
    claim_bool, no_outputs, release_claim, Domain, Effect, Output, VssPath,
};

verus! {

/// Ambient light.
pub const LUX_SIGNAL: VssPath = "Body.Lights.AmbientLightSensor.Illuminance";

/// Open-state signals of the doors.
pub const DOOR_OPEN_SIGNALS: [VssPath; 4] = [
    "Body.Doors.Row1.Left.IsOpen",
    "Body.Doors.Row1.Right.IsOpen",
    "Body.Doors.Row2.Left.IsOpen",
    "Body.Doors.Row2.Right.IsOpen",
];

/// State of the feature.
#[verifier::ext_equal]
pub struct AssistState {
    /// It is dark at this illuminance and below.
    pub threshold: u16,
    /// Which doors are open.
    pub open: Seq<bool>,
    /// The illuminance seen last. Bright until known.
    pub lux: u16,
    /// The lamps are claimed.
    pub claimed: bool,
}

impl AssistState {
    /// The state at start-up.
    pub open spec fn initial(threshold: u16) -> AssistState {
        AssistState { threshold, open: doors::none_set(), lux: u16::MAX, claimed: false }
    }

    /// The lamps are wanted.
    pub open spec fn want(self) -> bool {
        self.lux <= self.threshold && doors::any(self.open)
    }

    /// The effects of claiming the lamps.
    pub open spec fn lamps_claimed() -> Seq<Effect> {
        seq![
            Effect::claim(
                Domain::Puddle,
                PUDDLE_LEFT,
                Value::Bool(true),
                Priority::Low,
                FeatureId::DoorOpenAssist,
            ),
            Effect::claim(
                Domain::Puddle,
                PUDDLE_RIGHT,
                Value::Bool(true),
                Priority::Low,
                FeatureId::DoorOpenAssist,
            ),
        ]
    }

    /// The effects of giving the lamps back.
    pub open spec fn lamps_released() -> Seq<Effect> {
        seq![
            Effect::release(Domain::Puddle, PUDDLE_LEFT, FeatureId::DoorOpenAssist),
            Effect::release(Domain::Puddle, PUDDLE_RIGHT, FeatureId::DoorOpenAssist),
        ]
    }

    /// The state and the effects once the claim is brought up to date.
    pub open spec fn reconciled(self) -> (AssistState, Seq<Effect>) {
        (
            AssistState { claimed: self.want(), ..self },
            if self.want() && !self.claimed {
                AssistState::lamps_claimed()
            } else if !self.want() && self.claimed {
                AssistState::lamps_released()
            } else {
                Seq::empty()
            },
        )
    }

    /// The state and the effects after a value of the ambient light.
    pub open spec fn after_lux(self, v: Value) -> (AssistState, Seq<Effect>) {
        match v {
            Value::Uint16(lux) => (AssistState { lux, ..self }).reconciled(),
            _ => self.reconciled(),
        }
    }

    /// The state and the effects after a value of the door at position `i`.
    pub open spec fn after_door(self, i: int, v: Value) -> (AssistState, Seq<Effect>) {
        match v.flag() {
            Some(b) => (AssistState { open: self.open.update(i, b), ..self }).reconciled(),
            None => self.reconciled(),
        }
    }
}

/// The door-open-assist feature.
pub struct DoorOpenAssist {
    lux_threshold: u16,
    door_open: [bool; 4],
    lux: u16,
    claimed: bool,
}

impl View for DoorOpenAssist {
    type V = AssistState;

    closed spec fn view(&self) -> AssistState {
        AssistState {
            threshold: self.lux_threshold,
            open: self.door_open@,
            lux: self.lux,
            claimed: self.claimed,
        }
    }
}

impl DoorOpenAssist {
    /// The feature with the threshold of the vehicle line.
    pub fn new(cfg: &PlatformConfig) -> (r: DoorOpenAssist)
        ensures
            r@ == AssistState::initial(cfg.vehicle_line.auto_headlamp_lux_threshold),
    {
        DoorOpenAssist {
            lux_threshold: cfg.vehicle_line.auto_headlamp_lux_threshold,
            door_open: no_flags(),
            lux: u16::MAX,
            claimed: false,
        }
    }

    /// The same feature with another threshold.
    pub fn with_lux_threshold(self, lux: u16) -> (r: DoorOpenAssist)
        ensures
            r@ == (AssistState { threshold: lux, ..self@ }),
    {
        DoorOpenAssist {
            lux_threshold: lux,
            door_open: self.door_open,
            lux: self.lux,
            claimed: self.claimed,
        }
    }

    fn reconcile(&mut self) -> (r: Vec<Output>)
        ensures
            (final(self)@, Effect::all(r@)) == old(self)@.reconciled(),
    {
        let want_claim = self.lux <= self.lux_threshold && any_set(&self.door_open);
        if want_claim && !self.claimed {
            self.claimed = true;
            let r = vec![
                claim_bool(
                    Domain::Puddle,
                    PUDDLE_LEFT,
                    true,
                    Priority::Low,
                    FeatureId::DoorOpenAssist,
                ),
                claim_bool(
                    Domain::Puddle,
                    PUDDLE_RIGHT,
                    true,
                    Priority::Low,
                    FeatureId::DoorOpenAssist,
                ),
            ];
            assert(Effect::all(r@) =~= AssistState::lamps_claimed());
            r
        } else if !want_claim && self.claimed {
            self.claimed = false;
            let r = vec![
                release_claim(Domain::Puddle, PUDDLE_LEFT, FeatureId::DoorOpenAssist),
                release_claim(Domain::Puddle, PUDDLE_RIGHT, FeatureId::DoorOpenAssist),
            ];
            assert(Effect::all(r@) =~= AssistState::lamps_released());
            r
        } else {
            no_outputs()
        }
    }

    /// Takes a value of the ambient light.
    pub fn on_lux(&mut self, val: &SignalValue) -> (r: Vec<Output>)
        ensures
            (final(self)@, Effect::all(r@)) == old(self)@.after_lux(val@),
    {
        if let SignalValue::Uint16(lux) = val {
            self.lux = *lux;
        }
        self.reconcile()
    }

    /// Takes a value of the door at position `i`.
    pub fn on_door(&mut self, i: usize, val: &SignalValue) -> (r: Vec<Output>)
        requires
            i < 4,
        ensures
            (final(self)@, Effect::all(r@)) == old(self)@.after_door(i as int, val@),
    {
        let ghost before = self@;
        if let Some(b) = val.as_bool() {
            self.door_open[i] = b;
            assert(self@ =~= (AssistState { open: before.open.update(i as int, b), ..before }));
        }
        self.reconcile()
    }
}

/// After every input the lamps are claimed exactly when it is dark and a door is
/// open.
pub proof fn law_claim_follows_dark_and_door(s: AssistState, i: int, v: Value)
    ensures
        s.after_lux(v).0.claimed == s.after_lux(v).0.want(),
        s.after_door(i, v).0.claimed == s.after_door(i, v).0.want(),
{
}

/// The lamps are claimed when they become wanted, given back when they stop being
/// wanted, and left alone otherwise.
pub proof fn law_effects_follow_claim(s: AssistState)
    ensures
        s.reconciled().1 == if s.reconciled().0.claimed && !s.claimed {
            AssistState::lamps_claimed()
        } else if !s.reconciled().0.claimed && s.claimed {
            AssistState::lamps_released()
        } else {
            Seq::empty()
        },
        s.reconciled().0.reconciled() == (s.reconciled().0, Seq::<Effect>::empty()),
{
}

} // verus!
