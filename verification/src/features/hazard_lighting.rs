//! Hazard lighting: both direction indicators signal while the hazard switch is
//! engaged, whatever the ignition does.

use vstd::prelude::*;

use crate::arbiter::tables::{LEFT_INDICATOR, RIGHT_INDICATOR};
use crate::ipc_message::{FeatureId, Priority, SignalValue, Value};
use crate::signal_bus::{claim_bool, release_claim, Domain, Effect, Output, VssPath};

verus! {

/// The hazard switch.
pub const HAZARD_SWITCH: VssPath = "Body.Switches.Hazard.IsEngaged";

/// The hazard-lighting feature. It keeps no state.
#[derive(Debug, Clone, Copy)]
pub struct HazardLighting {}

impl HazardLighting {
    /// The effects of a value of the switch.
    pub open spec fn effects(v: Value) -> Seq<Effect> {
        if v == Value::Bool(true) {
            seq![
                Effect::claim(
                    Domain::Lighting,
                    LEFT_INDICATOR,
                    Value::Bool(true),
                    Priority::High,
                    FeatureId::Hazard,
                ),
                Effect::claim(
                    Domain::Lighting,
                    RIGHT_INDICATOR,
                    Value::Bool(true),
                    Priority::High,
                    FeatureId::Hazard,
                ),
            ]
        } else {
            seq![
                Effect::release(Domain::Lighting, LEFT_INDICATOR, FeatureId::Hazard),
                Effect::release(Domain::Lighting, RIGHT_INDICATOR, FeatureId::Hazard),
            ]
        }
    }

    /// The feature.
    pub fn new() -> (r: HazardLighting)
        ensures
            r == (HazardLighting {}),
    {
        HazardLighting {}
    }

    /// Takes a value of the switch. Everything but `true` gives the indicators
    /// back.
    pub fn on_switch(&self, val: &SignalValue) -> (r: Vec<Output>)
        ensures
            Effect::all(r@) == HazardLighting::effects(val@),
    {
        let r = if val.is_true() {
            vec![
                claim_bool(
                    Domain::Lighting,
                    LEFT_INDICATOR,
                    true,
                    Priority::High,
                    FeatureId::Hazard,
                ),
                claim_bool(
                    Domain::Lighting,
                    RIGHT_INDICATOR,
                    true,
                    Priority::High,
                    FeatureId::Hazard,
                ),
            ]
        } else {
            vec![
                release_claim(Domain::Lighting, LEFT_INDICATOR, FeatureId::Hazard),
                release_claim(Domain::Lighting, RIGHT_INDICATOR, FeatureId::Hazard),
            ]
        };
        assert(Effect::all(r@) =~= HazardLighting::effects(val@));
        r
    }
}

} // verus!
