//! Cabin trunk release: opens the trunk from inside, whatever the lock status. Each
//! press of the switch counts once, however long it is held. Valet mode is left to
//! the trunk arbiter.

use vstd::prelude::*;

use crate::arbiter::tables::TRUNK_OPEN_CMD;
use crate::ipc_message::{FeatureId, Priority, SignalValue, Value};
use crate::signal_bus::{
    claim_bool, no_outputs, release_claim, Domain, Effect, Output, VssPath,
};

verus! {

/// The switch.
pub const SWITCH: VssPath = "Body.Switches.Trunk.Release.IsPressed";

/// The cabin-trunk-release feature.
#[derive(Debug, Clone, Copy, PartialEq, Eq)]
pub struct CabinTrunkRelease {
    /// The switch is pressed.
    pub pressed: bool,
}

impl CabinTrunkRelease {
    /// The effects of opening the trunk: a pulse, and no feedback, which is for
    /// those outside.
    pub open spec fn pulse() -> Seq<Effect> {
        seq![
            Effect::claim(
                Domain::Trunk,
                TRUNK_OPEN_CMD,
                Value::Bool(true),
                Priority::Medium,
                FeatureId::CabinTrunkRelease,
            ),
            Effect::release(Domain::Trunk, TRUNK_OPEN_CMD, FeatureId::CabinTrunkRelease),
        ]
    }

    /// The state and the effects after a value of the switch.
    pub open spec fn after(self, v: Value) -> (CabinTrunkRelease, Seq<Effect>) {
        (
            CabinTrunkRelease { pressed: v == Value::Bool(true) },
            if v == Value::Bool(true) && !self.pressed {
                CabinTrunkRelease::pulse()
            } else {
                Seq::empty()
            },
        )
    }

    /// The feature with the switch released.
    pub fn new() -> (r: CabinTrunkRelease)
        ensures
            r == (CabinTrunkRelease { pressed: false }),
    {
        CabinTrunkRelease { pressed: false }
    }

    /// Takes a value of the switch.
    pub fn on_switch(&mut self, val: &SignalValue) -> (r: Vec<Output>)
        ensures
            (*final(self), Effect::all(r@)) == old(self).after(val@),
    {
        let now = val.is_true();
        let rising = now && !self.pressed;
        self.pressed = now;
        if rising {
            let r = vec![
                claim_bool(
                    Domain::Trunk,
                    TRUNK_OPEN_CMD,
                    true,
                    Priority::Medium,
                    FeatureId::CabinTrunkRelease,
                ),
                release_claim(Domain::Trunk, TRUNK_OPEN_CMD, FeatureId::CabinTrunkRelease),
            ];
            assert(Effect::all(r@) =~= CabinTrunkRelease::pulse());
            r
        } else {
            no_outputs()
        }
    }
}

/// A press opens the trunk once: holding the switch does nothing more, and neither
/// does letting it go.
pub proof fn law_one_pulse_per_press(s: CabinTrunkRelease, v: Value)
    ensures
        s.pressed || v != Value::Bool(true) ==> s.after(v).1 == Seq::<Effect>::empty(),
        s.after(v).0.after(v).1 == Seq::<Effect>::empty(),
        !s.pressed ==> s.after(Value::Bool(true)).1 == CabinTrunkRelease::pulse(),
{
}

} // verus!
