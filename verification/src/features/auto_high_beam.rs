//! Auto high beam: the high beam is claimed off, at high priority, while the camera
//! sees an oncoming vehicle.

use vstd::prelude::*;

use crate::arbiter::tables::HIGH_BEAM;
use crate::ipc_message::{FeatureId, Priority, SignalValue, Value};
use crate::signal_bus::{
    claim_bool, no_outputs, release_claim, Domain, Effect, Output, VssPath,
};

verus! {

/// An oncoming vehicle is seen.
pub const ADAS_ONCOMING: VssPath = "Vehicle.ADAS.HighBeam.OncomingVehicleDetected";

/// The auto-high-beam feature.
#[derive(Debug, Clone, Copy, PartialEq, Eq)]
pub struct AutoHighBeam {
    /// The high beam is forced off.
    pub suppressing: bool,
}

impl AutoHighBeam {
    /// The effect of forcing the high beam off.
    pub open spec fn suppress() -> Effect {
        Effect::claim(
            Domain::LowBeam,
            HIGH_BEAM,
            Value::Bool(false),
            Priority::High,
            FeatureId::AutoHighBeam,
        )
    }

    /// The effect of giving the high beam back.
    pub open spec fn resume() -> Effect {
        Effect::release(Domain::LowBeam, HIGH_BEAM, FeatureId::AutoHighBeam)
    }

    /// The state and the effects after a value of the camera.
    pub open spec fn after(self, v: Value) -> (AutoHighBeam, Seq<Effect>) {
        let oncoming = v == Value::Bool(true);
        (
            AutoHighBeam { suppressing: oncoming },
            if oncoming && !self.suppressing {
                seq![AutoHighBeam::suppress()]
            } else if !oncoming && self.suppressing {
                seq![AutoHighBeam::resume()]
            } else {
                Seq::empty()
            },
        )
    }

    /// The feature with a clear road.
    pub fn new() -> (r: AutoHighBeam)
        ensures
            r == (AutoHighBeam { suppressing: false }),
    {
        AutoHighBeam { suppressing: false }
    }

    /// Takes a value of the camera.
    pub fn on_oncoming(&mut self, val: &SignalValue) -> (r: Vec<Output>)
        ensures
            (*final(self), Effect::all(r@)) == old(self).after(val@),
    {
        let oncoming = val.is_true();
        let was = self.suppressing;
        self.suppressing = oncoming;
        if oncoming && !was {
            let r = vec![
                claim_bool(
                    Domain::LowBeam,
                    HIGH_BEAM,
                    false,
                    Priority::High,
                    FeatureId::AutoHighBeam,
                ),
            ];
            assert(Effect::all(r@) =~= seq![AutoHighBeam::suppress()]);
            r
        } else if !oncoming && was {
            let r = vec![release_claim(Domain::LowBeam, HIGH_BEAM, FeatureId::AutoHighBeam)];
            assert(Effect::all(r@) =~= seq![AutoHighBeam::resume()]);
            r
        } else {
            no_outputs()
        }
    }
}

/// The high beam is forced off exactly while the last value of the camera says
/// that a vehicle is oncoming. Repeated values do nothing.
pub proof fn law_suppression_follows_camera(s: AutoHighBeam, v: Value)
    ensures
        s.after(v).0.suppressing == (v == Value::Bool(true)),
        s.suppressing == (v == Value::Bool(true)) ==> s.after(v) == (s, Seq::<Effect>::empty()),
{
}

} // verus!
