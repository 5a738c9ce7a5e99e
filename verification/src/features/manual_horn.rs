//! Manual horn: the horn sounds while its pad is pressed. Everything but a press
//! counts as a release, as a horn that never stops is the worst outcome.

use vstd::prelude::*;

use crate::arbiter::tables::HORN;
use crate::ipc_message::{FeatureId, Priority, SignalValue, Value};
use crate::signal_bus::{
    claim_bool, no_outputs, release_claim, Domain, Effect, Output, VssPath,
};

verus! {

/// The horn pad.
pub const SWITCH: VssPath = "Body.Switches.Horn.IsPressed";

/// The manual-horn feature.
#[derive(Debug, Clone, Copy, PartialEq, Eq)]
pub struct ManualHorn {
    /// The horn is claimed.
    pub claimed: bool,
}

impl ManualHorn {
    /// The effect of claiming the horn.
    pub open spec fn sound() -> Effect {
        Effect::claim(
            Domain::Horn,
            HORN,
            Value::Bool(true),
            Priority::Medium,
            FeatureId::ManualHorn,
        )
    }

    /// The effect of giving the horn back.
    pub open spec fn quiet() -> Effect {
        Effect::release(Domain::Horn, HORN, FeatureId::ManualHorn)
    }

    /// The state and the effects after a value of the pad.
    pub open spec fn after(self, v: Value) -> (ManualHorn, Seq<Effect>) {
        let want = v == Value::Bool(true);
        (
            ManualHorn { claimed: want },
            if want && !self.claimed {
                seq![ManualHorn::sound()]
            } else if !want && self.claimed {
                seq![ManualHorn::quiet()]
            } else {
                Seq::empty()
            },
        )
    }

    /// The feature with the pad released.
    pub fn new() -> (r: ManualHorn)
        ensures
            r == (ManualHorn { claimed: false }),
    {
        ManualHorn { claimed: false }
    }

    /// Takes a value of the pad.
    pub fn on_switch(&mut self, val: &SignalValue) -> (r: Vec<Output>)
        ensures
            (*final(self), Effect::all(r@)) == old(self).after(val@),
    {
        let want_claim = val.is_true();
        let was = self.claimed;
        self.claimed = want_claim;
        if want_claim && !was {
            let r = vec![
                claim_bool(Domain::Horn, HORN, true, Priority::Medium, FeatureId::ManualHorn),
            ];
            assert(Effect::all(r@) =~= seq![ManualHorn::sound()]);
            r
        } else if !want_claim && was {
            let r = vec![release_claim(Domain::Horn, HORN, FeatureId::ManualHorn)];
            assert(Effect::all(r@) =~= seq![ManualHorn::quiet()]);
            r
        } else {
            no_outputs()
        }
    }
}

/// The horn never sticks: whatever comes that is no press gives it back.
pub proof fn law_horn_never_sticks(s: ManualHorn, v: Value)
    requires
        v != Value::Bool(true),
    ensures
        !s.after(v).0.claimed,
        s.claimed ==> s.after(v).1 == seq![ManualHorn::quiet()],
{
}

/// Repeated values do nothing.
pub proof fn law_repeats_do_nothing(s: ManualHorn, v: Value)
    requires
        s.claimed == (v == Value::Bool(true)),
    ensures
        s.after(v) == (s, Seq::<Effect>::empty()),
{
}

} // verus!
