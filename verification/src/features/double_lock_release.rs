//! Double-lock release: switching the vehicle on clears the double lock, so that
//! it is not driven with the door linkage disconnected. The doors stay locked.

use vstd::prelude::*;

use crate::features::power::{is_power_off, is_power_on};
use crate::ipc_message::{FeatureId, SignalValue, Value};
use crate::signal_bus::{lock_request, no_outputs, Effect, LockCommand, Output};

verus! {

/// The double-lock-release feature.
#[derive(Debug, Clone, Copy, PartialEq, Eq)]
pub struct DoubleLockRelease {
    /// The vehicle was off since it was on last.
    pub last_was_off: bool,
}

impl DoubleLockRelease {
    /// The effect of clearing the double lock.
    pub open spec fn release() -> Effect {
        Effect::lock(LockCommand::ReleaseDouble, FeatureId::DoubleLockRelease)
    }

    /// The state and the effects after a value of the power state.
    pub open spec fn after(self, v: Value) -> (DoubleLockRelease, Seq<Effect>) {
        if v.power_off() {
            (DoubleLockRelease { last_was_off: true }, Seq::empty())
        } else if v.power_on() {
            (
                DoubleLockRelease { last_was_off: false },
                if self.last_was_off {
                    seq![DoubleLockRelease::release()]
                } else {
                    Seq::empty()
                },
            )
        } else {
            (self, Seq::empty())
        }
    }

    /// The feature in a vehicle that is off.
    pub fn new() -> (r: DoubleLockRelease)
        ensures
            r == (DoubleLockRelease { last_was_off: true }),
    {
        DoubleLockRelease { last_was_off: true }
    }

    /// Takes a value of the power state.
    pub fn on_power(&mut self, val: &SignalValue) -> (r: Vec<Output>)
        ensures
            (*final(self), Effect::all(r@)) == old(self).after(val@),
    {
        if is_power_off(val) {
            self.last_was_off = true;
            no_outputs()
        } else if is_power_on(val) {
            let was_off = self.last_was_off;
            self.last_was_off = false;
            if was_off {
                let r = vec![lock_request(LockCommand::ReleaseDouble, FeatureId::DoubleLockRelease)];
                assert(Effect::all(r@) =~= seq![DoubleLockRelease::release()]);
                r
            } else {
                no_outputs()
            }
        } else {
            no_outputs()
        }
    }
}

/// The double lock is cleared when the vehicle is switched on after being off, and
/// not again until it was off in between.
pub proof fn law_release_once_per_switch_on(s: DoubleLockRelease, off: Value, on: Value, again: Value)
    requires
        off.power_off(),
        on.power_on(),
        again.power_on(),
    ensures
        ({
            let was_off = s.after(off).0;
            let was_on = was_off.after(on);
            &&& was_on.1 == seq![DoubleLockRelease::release()]
            &&& was_on.0.after(again).1 == Seq::<Effect>::empty()
        }),
{
    crate::features::power::law_on_and_off_exclude_each_other(off);
    crate::features::power::law_on_and_off_exclude_each_other(on);
    crate::features::power::law_on_and_off_exclude_each_other(again);
}

/// Nothing but a request to clear the double lock is ever asked for: no feedback.
pub proof fn law_release_is_silent(s: DoubleLockRelease, v: Value, i: int)
    requires
        0 <= i < s.after(v).1.len(),
    ensures
        s.after(v).1[i] == DoubleLockRelease::release(),
{
}

} // verus!
