//! When the timed features have to be woken: before its deadline the clock does
//! nothing to a feature, at its deadline it does something, and a feature without
//! a deadline has nothing to wait for.

use vstd::prelude::*;

use crate::features::auto_relock::{AutoRelock, RelockEvent};
use crate::features::delayed_accessory::{AccessoryEvent, DelayedAccessory};
use crate::features::entry_session::{EntrySession, SessionEvent};
use crate::features::farewell::{Farewell, FarewellEvent};
use crate::features::follow_me_home::{FollowMeHome, HomeEvent};
use crate::features::key_lost_warning::{KeyLostEvent, KeyLostWarning};
use crate::features::keypad_lock::{KeypadLock, PadEvent};
use crate::features::lock_feedback::LockFeedback;
use crate::features::panic_alarm::{PanicAlarm, PanicEvent};
use crate::signal_bus::Effect;

verus! {

/// The relock timer runs out exactly at its deadline.
pub proof fn law_relock_wakeup(f: AutoRelock, r: Option<u64>, now: u64)
    requires
        call_ensures(AutoRelock::deadline, (&f,), r),
    ensures
        f@.after(RelockEvent::Tick(now)).1 == Seq::<Effect>::empty() <==> (r matches Some(t) ==> now
            < t),
        (r matches Some(t) ==> now < t) ==> f@.after(RelockEvent::Tick(now)).0 == f@,
        r is Some <==> f@.phase is Armed,
{
    if r matches Some(t) && now >= t {
        assert(f@.after(RelockEvent::Tick(now)).1.len() == 3);
    }
}

/// The accessory countdown ends exactly at its deadline.
pub proof fn law_accessory_wakeup(f: DelayedAccessory, r: Option<u64>, now: u64)
    requires
        call_ensures(DelayedAccessory::deadline, (&f,), r),
    ensures
        f.after(AccessoryEvent::Tick(now)).0.deadline == match r {
            Some(t) => if now < t {
                Some(t)
            } else {
                None
            },
            None => None,
        },
        (r matches Some(t) ==> now < t) ==> f.after(AccessoryEvent::Tick(now)) == (
            f,
            Seq::<Effect>::empty(),
        ),
{
}

/// Both phases of the farewell end exactly at their deadline.
pub proof fn law_farewell_wakeup(f: Farewell, r: Option<u64>, now: u64)
    requires
        call_ensures(Farewell::deadline, (&f,), r),
    ensures
        (r matches Some(t) ==> now < t) ==> f.after(FarewellEvent::Tick(now)) == (
            f,
            Seq::<Effect>::empty(),
        ),
        (r matches Some(t) && now >= t) ==> f.after(FarewellEvent::Tick(now)).0.phase is Idle
            && f.phase !is Idle,
        r is None <==> f.phase is Idle,
{
}

/// The lights that follow the driver home go exactly at their deadline.
pub proof fn law_home_wakeup(f: FollowMeHome, r: Option<u64>, now: u64)
    requires
        call_ensures(FollowMeHome::deadline, (&f,), r),
    ensures
        (r matches Some(t) ==> now < t) ==> f.after(HomeEvent::Tick(now)) == (
            f,
            Seq::<Effect>::empty(),
        ),
        (r matches Some(t) && now >= t) ==> f.after(HomeEvent::Tick(now)).1
            == FollowMeHome::lights_released(),
{
}

/// The key-lost warning ends exactly at its deadline.
pub proof fn law_key_lost_wakeup(f: KeyLostWarning, r: Option<u64>, now: u64)
    requires
        call_ensures(KeyLostWarning::deadline, (&f,), r),
    ensures
        (r matches Some(t) ==> now < t) ==> f@.after(KeyLostEvent::Tick(now)) == (
            f@,
            Seq::<Effect>::empty(),
        ),
        (r matches Some(t) && now >= t) ==> f@.after(KeyLostEvent::Tick(now)).1
            == crate::features::key_lost_warning::cleared(),
{
}

/// A pad asks for a search exactly from the deadline on, as long as the clock
/// reaches so far.
pub proof fn law_pad_wakeup(f: KeypadLock, r: Option<u64>, now: u64)
    requires
        call_ensures(KeypadLock::deadline, (&f,), r),
        f.left matches Some(t) ==> t <= u64::MAX - 500,
        f.right matches Some(t) ==> t <= u64::MAX - 500,
    ensures
        f.after(PadEvent::Tick(now)).1 <==> (r matches Some(t) && now >= t),
        !f.after(PadEvent::Tick(now)).1 ==> f.after(PadEvent::Tick(now)).0 == f,
{
}

/// A stage of the feedback ends exactly at its deadline.
pub proof fn law_feedback_wakeup(f: LockFeedback, r: Option<u64>, now: u64)
    requires
        call_ensures(LockFeedback::deadline, (&f,), r),
    ensures
        (r matches Some(t) ==> now < t) ==> f@.after_tick(now) == (f@, Seq::<Effect>::empty()),
        (r matches Some(t) && now >= t) ==> f@.after_tick(now).1.len() == 2,
        r is None <==> f@.flash is None,
{
}

/// A half of a pulse ends exactly at its deadline, and one follows while the alarm
/// is engaged.
pub proof fn law_panic_wakeup(f: PanicAlarm, r: Option<u64>, now: u64)
    requires
        call_ensures(PanicAlarm::deadline, (&f,), r),
    ensures
        (r matches Some(t) ==> now < t) ==> f.after(PanicEvent::Tick(now)) == (
            f,
            Seq::<Effect>::empty(),
        ),
        (r matches Some(t) && now >= t) ==> f.after(PanicEvent::Tick(now)).1.len() == 3,
        r is None <==> !f.engaged(),
{
}

/// An attempt times out exactly at its deadline.
pub proof fn law_attempt_wakeup(f: EntrySession, r: Option<u64>, now: u64)
    requires
        call_ensures(EntrySession::deadline, (&f,), r),
    ensures
        (r matches Some(t) ==> now < t) ==> f@.step(SessionEvent::Tick(now)).0 == f@,
        (r matches Some(t) && now >= t) ==> f@.step(SessionEvent::Tick(now)).0.phase is Idle,
        r is Some <==> f@.phase is Trying,
{
}

} // verus!
