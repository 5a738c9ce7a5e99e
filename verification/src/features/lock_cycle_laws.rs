//! How the door-lock arbiter and auto relock work together.

use vstd::prelude::*;

use crate::arbiter::door_lock::{
    LockEffect, LockState, CABIN_LOCK_STATUS, LOCK_LAST_REQUESTOR, STATUS_LOCKED,
};
use crate::clock;
use crate::features::auto_relock;
use crate::features::auto_relock::{Phase, RelockEvent, RelockState};
use crate::ipc_message::{FeatureId, Value};
use crate::signal_bus::{DoorLockRequest, Effect, LockCommand};

verus! {

/// The feature acts from outside the vehicle.
pub open spec fn from_outside(f: FeatureId) -> bool {
    ||| f is KeyfobRke
    ||| f is KeyfobPeps
    ||| f is PassiveEntry
    ||| f is PhoneApp
    ||| f is PhoneBle
    ||| f is NfcCard
    ||| f is NfcPhone
}

/// Auto relock once it has heard the status and the requestor of a request.
pub open spec fn heard(relock: RelockState, req: DoorLockRequest, now: u64) -> RelockState {
    relock.after(RelockEvent::Status(Value::Text(req.command.status()))).0.after(
        RelockEvent::Requestor(Value::Text(req.feature_id.bus_name()), now),
    ).0
}

/// An unlock from outside that changes the lock status is published with its
/// requestor, and so starts the relock timer.
pub proof fn law_outside_unlock_starts_timer(
    lock: LockState,
    relock: RelockState,
    req: DoorLockRequest,
    now: u64,
)
    requires
        lock.active is None,
        lock.allowed.contains(req.feature_id),
        !lock.locked_out(now),
        lock.status != req.command.status(),
        req.command is UnlockAll || req.command is UnlockDriver,
        from_outside(req.feature_id),
        !relock.disabled(),
    ensures
        lock.requested(req, now).1.contains(
            LockEffect::Publish(CABIN_LOCK_STATUS@, Value::Text(req.command.status())),
        ),
        lock.requested(req, now).1.contains(
            LockEffect::Publish(LOCK_LAST_REQUESTOR@, Value::Text(req.feature_id.bus_name())),
        ),
        heard(relock, req, now).phase == (Phase::Armed {
            deadline: clock::later(now, relock.timeout),
        }),
{
    let out = lock.requested(req, now).1;
    assert(out[1] == LockEffect::Publish(CABIN_LOCK_STATUS@, Value::Text(req.command.status())));
    assert(out[3] == LockEffect::Publish(
        LOCK_LAST_REQUESTOR@,
        Value::Text(req.feature_id.bus_name()),
    ));
}

/// No request of a feature that acts from inside starts the timer.
pub proof fn law_inside_request_leaves_timer_alone(
    relock: RelockState,
    req: DoorLockRequest,
    now: u64,
)
    requires
        req.feature_id is DoorTrimButton || req.feature_id is SlamLock || req.feature_id is AutoLock
            || req.feature_id is AutoRelock || req.feature_id is CrashUnlock
            || req.feature_id is WalkAwayLock || req.feature_id is ThumbPadLock
            || req.feature_id is KeypadLock || req.feature_id is DoubleLockRelease,
    ensures
        heard(relock, req, now).phase == relock.phase,
{
    reveal_strlit("KeyfobRke");
    reveal_strlit("KeyfobPeps");
    reveal_strlit("PassiveEntry");
    reveal_strlit("PhoneApp");
    reveal_strlit("PhoneBle");
    reveal_strlit("NfcCard");
    reveal_strlit("NfcPhone");
    reveal_strlit("DoorTrimButton");
    reveal_strlit("SlamLock");
    reveal_strlit("AutoLock");
    reveal_strlit("AutoRelock");
    reveal_strlit("CrashUnlock");
    reveal_strlit("WalkAwayLock");
    reveal_strlit("ThumbPadLock");
    reveal_strlit("KeypadLock");
    reveal_strlit("DoubleLockRelease");
    let name = req.feature_id.bus_name();
    assert("KeyfobRke"@.len() == 9 && "KeyfobPeps"@.len() == 10 && "PassiveEntry"@.len() == 12
        && "PhoneApp"@.len() == 8 && "PhoneBle"@.len() == 8 && "NfcCard"@.len() == 7
        && "NfcPhone"@.len() == 8);
    assert("PhoneApp"@[0] == 'P' && "PhoneBle"@[0] == 'P' && "NfcPhone"@[0] == 'N'
        && "KeyfobPeps"@[3] == 'f' && "PassiveEntry"@[0] == 'P');
    assert("SlamLock"@[0] == 'S' && "AutoLock"@[0] == 'A' && "AutoRelock"@[0] == 'A'
        && "KeypadLock"@[3] == 'p' && "WalkAwayLock"@[0] == 'W' && "ThumbPadLock"@[0] == 'T');
    assert("DoorTrimButton"@.len() == 14 && "CrashUnlock"@.len() == 11 && "DoubleLockRelease"@.len()
        == 17 && "SlamLock"@.len() == 8 && "AutoLock"@.len() == 8 && "AutoRelock"@.len() == 10
        && "KeypadLock"@.len() == 10 && "WalkAwayLock"@.len() == 12 && "ThumbPadLock"@.len() == 12);
    assert(!auto_relock::external(name));
}

/// When the timer has run out, the request that auto relock makes locks an idle
/// vehicle again.
pub proof fn law_expired_timer_locks(lock: LockState, relock: RelockState, now: u64)
    requires
        relock.phase matches Phase::Armed { deadline } && now >= deadline,
        lock.active is None,
        lock.allowed.contains(FeatureId::AutoRelock),
        !lock.locked_out(now),
    ensures
        relock.after(RelockEvent::Tick(now)).1.contains(
            Effect::lock(LockCommand::LockAll, FeatureId::AutoRelock),
        ),
        lock.requested(
            DoorLockRequest { command: LockCommand::LockAll, feature_id: FeatureId::AutoRelock },
            now,
        ).0.status == STATUS_LOCKED@,
{
    assert(relock.after(RelockEvent::Tick(now)).1[1] == Effect::lock(
        LockCommand::LockAll,
        FeatureId::AutoRelock,
    ));
}

} // verus!
