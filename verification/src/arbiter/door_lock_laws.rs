//! Laws of the door-lock queue.

use vstd::prelude::*;

use crate::arbiter::door_lock;
use crate::arbiter::door_lock::{
    DoorLockAllowEntry, DoorLockArbiter, LockEffect, LockOutput, LockState, CABIN_LOCK_STATUS,
    CENTRAL_LOCK_CMD, LOCK_LAST_REQUESTOR,
};
use crate::clock;
use crate::config::CRASH_LOCKOUT_MS;
use crate::history;
use crate::ipc_message::{FeatureId, Value};
use crate::signal_bus::{DoorLockRequest, LockCommand};

verus! {

/// Something that happens to the door-lock arbiter.
pub enum LockEvent {
    Request(DoorLockRequest, u64),
    Ack(u64),
}

/// The state and the effects after one event.
pub open spec fn step(s: LockState, event: LockEvent) -> (LockState, Seq<LockEffect>) {
    match event {
        LockEvent::Request(req, now) => s.requested(req, now),
        LockEvent::Ack(now) => s.acknowledged(now),
    }
}

/// The state and the effects after a sequence of events.
pub open spec fn run(s: LockState, events: Seq<LockEvent>) -> (LockState, Seq<LockEffect>)
    decreases events.len(),
{
    if events.len() == 0 {
        (s, Seq::empty())
    } else {
        let (t, before) = run(s, events.drop_last());
        let (u, last) = step(t, events.last());
        (u, before + last)
    }
}

/// The queue invariant holds after every sequence of events.
pub proof fn law_queue_stays_valid(s: LockState, events: Seq<LockEvent>)
    requires
        s.valid(),
    ensures
        run(s, events).0.valid(),
    decreases events.len(),
{
    if events.len() > 0 {
        law_queue_stays_valid(s, events.drop_last());
    }
}

/// A request of a feature outside the allow-list changes nothing.
pub proof fn law_unauthorized_is_ignored(s: LockState, req: DoorLockRequest, now: u64)
    requires
        !s.allowed.contains(req.feature_id),
    ensures
        s.requested(req, now) == (s, Seq::<LockEffect>::empty()),
{
}

/// The motor gets one command at a time: while an operation is active no request
/// is dispatched.
pub proof fn law_busy_motor_gets_no_command(s: LockState, req: DoorLockRequest, now: u64)
    requires
        s.active is Some,
    ensures
        s.requested(req, now).1 == Seq::<LockEffect>::empty(),
        s.requested(req, now).0.active == s.active,
{
}

/// An idle motor gets an admitted command at once.
pub proof fn law_idle_motor_dispatches(s: LockState, req: DoorLockRequest, now: u64)
    requires
        s.active is None,
        s.allowed.contains(req.feature_id),
        !s.locked_out(now),
    ensures
        s.requested(req, now).0.active == Some(req),
        s.requested(req, now).1[0] == LockEffect::Publish(
            CENTRAL_LOCK_CMD@,
            Value::Text(req.command.token()),
        ),
{
}

/// What waits is dispatched by the next acknowledgement, and of several requests
/// that arrive meanwhile it is the newest one.
pub proof fn law_newest_waiting_request_is_next(
    s: LockState,
    first: DoorLockRequest,
    second: DoorLockRequest,
    now: u64,
)
    requires
        s.valid(),
        s.active is Some,
        !s.crash_pending(),
        !s.locked_out(now),
        s.allowed.contains(first.feature_id),
        s.allowed.contains(second.feature_id),
        first.feature_id != FeatureId::CrashUnlock,
    ensures
        s.requested(first, now).0.requested(second, now).0.pending == Some(second),
        s.requested(first, now).0.requested(second, now).0.acknowledged(now).0.active == Some(
            second,
        ),
        s.requested(first, now).0.requested(second, now).0.acknowledged(now).1[0]
            == LockEffect::Publish(CENTRAL_LOCK_CMD@, Value::Text(second.command.token())),
{
}

/// A crash unlock that waits for the motor is not displaced by any request.
pub proof fn law_waiting_crash_unlock_is_kept(s: LockState, req: DoorLockRequest, now: u64)
    requires
        s.valid(),
        s.crash_pending(),
    ensures
        s.requested(req, now).0.pending == s.pending,
        s.requested(req, now).1 == Seq::<LockEffect>::empty(),
{
}

/// A crash unlock that waits for the motor survives every sequence of requests,
/// and the acknowledgement then dispatches it.
pub proof fn law_waiting_crash_unlock_comes_through(
    s: LockState,
    requests: Seq<(DoorLockRequest, u64)>,
    now: u64,
)
    requires
        s.valid(),
        s.crash_pending(),
    ensures
        ({
            let t = run(s, requests.map_values(|r: (DoorLockRequest, u64)| LockEvent::Request(r.0, r.1))).0;
            t.pending == s.pending && t.acknowledged(now).0.active == s.pending
        }),
    decreases requests.len(),
{
    let events = requests.map_values(|r: (DoorLockRequest, u64)| LockEvent::Request(r.0, r.1));
    lemma_crash_unlock_kept(s, events);
}

proof fn lemma_crash_unlock_kept(s: LockState, events: Seq<LockEvent>)
    requires
        s.valid(),
        s.crash_pending(),
        forall|i: int| 0 <= i < events.len() ==> #[trigger] events[i] is Request,
    ensures
        run(s, events).0.pending == s.pending,
    decreases events.len(),
{
    if events.len() > 0 {
        let rest = events.drop_last();
        assert forall|i: int| 0 <= i < rest.len() implies #[trigger] rest[i] is Request by {
            assert(rest[i] == events[i]);
        }
        lemma_crash_unlock_kept(s, rest);
        law_queue_stays_valid(s, rest);
    }
}

/// Dispatching a crash unlock starts the lockout, to the millisecond.
pub proof fn law_crash_unlock_starts_lockout(s: LockState, req: DoorLockRequest, now: u64, at: u64)
    requires
        s.active is None,
        s.allowed.contains(req.feature_id),
        !s.locked_out(now),
        req.feature_id == FeatureId::CrashUnlock,
        now <= u64::MAX - CRASH_LOCKOUT_MS,
    ensures
        s.requested(req, now).0.locked_out(at) <==> at < now + CRASH_LOCKOUT_MS,
{
}

/// An event of the lockout period that ends at `end`.
pub open spec fn within(event: LockEvent, end: u64) -> bool {
    match event {
        LockEvent::Request(_, now) => now < end,
        LockEvent::Ack(_) => true,
    }
}

/// Once the crash lockout is on, no command and no status goes out before it
/// ends, whatever is requested and acknowledged meanwhile.
pub proof fn law_lockout_is_silent(s: LockState, events: Seq<LockEvent>, end: u64)
    requires
        s.valid(),
        s.lockout_until == Some(end),
        forall|i: int| 0 <= i < events.len() ==> #[trigger] within(events[i], end),
    ensures
        run(s, events).1 == Seq::<LockEffect>::empty(),
        run(s, events).0.lockout_until == Some(end),
        run(s, events).0.status == s.status,
    decreases events.len(),
{
    if events.len() > 0 {
        let rest = events.drop_last();
        assert forall|i: int| 0 <= i < rest.len() implies #[trigger] within(rest[i], end) by {
            assert(within(events[i], end));
        }
        law_lockout_is_silent(s, rest, end);
        law_queue_stays_valid(s, rest);
        assert(within(events[events.len() - 1], end));
        assert(run(s, events).1 =~= Seq::<LockEffect>::empty());
    }
}

/// The status published for the cabin.
pub open spec fn status_effect(status: Seq<char>) -> LockEffect {
    LockEffect::Publish(CABIN_LOCK_STATUS@, Value::Text(status))
}

/// The lock status goes out exactly when a dispatched command changes it, and
/// what goes out is the status of that command.
pub proof fn law_status_is_published_on_change(s: LockState, event: LockEvent, status: Seq<char>)
    ensures
        step(s, event).1.contains(status_effect(status)) <==> step(s, event).0.status == status
            && s.status != status,
{
    reveal_strlit("Cabin.LockStatus");
    reveal_strlit("Body.Doors.CentralLock.Command");
    reveal_strlit("Cabin.LockStatus.LastRequestor");
    assert(CABIN_LOCK_STATUS@.len() != CENTRAL_LOCK_CMD@.len());
    assert(CABIN_LOCK_STATUS@.len() != LOCK_LAST_REQUESTOR@.len());
    let (t, out) = step(s, event);
    if out.contains(status_effect(status)) {
        let i = choose|i: int| 0 <= i < out.len() && out[i] == status_effect(status);
        assert(i != 0 && i != 3);
    }
    if t.status == status && s.status != status {
        assert(out.len() == 4);
        assert(out[1] == status_effect(status));
    }
}

/// A change of the lock status is followed by the name of the feature that asked
/// for it.
pub proof fn law_status_change_names_its_requestor(s: LockState, event: LockEvent)
    requires
        step(s, event).0.status != s.status,
    ensures
        step(s, event).0.active is Some,
        step(s, event).1.last() == LockEffect::Publish(
            LOCK_LAST_REQUESTOR@,
            Value::Text(step(s, event).0.active->0.feature_id.bus_name()),
        ),
{
}

/// The cabin status is that of the active command.
pub open spec fn status_matches(s: LockState) -> bool {
    match s.active {
        Some(req) => s.status == req.command.status(),
        None => true,
    }
}

/// After every sequence of events the cabin status is that of the active
/// command, and it has stayed the same where no command went out.
pub proof fn law_status_follows_commands(s: LockState, events: Seq<LockEvent>)
    requires
        status_matches(s),
    ensures
        status_matches(run(s, events).0),
        run(s, events).1.len() == 0 ==> run(s, events).0.status == s.status,
    decreases events.len(),
{
    if events.len() > 0 {
        law_status_follows_commands(s, events.drop_last());
    }
}

/// Reads off an effect the lock status that it stores.
pub open spec fn stored() -> spec_fn(LockEffect) -> Option<Seq<char>> {
    |e: LockEffect|
        match e {
            LockEffect::SaveStatus(s) => Some(s),
            _ => None,
        }
}

/// An event that changes the cabin lock status stores exactly one status, that of
/// the state afterwards. No other event stores one.
pub proof fn law_status_change_is_stored(s: LockState, event: LockEvent)
    ensures
        ({
            let (t, out) = step(s, event);
            if t.status != s.status {
                exists|i: int|
                    #![trigger out[i]]
                    0 <= i < out.len() && out[i] == LockEffect::SaveStatus(t.status) && forall|
                        j: int,
                    |
                        0 <= j < out.len() && j != i ==> #[trigger] out[j] !is SaveStatus
            } else {
                forall|j: int| 0 <= j < out.len() ==> #[trigger] out[j] !is SaveStatus
            }
        }),
{
    let (t, out) = step(s, event);
    if t.status != s.status {
        assert(out.len() == 4);
        assert(out[2] == LockEffect::SaveStatus(t.status));
        assert(out[0] !is SaveStatus && out[1] !is SaveStatus && out[3] !is SaveStatus);
    }
}

/// Over every run the status stored last is the status of the state, and where
/// nothing was stored the status has not changed. So an arbiter that starts from
/// what was stored last has the status of the one before the power cycle, and
/// publishes it.
pub proof fn law_status_survives_power_cycle(
    s: LockState,
    events: Seq<LockEvent>,
    rows: Vec<DoorLockAllowEntry>,
    saved: String,
    restarted: (DoorLockArbiter, Vec<LockOutput>),
)
    requires
        match history::latest(run(s, events).1, stored()) {
            Some(status) => saved@ == status,
            None => saved@ == s.status,
        },
        call_ensures(DoorLockArbiter::new_with_nvm, (rows, Some(saved)), restarted),
    ensures
        restarted.0@.status == run(s, events).0.status,
        restarted.0@.active is None,
        restarted.0@.pending is None,
        restarted.0@.lockout_until is None,
        door_lock::lock_effects(restarted.1@) == seq![
            LockEffect::Publish(CABIN_LOCK_STATUS@, Value::Text(run(s, events).0.status)),
        ],
{
    lemma_stored_is_status(s, events);
}

proof fn lemma_stored_is_status(s: LockState, events: Seq<LockEvent>)
    ensures
        run(s, events).0.status == match history::latest(run(s, events).1, stored()) {
            Some(status) => status,
            None => s.status,
        },
    decreases events.len(),
{
    if events.len() > 0 {
        let (t, before) = run(s, events.drop_last());
        let (u, last) = step(t, events.last());
        lemma_stored_is_status(s, events.drop_last());
        history::lemma_latest_of_two(before, last, stored());
        law_status_change_is_stored(t, events.last());
        if u.status != t.status {
            assert(last.len() == 4);
            assert(last[3] !is SaveStatus);
            history::law_latest_is_the_last_reading(last, stored(), 2);
        } else {
            history::law_no_reading_no_latest(last, stored());
        }
    }
}

/// What each command is called on the bus, and which status it leads to: no two
/// commands share a token, and only a double lock that is taken back leads to the
/// same status as another command, that of locking.
pub proof fn law_commands_and_their_status(c: LockCommand)
    ensures
        c is UnlockDriver <==> c.token() == "unlock_driver"@,
        c is UnlockAll <==> c.token() == "unlock_all"@,
        c is LockAll <==> c.token() == "lock_all"@,
        c is DoubleLockAll <==> c.token() == "lock_double"@,
        c is ReleaseDouble <==> c.token() == "release_double"@,
        c is UnlockDriver <==> c.status() == "DRIVER_UNLOCKED"@,
        c is UnlockAll <==> c.status() == "UNLOCKED"@,
        c is DoubleLockAll <==> c.status() == "DOUBLE_LOCKED"@,
        c is LockAll || c is ReleaseDouble <==> c.status() == "LOCKED"@,
{
    reveal_strlit("unlock_driver");
    reveal_strlit("unlock_all");
    reveal_strlit("lock_all");
    reveal_strlit("lock_double");
    reveal_strlit("release_double");
    assert("unlock_driver"@.len() == 13 && "unlock_all"@.len() == 10 && "lock_all"@.len() == 8);
    assert("lock_double"@.len() == 11 && "release_double"@.len() == 14);
    reveal_strlit("DRIVER_UNLOCKED");
    reveal_strlit("UNLOCKED");
    reveal_strlit("LOCKED");
    reveal_strlit("DOUBLE_LOCKED");
    assert("DRIVER_UNLOCKED"@.len() == 15 && "UNLOCKED"@.len() == 8);
    assert("LOCKED"@.len() == 6 && "DOUBLE_LOCKED"@.len() == 13);
}

/// Whenever an event hands a request to the motor, the command goes out first,
/// under its token, and the cabin status is that of the command. A crash unlock
/// locks every request out for ten seconds from then on; any other request leaves
/// no lockout in force. An event that hands over nothing puts nothing out.
pub proof fn law_every_dispatch_is_complete(s: LockState, event: LockEvent)
    requires
        s.valid(),
    ensures
        ({
            let (t, out) = step(s, event);
            let now = match event {
                LockEvent::Request(_, now) => now,
                LockEvent::Ack(now) => now,
            };
            let handed = match event {
                LockEvent::Request(req, _) => if s.active is None && t.active is Some {
                    Some(req)
                } else {
                    None
                },
                LockEvent::Ack(_) => s.pending,
            };
            match handed {
                Some(req) => {
                    &&& t.active == Some(req)
                    &&& t.pending is None
                    &&& out[0] == LockEffect::Publish(
                        "Body.Doors.CentralLock.Command"@,
                        Value::Text(req.command.token()),
                    )
                    &&& t.status == req.command.status()
                    &&& out.len() == if s.status == t.status {
                        1nat
                    } else {
                        4nat
                    }
                    &&& t.lockout_until == if req.feature_id == FeatureId::CrashUnlock {
                        Some(clock::later(now, 10_000))
                    } else {
                        None
                    }
                },
                None => out == Seq::<LockEffect>::empty() && t.status == s.status,
            }
        }),
{
}

/// An acknowledgement with nothing waiting leaves the motor idle and the rest as
/// it was. The allow-list never changes.
pub proof fn law_acknowledgement_frees_motor(s: LockState, event: LockEvent, now: u64)
    ensures
        s.pending is None ==> s.acknowledged(now) == (
            LockState { active: None, ..s },
            Seq::<LockEffect>::empty(),
        ),
        step(s, event).0.allowed == s.allowed,
{
}

/// An admitted request behind a busy motor waits, and nothing else changes: while
/// it waits it is the one that the next acknowledgement hands over.
pub proof fn law_admitted_request_waits(s: LockState, req: DoorLockRequest, now: u64)
    requires
        s.valid(),
        s.active is Some,
        !s.crash_pending(),
        !s.locked_out(now),
        s.allowed.contains(req.feature_id),
    ensures
        s.requested(req, now).0 == (LockState {
            pending: Some(req),
            lockout_until: None,
            ..s
        }),
{
}

/// A request of a feature gets through to an idle motor exactly if the feature is
/// one that locks or unlocks doors: fobs, phones, NFC, passive entry, the buttons
/// and pads at the doors, and the automatic functions. Lights, horn, mirrors and
/// trunk never do.
pub proof fn law_who_may_lock(
    rows: Vec<DoorLockAllowEntry>,
    status: Seq<char>,
    req: DoorLockRequest,
    now: u64,
)
    requires
        call_ensures(door_lock::door_lock_allow_list, (), rows),
    ensures
        ({
            let s = door_lock::initial(door_lock::requestors(rows@), status);
            s.requested(req, now).0.active == Some(req) <==> match req.feature_id {
                FeatureId::KeyfobPeps | FeatureId::KeyfobRke | FeatureId::PhoneApp => true,
                FeatureId::PhoneBle | FeatureId::NfcCard | FeatureId::NfcPhone => true,
                FeatureId::PassiveEntry | FeatureId::DoorTrimButton => true,
                FeatureId::KeypadLock | FeatureId::ThumbPadLock | FeatureId::SlamLock => true,
                FeatureId::AutoLock | FeatureId::AutoRelock | FeatureId::WalkAwayLock => true,
                FeatureId::CrashUnlock | FeatureId::DoubleLockRelease => true,
                _ => false,
            }
        }),
{
    let table = door_lock::requestors(rows@);
    assert(table == door_lock::door_lock_table());
    assert(table.len() == 16);
    assert(table[0] is KeyfobPeps && table[1] is AutoLock && table[2] is DoorTrimButton);
    assert(table[3] is KeyfobRke && table[4] is PhoneApp && table[5] is PhoneBle);
    assert(table[6] is NfcCard && table[7] is NfcPhone && table[8] is AutoRelock);
    assert(table[9] is CrashUnlock && table[10] is WalkAwayLock && table[11] is ThumbPadLock);
    assert(table[12] is DoubleLockRelease && table[13] is PassiveEntry);
    assert(table[14] is KeypadLock && table[15] is SlamLock);
    if table.contains(req.feature_id) {
        let i = choose|i: int| 0 <= i < table.len() && table[i] == req.feature_id;
        assert(0 <= i < 16);
    }
}

} // verus!
