//! Serialized command queue for the central lock.
//!
//! The lock motor takes a while and accepts one command at a time, so requests
//! pass through a queue of one active and one pending slot. An acknowledgement
//! of the motor promotes the pending request. A crash unlock cannot be displaced
//! from the pending slot, and its dispatch locks every other request out for a
//! fixed time.
//!
//! Times are milliseconds on a monotonic clock.

use vstd::prelude::*;

use crate::arbiter::domain::Publication;
use crate::clock;
use crate::config::CRASH_LOCKOUT_MS;
use crate::ipc_message::{FeatureId, SignalValue, Value};
use crate::signal_bus::{same_text, DoorLockRequest, LockCommand, VssPath};

verus! {

/// Command signal written by the arbiter to the locking controller: one of
/// `unlock_driver`, `unlock_all`, `lock_all`, `lock_double`, `release_double`.
pub const CENTRAL_LOCK_CMD: VssPath = "Body.Doors.CentralLock.Command";

/// Signal by which features ask for a visual lock or unlock confirmation.
pub const FEEDBACK_REQUEST: VssPath = "Body.Doors.CentralLock.FeedbackRequest";

/// Vehicle-level central lock status.
pub const CABIN_LOCK_STATUS: VssPath = "Cabin.LockStatus";

/// Feature whose request changed the cabin lock status last.
pub const LOCK_LAST_REQUESTOR: VssPath = "Cabin.LockStatus.LastRequestor";

pub const STATUS_UNLOCKED: &'static str = "UNLOCKED";

pub const STATUS_DRIVER_UNLOCKED: &'static str = "DRIVER_UNLOCKED";

pub const STATUS_LOCKED: &'static str = "LOCKED";

pub const STATUS_DOUBLE_LOCKED: &'static str = "DOUBLE_LOCKED";

/// Acknowledgement that a motor operation has completed.
#[derive(Debug, Clone, Copy)]
pub struct LockAck {
    pub event_number: u32,
    /// Per-door success, in the order Row1 left, Row1 right, Row2 left, Row2 right.
    pub door_results: [bool; 4],
}

/// Allow-list entry of the door-lock arbiter. The queue serializes requests, so
/// only the feature is checked.
#[derive(Debug, Clone, Copy)]
pub struct DoorLockAllowEntry {
    pub feature_id: FeatureId,
}

/// An effect of the door-lock arbiter.
#[derive(Debug)]
pub enum LockOutput {
    /// Put a value on the bus.
    Publish(Publication),
    /// Store the lock status so that it survives a power cycle.
    SaveStatus(&'static str),
}

/// What a [`LockOutput`] asks for.
pub enum LockEffect {
    Publish(Seq<char>, Value),
    SaveStatus(Seq<char>),
}

impl View for LockOutput {
    type V = LockEffect;

    open spec fn view(&self) -> LockEffect {
        match self {
            LockOutput::Publish(p) => LockEffect::Publish(p@.0, p@.1),
            LockOutput::SaveStatus(s) => LockEffect::SaveStatus(s@),
        }
    }
}

/// The effects that a list of outputs asks for, in order.
pub open spec fn lock_effects(outputs: Seq<LockOutput>) -> Seq<LockEffect> {
    outputs.map_values(|o: LockOutput| o@)
}

impl LockCommand {
    /// The cabin lock status that this command leads to.
    pub open spec fn status(self) -> Seq<char> {
        match self {
            LockCommand::UnlockAll => STATUS_UNLOCKED@,
            LockCommand::UnlockDriver => STATUS_DRIVER_UNLOCKED@,
            LockCommand::LockAll => STATUS_LOCKED@,
            LockCommand::DoubleLockAll => STATUS_DOUBLE_LOCKED@,
            LockCommand::ReleaseDouble => STATUS_LOCKED@,
        }
    }

    /// The token that stands for this command on the bus.
    pub open spec fn token(self) -> Seq<char> {
        match self {
            LockCommand::UnlockDriver => "unlock_driver"@,
            LockCommand::UnlockAll => "unlock_all"@,
            LockCommand::LockAll => "lock_all"@,
            LockCommand::DoubleLockAll => "lock_double"@,
            LockCommand::ReleaseDouble => "release_double"@,
        }
    }
}

/// State of the door-lock arbiter.
#[verifier::ext_equal]
pub struct LockState {
    pub allowed: Set<FeatureId>,
    /// The request that the motor is working on.
    pub active: Option<DoorLockRequest>,
    /// The request that waits for the motor.
    pub pending: Option<DoorLockRequest>,
    /// End of the crash lockout.
    pub lockout_until: Option<u64>,
    /// The cabin lock status.
    pub status: Seq<char>,
}

impl LockState {
    /// A request waits only while the motor works, and none waits behind a crash
    /// lockout.
    pub open spec fn valid(self) -> bool {
        &&& self.pending is Some ==> self.active is Some
        &&& self.lockout_until is Some ==> self.pending is None
    }

    /// The crash lockout is in force at `now`.
    pub open spec fn locked_out(self, now: u64) -> bool {
        match self.lockout_until {
            Some(end) => now < end,
            None => false,
        }
    }

    /// A crash unlock waits for the motor.
    pub open spec fn crash_pending(self) -> bool {
        match self.pending {
            Some(p) => p.feature_id == FeatureId::CrashUnlock,
            None => false,
        }
    }

    /// The effects of handing `req` to the motor: the command, and where the lock
    /// status changes, the new status and who asked for it.
    pub open spec fn dispatch_effects(self, req: DoorLockRequest) -> Seq<LockEffect> {
        let command = seq![
            LockEffect::Publish(CENTRAL_LOCK_CMD@, Value::Text(req.command.token())),
        ];
        if req.command.status() == self.status {
            command
        } else {
            command + seq![
                LockEffect::Publish(CABIN_LOCK_STATUS@, Value::Text(req.command.status())),
                LockEffect::SaveStatus(req.command.status()),
                LockEffect::Publish(LOCK_LAST_REQUESTOR@, Value::Text(req.feature_id.bus_name())),
            ]
        }
    }

    /// The state once `req` has been handed to the motor.
    pub open spec fn dispatched(self, req: DoorLockRequest, now: u64) -> LockState {
        LockState {
            active: Some(req),
            lockout_until: if req.feature_id == FeatureId::CrashUnlock {
                Some(clock::later(now, CRASH_LOCKOUT_MS))
            } else {
                self.lockout_until
            },
            status: req.command.status(),
            ..self
        }
    }

    /// What a request at `now` leads to.
    pub open spec fn requested(self, req: DoorLockRequest, now: u64) -> (
        LockState,
        Seq<LockEffect>,
    ) {
        if !self.allowed.contains(req.feature_id) || self.locked_out(now) {
            (self, Seq::empty())
        } else {
            let open = LockState { lockout_until: None, ..self };
            if open.active is None {
                (open.dispatched(req, now), open.dispatch_effects(req))
            } else if open.crash_pending() {
                (open, Seq::empty())
            } else {
                (LockState { pending: Some(req), ..open }, Seq::empty())
            }
        }
    }

    /// What an acknowledgement at `now` leads to.
    pub open spec fn acknowledged(self, now: u64) -> (LockState, Seq<LockEffect>) {
        match self.pending {
            Some(next) => (
                LockState { pending: None, ..self }.dispatched(next, now),
                self.dispatch_effects(next),
            ),
            None => (LockState { active: None, ..self }, Seq::empty()),
        }
    }
}

/// The features of an allow-list.
pub open spec fn requestors(rows: Seq<DoorLockAllowEntry>) -> Seq<FeatureId> {
    rows.map_values(|e: DoorLockAllowEntry| e.feature_id)
}

/// The state of an arbiter that has seen no request yet.
pub open spec fn initial(table: Seq<FeatureId>, status: Seq<char>) -> LockState {
    LockState {
        allowed: table.to_set(),
        active: None,
        pending: None,
        lockout_until: None,
        status,
    }
}

/// The features that may operate the central lock.
pub open spec fn door_lock_table() -> Seq<FeatureId> {
    seq![
        FeatureId::KeyfobPeps,
        FeatureId::AutoLock,
        FeatureId::DoorTrimButton,
        FeatureId::KeyfobRke,
        FeatureId::PhoneApp,
        FeatureId::PhoneBle,
        FeatureId::NfcCard,
        FeatureId::NfcPhone,
        FeatureId::AutoRelock,
        FeatureId::CrashUnlock,
        FeatureId::WalkAwayLock,
        FeatureId::ThumbPadLock,
        FeatureId::DoubleLockRelease,
        FeatureId::PassiveEntry,
        FeatureId::KeypadLock,
        FeatureId::SlamLock,
    ]
}

/// Serialized command-queue arbiter for the door locks.
pub struct DoorLockArbiter {
    allow_list: Vec<DoorLockAllowEntry>,
    active: Option<DoorLockRequest>,
    pending: Option<DoorLockRequest>,
    crash_lockout_until: Option<u64>,
    last_status: String,
}

impl View for DoorLockArbiter {
    type V = LockState;

    closed spec fn view(&self) -> LockState {
        LockState {
            allowed: requestors(self.allow_list@).to_set(),
            active: self.active,
            pending: self.pending,
            lockout_until: self.crash_lockout_until,
            status: self.last_status@,
        }
    }
}

/// The `Cabin.LockStatus` value that a command leads to. Demoting a double lock
/// returns the vehicle to plain locked.
pub fn lock_status_for(cmd: LockCommand) -> (r: &'static str)
    ensures
        r@ == cmd.status(),
{
    match cmd {
        LockCommand::UnlockAll => STATUS_UNLOCKED,
        LockCommand::UnlockDriver => STATUS_DRIVER_UNLOCKED,
        LockCommand::LockAll => STATUS_LOCKED,
        LockCommand::DoubleLockAll => STATUS_DOUBLE_LOCKED,
        LockCommand::ReleaseDouble => STATUS_LOCKED,
    }
}

fn command_token(cmd: LockCommand) -> (r: &'static str)
    ensures
        r@ == cmd.token(),
{
    match cmd {
        LockCommand::UnlockDriver => "unlock_driver",
        LockCommand::UnlockAll => "unlock_all",
        LockCommand::LockAll => "lock_all",
        LockCommand::DoubleLockAll => "lock_double",
        LockCommand::ReleaseDouble => "release_double",
    }
}

fn text_publication(signal: VssPath, text: &str) -> (r: LockOutput)
    ensures
        r@ == LockEffect::Publish(signal@, Value::Text(text@)),
{
    LockOutput::Publish(Publication { signal, value: SignalValue::String(text.to_owned()) })
}

impl DoorLockArbiter {
    /// A transient arbiter: the lock status starts as unlocked and is not
    /// published before a command arrives.
    pub fn new(allow_list: Vec<DoorLockAllowEntry>) -> (r: DoorLockArbiter)
        ensures
            r@ == initial(requestors(allow_list@), STATUS_UNLOCKED@),
            r@.valid(),
    {
        let (arbiter, _) = Self::new_with_nvm(allow_list, None);
        arbiter
    }

    /// An arbiter that takes up the lock status stored before the last power
    /// cycle and republishes it.
    pub fn new_with_nvm(allow_list: Vec<DoorLockAllowEntry>, stored: Option<String>) -> (r: (
        DoorLockArbiter,
        Vec<LockOutput>,
    ))
        ensures
            r.0@.valid(),
            match stored {
                Some(status) => {
                    &&& r.0@ == initial(requestors(allow_list@), status@)
                    &&& lock_effects(r.1@) == seq![
                        LockEffect::Publish(CABIN_LOCK_STATUS@, Value::Text(status@)),
                    ]
                },
                None => {
                    &&& r.0@ == initial(requestors(allow_list@), STATUS_UNLOCKED@)
                    &&& lock_effects(r.1@) == Seq::<LockEffect>::empty()
                },
            },
    {
        let (last_status, outputs) = match stored {
            Some(status) => {
                let outputs = vec![text_publication(CABIN_LOCK_STATUS, status.as_str())];
                (status, outputs)
            },
            None => (STATUS_UNLOCKED.to_owned(), Vec::new()),
        };
        let arbiter = DoorLockArbiter {
            allow_list,
            active: None,
            pending: None,
            crash_lockout_until: None,
            last_status,
        };
        (arbiter, outputs)
    }

    /// The request that the motor is working on.
    pub fn active(&self) -> (r: Option<DoorLockRequest>)
        ensures
            r == self@.active,
    {
        self.active
    }

    /// The request that waits for the motor.
    pub fn pending(&self) -> (r: Option<DoorLockRequest>)
        ensures
            r == self@.pending,
    {
        self.pending
    }

    fn is_allowed(&self, feature_id: FeatureId) -> (r: bool)
        ensures
            r == self@.allowed.contains(feature_id),
    {
        let mut i: usize = 0;
        while i < self.allow_list.len()
            invariant
                i <= self.allow_list@.len(),
                forall|j: int|
                    0 <= j < i ==> #[trigger] requestors(self.allow_list@)[j] != feature_id,
            decreases self.allow_list@.len() - i,
        {
            if self.allow_list[i].feature_id == feature_id {
                assert(requestors(self.allow_list@)[i as int] == feature_id);
                return true;
            }
            assert(requestors(self.allow_list@)[i as int] != feature_id);
            i += 1;
        }
        false
    }

    fn dispatch_lock_command(&mut self, req: DoorLockRequest, now: u64) -> (r: Vec<LockOutput>)
        ensures
            final(self)@ == old(self)@.dispatched(req, now),
            lock_effects(r@) == old(self)@.dispatch_effects(req),
    {
        let ghost before = self@;
        let mut outputs = vec![text_publication(CENTRAL_LOCK_CMD, command_token(req.command))];
        let new_status = lock_status_for(req.command);
        if !same_text(new_status, self.last_status.as_str()) {
            outputs.push(text_publication(CABIN_LOCK_STATUS, new_status));
            outputs.push(LockOutput::SaveStatus(new_status));
            outputs.push(text_publication(LOCK_LAST_REQUESTOR, req.feature_id.name()));
            self.last_status = new_status.to_owned();
        }
        if req.feature_id == FeatureId::CrashUnlock {
            self.crash_lockout_until = Some(clock::deadline(now, CRASH_LOCKOUT_MS));
        }
        self.active = Some(req);
        assert(lock_effects(outputs@) =~= before.dispatch_effects(req));
        outputs
    }

    /// Submits a lock request at time `now`.
    pub fn request(&mut self, req: DoorLockRequest, now: u64) -> (r: Vec<LockOutput>)
        requires
            old(self)@.valid(),
        ensures
            final(self)@.valid(),
            (final(self)@, lock_effects(r@)) == old(self)@.requested(req, now),
    {
        let ghost before = self@;
        if !self.is_allowed(req.feature_id) {
            let r: Vec<LockOutput> = Vec::new();
            assert(lock_effects(r@) =~= Seq::<LockEffect>::empty());
            return r;
        }
        if let Some(end) = self.crash_lockout_until {
            if now < end {
                let r: Vec<LockOutput> = Vec::new();
                assert(lock_effects(r@) =~= Seq::<LockEffect>::empty());
                return r;
            }
            self.crash_lockout_until = None;
        }
        assert(self@ =~= (LockState { lockout_until: None, ..before }));
        if self.active.is_none() {
            return self.dispatch_lock_command(req, now);
        }
        let crash_waits = match self.pending {
            Some(p) => p.feature_id == FeatureId::CrashUnlock,
            None => false,
        };
        if !crash_waits {
            self.pending = Some(req);
        }
        let r: Vec<LockOutput> = Vec::new();
        assert(lock_effects(r@) =~= Seq::<LockEffect>::empty());
        r
    }

    /// Takes the acknowledgement of the active operation at time `now`.
    pub fn ack(&mut self, ack: LockAck, now: u64) -> (r: Vec<LockOutput>)
        requires
            old(self)@.valid(),
        ensures
            final(self)@.valid(),
            (final(self)@, lock_effects(r@)) == old(self)@.acknowledged(now),
    {
        let _ = ack;
        self.active = None;
        match self.pending {
            Some(next) => {
                self.pending = None;
                self.dispatch_lock_command(next, now)
            },
            None => {
                let r: Vec<LockOutput> = Vec::new();
                assert(lock_effects(r@) =~= Seq::<LockEffect>::empty());
                r
            },
        }
    }
}

/// The allow-list of the door-lock arbiter.
pub fn door_lock_allow_list() -> (r: Vec<DoorLockAllowEntry>)
    ensures
        requestors(r@) == door_lock_table(),
{
    let r = vec![
        DoorLockAllowEntry { feature_id: FeatureId::KeyfobPeps },
        DoorLockAllowEntry { feature_id: FeatureId::AutoLock },
        DoorLockAllowEntry { feature_id: FeatureId::DoorTrimButton },
        DoorLockAllowEntry { feature_id: FeatureId::KeyfobRke },
        DoorLockAllowEntry { feature_id: FeatureId::PhoneApp },
        DoorLockAllowEntry { feature_id: FeatureId::PhoneBle },
        DoorLockAllowEntry { feature_id: FeatureId::NfcCard },
        DoorLockAllowEntry { feature_id: FeatureId::NfcPhone },
        DoorLockAllowEntry { feature_id: FeatureId::AutoRelock },
        DoorLockAllowEntry { feature_id: FeatureId::CrashUnlock },
        DoorLockAllowEntry { feature_id: FeatureId::WalkAwayLock },
        DoorLockAllowEntry { feature_id: FeatureId::ThumbPadLock },
        DoorLockAllowEntry { feature_id: FeatureId::DoubleLockRelease },
        DoorLockAllowEntry { feature_id: FeatureId::PassiveEntry },
        DoorLockAllowEntry { feature_id: FeatureId::KeypadLock },
        DoorLockAllowEntry { feature_id: FeatureId::SlamLock },
    ];
    assert(requestors(r@) =~= door_lock_table());
    r
}

/// The door-lock arbiter with all authorized requestors, without stored status.
pub fn door_lock_arbiter() -> (r: DoorLockArbiter)
    ensures
        r@ == initial(door_lock_table(), STATUS_UNLOCKED@),
        r@.valid(),
{
    DoorLockArbiter::new(door_lock_allow_list())
}

/// The door-lock arbiter with all authorized requestors, which takes up the
/// stored lock status and republishes it.
pub fn door_lock_arbiter_with_nvm(stored: String) -> (r: (DoorLockArbiter, Vec<LockOutput>))
    ensures
        r.0@ == initial(door_lock_table(), stored@),
        r.0@.valid(),
        lock_effects(r.1@) == seq![
            LockEffect::Publish(CABIN_LOCK_STATUS@, Value::Text(stored@)),
        ],
{
    DoorLockArbiter::new_with_nvm(door_lock_allow_list(), Some(stored))
}

} // verus!
