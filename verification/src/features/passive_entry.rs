//! Passive entry: unlocks a door when its handle is pulled and an authenticated
//! device is in the zone of that door, and opens the trunk in the same way from
//! the exterior button while the cabin is locked.
//!
//! A pull or a press starts an attempt: a fresh nonce is published as challenge,
//! and the first response of a candidate device that matches the expected one
//! within the timeout wins. The zone alone proves nothing, as anyone could claim
//! it. What the expected response is depends on the secret of the device and on
//! the nonce, and is computed by the caller.

use vstd::prelude::*;

use rand::rngs::OsRng;
use rand::RngCore;

use crate::arbiter::door_lock::{
    CABIN_LOCK_STATUS, FEEDBACK_REQUEST, LOCK_LAST_REQUESTOR, STATUS_DOUBLE_LOCKED,
    STATUS_DRIVER_UNLOCKED, STATUS_LOCKED, STATUS_UNLOCKED,
};
use crate::arbiter::tables::TRUNK_OPEN_CMD;
use crate::clock;
use crate::config::{DriverDoorSide, PlatformConfig};
use crate::features::doors;
use crate::features::doors::no_flags;
use crate::features::hex;
use crate::features::hex::{hex_text, read_pair};
use crate::ipc_message::{FeatureId, Priority, SignalValue, Value};
use crate::signal_bus::{
    claim_bool, lock_request, no_outputs, publish_text, release_claim, same_text, Domain, Effect,
    LockCommand, Output, VssPath,
};
use crate::zone::Zone;

verus! {

/// How long a response is waited for, in milliseconds.
pub const CHALLENGE_TIMEOUT_MS: u64 = 150;

/// How long after unlocking the driver door a second pull unlocks all doors, in
/// milliseconds.
pub const TWO_STAGE_WINDOW_MS: u64 = 3_000;

/// Button above the licence plate.
pub const TRUNK_BUTTON: VssPath = "Body.Trunk.ExteriorButton.IsPressed";

/// Challenge to fobs.
pub const PEPS_LF_CHALLENGE: VssPath = "Body.PEPS.LfChallenge";

/// Challenge to phones.
pub const PEPS_BLE_CHALLENGE: VssPath = "Body.PEPS.BleChallenge";

/// Number of key fobs that can be paired.
pub const NUM_FOBS: usize = 6;

/// Number of phones that can be paired.
pub const NUM_PHONES: usize = 2;

/// A door with an outside handle.
#[derive(Debug, Clone, Copy, PartialEq, Eq, Structural)]
pub enum Door {
    Row1Left,
    Row1Right,
    Row2Left,
    Row2Right,
}

/// Kind of a paired device.
#[derive(Debug, Clone, Copy, PartialEq, Eq, Structural)]
pub enum DeviceKind {
    Fob,
    Phone,
}

/// A paired device: kind, slot among its kind, and the secret shared with it.
#[derive(Debug, Clone, Copy)]
pub struct PairedDevice {
    pub kind: DeviceKind,
    pub slot: usize,
    pub secret: [u8; 16],
}

impl Door {
    /// The zone in which a device has to be.
    pub open spec fn zone(self) -> Zone {
        match self {
            Door::Row1Left | Door::Row2Left => Zone::LeftFront,
            Door::Row1Right | Door::Row2Right => Zone::RightFront,
        }
    }

    /// The position of the door among the four.
    pub open spec fn place(self) -> int {
        match self {
            Door::Row1Left => 0,
            Door::Row1Right => 1,
            Door::Row2Left => 2,
            Door::Row2Right => 3,
        }
    }

    fn index(self) -> (r: usize)
        ensures
            r == self.place(),
            r < 4,
    {
        match self {
            Door::Row1Left => 0,
            Door::Row1Right => 1,
            Door::Row2Left => 2,
            Door::Row2Right => 3,
        }
    }

    /// The door is in the rear row.
    pub open spec fn rear(self) -> bool {
        self is Row2Left || self is Row2Right
    }

    /// The door is the driver door.
    pub open spec fn driver(self, config: PlatformConfig) -> bool {
        match config.dealer.driver_door_side {
            DriverDoorSide::Left => self is Row1Left,
            DriverDoorSide::Right => self is Row1Right,
        }
    }

    /// The pull signal of the outside handle.
    pub fn handle_signal(self) -> (r: VssPath)
        ensures
            r@ == match self {
                Door::Row1Left => "Body.Doors.Row1.Left.Handle.Outside.IsPulled"@,
                Door::Row1Right => "Body.Doors.Row1.Right.Handle.Outside.IsPulled"@,
                Door::Row2Left => "Body.Doors.Row2.Left.Handle.Outside.IsPulled"@,
                Door::Row2Right => "Body.Doors.Row2.Right.Handle.Outside.IsPulled"@,
            },
    {
        match self {
            Door::Row1Left => "Body.Doors.Row1.Left.Handle.Outside.IsPulled",
            Door::Row1Right => "Body.Doors.Row1.Right.Handle.Outside.IsPulled",
            Door::Row2Left => "Body.Doors.Row2.Left.Handle.Outside.IsPulled",
            Door::Row2Right => "Body.Doors.Row2.Right.Handle.Outside.IsPulled",
        }
    }

    /// The zone in which a device has to be. Rear doors share the antenna of the
    /// front door on their side.
    pub fn proximity_zone(self) -> (r: Zone)
        ensures
            r == self.zone(),
    {
        match self {
            Door::Row1Left | Door::Row2Left => Zone::LeftFront,
            Door::Row1Right | Door::Row2Right => Zone::RightFront,
        }
    }
}

/// True iff the door is in the rear row.
pub fn is_rear_door(door: Door) -> (r: bool)
    ensures
        r == door.rear(),
{
    match door {
        Door::Row2Left | Door::Row2Right => true,
        _ => false,
    }
}

/// True iff the door is the driver door.
pub fn is_driver_door(door: Door, config: &PlatformConfig) -> (r: bool)
    ensures
        r == door.driver(*config),
{
    match config.dealer.driver_door_side {
        DriverDoorSide::Left => door == Door::Row1Left,
        DriverDoorSide::Right => door == Door::Row1Right,
    }
}

/// A pull of `door` needs authentication: with this lock status the door is not
/// open to everyone.
pub open spec fn needs_auth(door: Door, status: Seq<char>, config: PlatformConfig) -> bool {
    if status == STATUS_UNLOCKED@ {
        false
    } else if status == STATUS_DRIVER_UNLOCKED@ {
        !door.driver(config)
    } else {
        true
    }
}

/// True iff a pull of `door` needs authentication. A status that is not known
/// counts as locked.
pub fn auth_needed_for_door(door: Door, lock_status: &str, config: &PlatformConfig) -> (r: bool)
    ensures
        r == needs_auth(door, lock_status@, *config),
{
    if same_text(lock_status, STATUS_UNLOCKED) {
        false
    } else if same_text(lock_status, STATUS_DRIVER_UNLOCKED) {
        !is_driver_door(door, config)
    } else {
        true
    }
}

/// The status means that the cabin is locked.
pub open spec fn cabin_locked(status: Seq<char>) -> bool {
    status == STATUS_LOCKED@ || status == STATUS_DOUBLE_LOCKED@
}

/// True iff the status means that the cabin is locked.
pub fn is_cabin_locked(status: &str) -> (r: bool)
    ensures
        r == cabin_locked(status@),
{
    same_text(status, STATUS_LOCKED) || same_text(status, STATUS_DOUBLE_LOCKED)
}

impl PairedDevice {
    /// The slot exists.
    pub open spec fn valid(self) -> bool {
        match self.kind {
            DeviceKind::Fob => self.slot < NUM_FOBS,
            DeviceKind::Phone => self.slot < NUM_PHONES,
        }
    }

    /// The two devices have the same kind and slot.
    pub open spec fn same_slot(self, kind: DeviceKind, slot: usize) -> bool {
        self.kind == kind && self.slot == slot
    }

    /// The signal on which this device answers a challenge.
    pub fn challenge_response_signal(&self) -> (r: VssPath)
        requires
            self.valid(),
        ensures
            r@ == match (self.kind, self.slot) {
                (DeviceKind::Fob, 0) => "Body.PEPS.Plant.KeyFob.1.ChallengeResponse"@,
                (DeviceKind::Fob, 1) => "Body.PEPS.Plant.KeyFob.2.ChallengeResponse"@,
                (DeviceKind::Fob, 2) => "Body.PEPS.Plant.KeyFob.3.ChallengeResponse"@,
                (DeviceKind::Fob, 3) => "Body.PEPS.Plant.KeyFob.4.ChallengeResponse"@,
                (DeviceKind::Fob, 4) => "Body.PEPS.Plant.KeyFob.5.ChallengeResponse"@,
                (DeviceKind::Fob, _) => "Body.PEPS.Plant.KeyFob.6.ChallengeResponse"@,
                (DeviceKind::Phone, 0) => "Body.PEPS.Plant.BlePhone.1.ChallengeResponse"@,
                (DeviceKind::Phone, _) => "Body.PEPS.Plant.BlePhone.2.ChallengeResponse"@,
            },
    {
        match (self.kind, self.slot) {
            (DeviceKind::Fob, 0) => "Body.PEPS.Plant.KeyFob.1.ChallengeResponse",
            (DeviceKind::Fob, 1) => "Body.PEPS.Plant.KeyFob.2.ChallengeResponse",
            (DeviceKind::Fob, 2) => "Body.PEPS.Plant.KeyFob.3.ChallengeResponse",
            (DeviceKind::Fob, 3) => "Body.PEPS.Plant.KeyFob.4.ChallengeResponse",
            (DeviceKind::Fob, 4) => "Body.PEPS.Plant.KeyFob.5.ChallengeResponse",
            (DeviceKind::Fob, _) => "Body.PEPS.Plant.KeyFob.6.ChallengeResponse",
            (DeviceKind::Phone, 0) => "Body.PEPS.Plant.BlePhone.1.ChallengeResponse",
            (DeviceKind::Phone, _) => "Body.PEPS.Plant.BlePhone.2.ChallengeResponse",
        }
    }

    /// The signal that says in which zone this device is.
    pub fn zone_signal(&self) -> (r: VssPath)
        requires
            self.valid(),
        ensures
            r@ == match (self.kind, self.slot) {
                (DeviceKind::Fob, 0) => "Body.PEPS.Plant.KeyFob.1.Zone"@,
                (DeviceKind::Fob, 1) => "Body.PEPS.Plant.KeyFob.2.Zone"@,
                (DeviceKind::Fob, 2) => "Body.PEPS.Plant.KeyFob.3.Zone"@,
                (DeviceKind::Fob, 3) => "Body.PEPS.Plant.KeyFob.4.Zone"@,
                (DeviceKind::Fob, 4) => "Body.PEPS.Plant.KeyFob.5.Zone"@,
                (DeviceKind::Fob, _) => "Body.PEPS.Plant.KeyFob.6.Zone"@,
                (DeviceKind::Phone, 0) => "Body.PEPS.Plant.BlePhone.1.Zone"@,
                (DeviceKind::Phone, _) => "Body.PEPS.Plant.BlePhone.2.Zone"@,
            },
    {
        match (self.kind, self.slot) {
            (DeviceKind::Fob, 0) => "Body.PEPS.Plant.KeyFob.1.Zone",
            (DeviceKind::Fob, 1) => "Body.PEPS.Plant.KeyFob.2.Zone",
            (DeviceKind::Fob, 2) => "Body.PEPS.Plant.KeyFob.3.Zone",
            (DeviceKind::Fob, 3) => "Body.PEPS.Plant.KeyFob.4.Zone",
            (DeviceKind::Fob, 4) => "Body.PEPS.Plant.KeyFob.5.Zone",
            (DeviceKind::Fob, _) => "Body.PEPS.Plant.KeyFob.6.Zone",
            (DeviceKind::Phone, 0) => "Body.PEPS.Plant.BlePhone.1.Zone",
            (DeviceKind::Phone, _) => "Body.PEPS.Plant.BlePhone.2.Zone",
        }
    }
}

/// What the text of a response stands for: sixteen bytes, or nothing.
pub open spec fn response_of(v: Value) -> Option<Seq<u8>> {
    match v {
        Value::Text(t) => if t.len() == 32 && hex::readable(t, 16) {
            Some(Seq::new(16, |i: int| hex::pair_value(t[2 * i], t[2 * i + 1])->0 as u8))
        } else {
            None
        },
        _ => None,
    }
}

/// The sixteen bytes of a response: a text of thirty-two hexadecimal digits. Every
/// other value is no response.
pub fn parse_response_hex(v: &SignalValue) -> (r: Option<[u8; 16]>)
    ensures
        match r {
            Some(bytes) => response_of(v@) == Some(bytes@),
            None => response_of(v@) is None,
        },
{
    let s = match v {
        SignalValue::String(s) => s.as_str(),
        _ => {
            return None;
        },
    };
    if s.unicode_len() != 32 {
        return None;
    }
    let mut out: [u8; 16] = [0u8; 16];
    let mut i: usize = 0;
    while i < 16
        invariant
            i <= 16,
            v@ == Value::Text(s@),
            s@.len() == 32,
            out@.len() == 16,
            hex::readable(s@, i as int),
            forall|k: int|
                0 <= k < i ==> #[trigger] out@[k] == hex::pair_value(
                    s@[2 * k],
                    s@[2 * k + 1],
                )->0 as u8,
        decreases 16 - i,
    {
        match read_pair(s.get_char(2 * i), s.get_char(2 * i + 1)) {
            Some(n) => {
                out[i] = n;
            },
            None => {
                assert(hex::pair_value(s@[2 * (i as int)], s@[2 * (i as int) + 1]) is None);
                return None;
            },
        }
        i += 1;
    }
    assert(out@ =~= Seq::new(
        16,
        |k: int| hex::pair_value(s@[2 * k], s@[2 * k + 1])->0 as u8,
    ));
    Some(out)
}

/// Trusted: `try_fill_bytes` of `OsRng` in the crate `rand`. It fills the sixteen
/// bytes from the entropy source of the system, or reports that the source failed.
/// Nothing is claimed of the bytes, nor of when the source fails: both depend on
/// the system.
#[verifier::external_body]
fn draw_nonce() -> (r: Option<[u8; 16]>) {
    let mut nonce = [0u8; 16];
    match OsRng.try_fill_bytes(&mut nonce) {
        Ok(()) => Some(nonce),
        Err(_) => None,
    }
}

/// A fresh random nonce, or nothing where the entropy source of the system fails.
/// Nothing is stated of its bytes: they rest on chance.
pub fn rand_nonce() -> (r: Option<[u8; 16]>)
    ensures
        r matches Some(nonce) ==> nonce@.len() == 16,
{
    draw_nonce()
}

/// The effects of challenging with `nonce`: fobs and phones get the same.
pub open spec fn challenge_effects(nonce: Seq<u8>) -> Seq<Effect> {
    seq![
        Effect::publish(PEPS_LF_CHALLENGE, Value::Text(hex::text(nonce))),
        Effect::publish(PEPS_BLE_CHALLENGE, Value::Text(hex::text(nonce))),
    ]
}

/// The challenge with `nonce`.
pub fn challenge(nonce: &[u8; 16]) -> (r: Vec<Output>)
    ensures
        Effect::all(r@) == challenge_effects(nonce@),
{
    let text = hex_text(nonce);
    let r = vec![
        publish_text(PEPS_LF_CHALLENGE, text.as_str()),
        publish_text(PEPS_BLE_CHALLENGE, text.as_str()),
    ];
    assert(Effect::all(r@) =~= challenge_effects(nonce@));
    r
}

/// A response proves the device: it comes in time and is the expected one.
pub open spec fn proves(v: Value, expected: Seq<u8>, now: u64, deadline: u64) -> bool {
    now < deadline && response_of(v) == Some(expected)
}

/// When an attempt begun at `now` times out.
pub fn response_deadline(now: u64) -> (r: u64)
    ensures
        r == clock::later(now, CHALLENGE_TIMEOUT_MS),
{
    clock::deadline(now, CHALLENGE_TIMEOUT_MS)
}

/// True iff the value, seen at `now`, proves the device whose expected response
/// is given, in an attempt that times out at `deadline`.
pub fn response_verifies(val: &SignalValue, expected: &[u8; 16], now: u64, deadline: u64) -> (r:
    bool)
    ensures
        r == proves(val@, expected@, now, deadline),
{
    if now >= deadline {
        return false;
    }
    match parse_response_hex(val) {
        Some(bytes) => same_bytes(&bytes, expected),
        None => false,
    }
}

fn same_bytes(a: &[u8; 16], b: &[u8; 16]) -> (r: bool)
    ensures
        r == (a@ == b@),
{
    let mut i: usize = 0;
    while i < 16
        invariant
            i <= 16,
            a@.len() == 16,
            b@.len() == 16,
            forall|j: int| 0 <= j < i ==> a@[j] == b@[j],
        decreases 16 - i,
    {
        if a[i] != b[i] {
            return false;
        }
        i += 1;
    }
    assert(a@ =~= b@);
    true
}

/// Where an attempt stands.
#[derive(Debug, Clone, Copy, PartialEq, Eq, Structural)]
pub enum Verdict {
    /// No device has proved itself yet.
    Waiting,
    /// No device has proved itself in time.
    TimedOut,
    /// The device at this position has proved itself.
    Proven(usize),
}

/// State of an attempt under way.
pub struct TrialState {
    /// The positions of the candidate devices.
    pub candidates: Seq<usize>,
    /// The response that is expected of each candidate.
    pub expected: Seq<Seq<u8>>,
    pub deadline: u64,
}

/// A value of the response signal of a candidate, and the time at which it came.
pub struct Arrival {
    pub candidate: int,
    pub value: Value,
    pub at: u64,
}

impl TrialState {
    /// The arrival proves its device.
    pub open spec fn proven_by(self, a: Arrival) -> bool {
        proves(a.value, self.expected[a.candidate], a.at, self.deadline)
    }

    /// What one arrival leads to.
    pub open spec fn verdict(self, a: Arrival) -> Verdict {
        if a.at >= self.deadline {
            Verdict::TimedOut
        } else if self.proven_by(a) {
            Verdict::Proven(self.candidates[a.candidate])
        } else {
            Verdict::Waiting
        }
    }

    /// What a sequence of arrivals leads to: the first one that decides.
    pub open spec fn outcome(self, arrivals: Seq<Arrival>) -> Verdict
        decreases arrivals.len(),
    {
        if arrivals.len() == 0 {
            Verdict::Waiting
        } else if self.verdict(arrivals[0]) is Waiting {
            self.outcome(arrivals.skip(1))
        } else {
            self.verdict(arrivals[0])
        }
    }
}

/// An attempt under way: the challenge is out, and responses come in.
pub struct Trial {
    candidates: Vec<usize>,
    expected: Vec<[u8; 16]>,
    deadline: u64,
}

impl View for Trial {
    type V = TrialState;

    closed spec fn view(&self) -> TrialState {
        TrialState {
            candidates: self.candidates@,
            expected: responses(self.expected@),
            deadline: self.deadline,
        }
    }
}

/// The bytes of a list of responses.
pub open spec fn responses(expected: Seq<[u8; 16]>) -> Seq<Seq<u8>> {
    expected.map_values(|b: [u8; 16]| b@)
}

impl Trial {
    /// Every candidate has an expected response.
    pub open spec fn wf(&self) -> bool {
        self@.candidates.len() == self@.expected.len()
    }

    /// An attempt with these candidates, begun at time `now`. The responses
    /// expected of them are in the same order.
    pub fn new(candidates: Vec<usize>, expected: Vec<[u8; 16]>, now: u64) -> (r: Trial)
        requires
            candidates@.len() == expected@.len(),
        ensures
            r.wf(),
            r@ == (TrialState {
                candidates: candidates@,
                expected: responses(expected@),
                deadline: clock::later(now, CHALLENGE_TIMEOUT_MS),
            }),
    {
        Trial { candidates, expected, deadline: response_deadline(now) }
    }

    /// When the attempt times out.
    pub fn deadline(&self) -> (r: u64)
        ensures
            r == self@.deadline,
    {
        self.deadline
    }

    /// Takes a value of the response signal of the candidate with this number at
    /// time `now`.
    pub fn on_response(&self, candidate: usize, val: &SignalValue, now: u64) -> (r: Verdict)
        requires
            self.wf(),
            candidate < self@.candidates.len(),
        ensures
            r == self@.verdict(Arrival { candidate: candidate as int, value: val@, at: now }),
    {
        if now >= self.deadline {
            return Verdict::TimedOut;
        }
        if response_verifies(val, &self.expected[candidate], now, self.deadline) {
            Verdict::Proven(self.candidates[candidate])
        } else {
            Verdict::Waiting
        }
    }

    /// Takes the time.
    pub fn on_tick(&self, now: u64) -> (r: Verdict)
        ensures
            r == if now >= self@.deadline {
                Verdict::TimedOut
            } else {
                Verdict::Waiting
            },
    {
        if now >= self.deadline {
            Verdict::TimedOut
        } else {
            Verdict::Waiting
        }
    }
}

/// The first arrival that proves its device decides, if all before it came in
/// time and proved nothing.
pub proof fn law_first_proof_wins(s: TrialState, arrivals: Seq<Arrival>, j: int)
    requires
        0 <= j < arrivals.len(),
        s.proven_by(arrivals[j]),
        forall|i: int|
            0 <= i < j ==> (#[trigger] arrivals[i]).at < s.deadline && !s.proven_by(arrivals[i]),
    ensures
        s.outcome(arrivals) == Verdict::Proven(s.candidates[arrivals[j].candidate]),
    decreases arrivals.len(),
{
    if j > 0 {
        assert(s.verdict(arrivals[0]) is Waiting);
        let rest = arrivals.skip(1);
        assert(rest[j - 1] == arrivals[j]);
        assert forall|i: int| 0 <= i < j - 1 implies (#[trigger] rest[i]).at < s.deadline
            && !s.proven_by(rest[i]) by {
            assert(rest[i] == arrivals[i + 1]);
        }
        law_first_proof_wins(s, rest, j - 1);
    }
}

/// No device gets in without a proof: where no arrival proves its device in time,
/// none is accepted.
pub proof fn law_no_proof_no_entry(s: TrialState, arrivals: Seq<Arrival>)
    requires
        forall|i: int| 0 <= i < arrivals.len() ==> !s.proven_by(#[trigger] arrivals[i]),
    ensures
        s.outcome(arrivals) !is Proven,
    decreases arrivals.len(),
{
    if arrivals.len() > 0 {
        let rest = arrivals.skip(1);
        assert forall|i: int| 0 <= i < rest.len() implies !s.proven_by(#[trigger] rest[i]) by {
            assert(rest[i] == arrivals[i + 1]);
        }
        assert(!s.proven_by(arrivals[0]));
        law_no_proof_no_entry(s, rest);
    }
}

/// What an attempt is for.
#[derive(Debug, Clone, Copy, PartialEq, Eq, Structural)]
pub enum Goal {
    Unlock(Door),
    OpenTrunk,
}

impl Goal {
    /// The zone in which a device has to be.
    pub open spec fn zone(self) -> Zone {
        match self {
            Goal::Unlock(door) => door.zone(),
            Goal::OpenTrunk => Zone::Trunk,
        }
    }
}

/// An attempt to authenticate: its goal, and the positions of the candidate
/// devices.
#[derive(Debug)]
pub struct Attempt {
    pub goal: Goal,
    pub candidates: Vec<usize>,
}

/// Unlocking of the driver door that a second pull can extend to all doors.
#[derive(Debug, Clone, Copy, PartialEq, Eq)]
pub struct PendingStageTwo {
    pub started: u64,
    pub device_kind: DeviceKind,
    pub device_slot: usize,
}

/// State of the feature.
#[verifier::ext_equal]
pub struct EntryState {
    pub devices: Seq<PairedDevice>,
    /// The zone in which each device was seen last.
    pub zones: Seq<Zone>,
    pub pending: Option<PendingStageTwo>,
    /// The cabin lock status seen last.
    pub status: Seq<char>,
    /// Which outside handles are pulled.
    pub pulled: Seq<bool>,
    /// The exterior trunk button is pressed.
    pub button: bool,
}

/// The positions below `n` of the devices in `zone`, in order.
pub open spec fn in_zone(zones: Seq<Zone>, zone: Zone, n: nat) -> Seq<usize>
    decreases n,
{
    if n == 0 {
        Seq::empty()
    } else {
        let rest = in_zone(zones, zone, (n - 1) as nat);
        if zones[n - 1] == zone {
            rest.push((n - 1) as usize)
        } else {
            rest
        }
    }
}

impl EntryState {
    /// The positions of the devices in `zone`, in order.
    pub open spec fn candidates(self, zone: Zone) -> Seq<usize> {
        in_zone(self.zones, zone, self.zones.len())
    }

    /// The state after a value of the cabin lock status.
    pub open spec fn after_status(self, v: Value) -> EntryState {
        match v {
            Value::Text(s) => EntryState { status: s, ..self },
            _ => self,
        }
    }

    /// The state after a value of the zone signal of the device at position `i`.
    pub open spec fn after_zone(self, i: int, v: Value) -> EntryState {
        match v {
            Value::Text(s) => match Zone::named(s) {
                Some(z) => EntryState { zones: self.zones.update(i, z), ..self },
                None => self,
            },
            _ => self,
        }
    }

    /// A value of the handle of `door` starts an attempt, given a candidate. Only a
    /// change to `true` is a pull.
    pub open spec fn handle_counts(self, door: Door, v: Value, config: PlatformConfig) -> bool {
        &&& v == Value::Bool(true)
        &&& !self.pulled[door.place()]
        &&& door.rear() ==> config.vehicle_line.peps_rear_capacitive_handles
        &&& needs_auth(door, self.status, config)
    }

    /// The state after a value of the handle of `door`.
    pub open spec fn after_handle(self, door: Door, v: Value) -> EntryState {
        EntryState { pulled: self.pulled.update(door.place(), v == Value::Bool(true)), ..self }
    }

    /// A value of the trunk button starts an attempt, given a candidate. Only a
    /// change to `true` is a press.
    pub open spec fn button_counts(self, v: Value) -> bool {
        v == Value::Bool(true) && !self.button && cabin_locked(self.status)
    }

    /// The state after a value of the trunk button.
    pub open spec fn after_button(self, v: Value) -> EntryState {
        EntryState { button: v == Value::Bool(true), ..self }
    }

    /// An authenticated pull of `door` unlocks all doors.
    pub open spec fn stage_two(
        self,
        door: Door,
        device: PairedDevice,
        now: u64,
        config: PlatformConfig,
    ) -> bool {
        ||| !config.dealer.two_stage_unlock
        ||| !door.driver(config)
        ||| {
            &&& self.pending matches Some(p)
            &&& device.same_slot(p.device_kind, p.device_slot)
            &&& now - p.started < TWO_STAGE_WINDOW_MS
        }
    }

    /// The command that an authenticated pull of `door` leads to.
    pub open spec fn command(
        self,
        door: Door,
        device: PairedDevice,
        now: u64,
        config: PlatformConfig,
    ) -> LockCommand {
        if self.stage_two(door, device, now, config) {
            LockCommand::UnlockAll
        } else {
            LockCommand::UnlockDriver
        }
    }

    /// The effects of a proof: what the attempt was for is done.
    pub open spec fn proof_effects(
        self,
        goal: Goal,
        device: PairedDevice,
        now: u64,
        config: PlatformConfig,
    ) -> Seq<Effect> {
        match goal {
            Goal::Unlock(door) => seq![
                Effect::lock(self.command(door, device, now, config), FeatureId::PassiveEntry),
            ],
            Goal::OpenTrunk => trunk_effects(),
        }
    }

    /// The state and the effects after the door-lock arbiter has answered.
    pub open spec fn answered(
        self,
        command: LockCommand,
        device: PairedDevice,
        now: u64,
        accepted: bool,
    ) -> (EntryState, Seq<Effect>) {
        if !accepted {
            (self, Seq::empty())
        } else {
            let pending = if command == LockCommand::UnlockAll {
                None
            } else {
                Some(
                    PendingStageTwo {
                        started: now,
                        device_kind: device.kind,
                        device_slot: device.slot,
                    },
                )
            };
            (
                EntryState { pending, ..self },
                seq![Effect::publish(FEEDBACK_REQUEST, Value::Text("unlock"@))],
            )
        }
    }

    /// Every device has a zone, and every handle a reading.
    pub open spec fn valid(self) -> bool {
        self.zones.len() == self.devices.len() && self.pulled.len() == 4
    }
}

/// The effects of opening the trunk.
pub open spec fn trunk_effects() -> Seq<Effect> {
    seq![
        Effect::claim(
            Domain::Trunk,
            TRUNK_OPEN_CMD,
            Value::Bool(true),
            Priority::Medium,
            FeatureId::PassiveEntry,
        ),
        Effect::release(Domain::Trunk, TRUNK_OPEN_CMD, FeatureId::PassiveEntry),
        Effect::publish(FEEDBACK_REQUEST, Value::Text("trunk_unlock"@)),
    ]
}

/// The passive-entry feature.
pub struct PassiveEntry {
    paired_devices: Vec<PairedDevice>,
    device_zones: Vec<Zone>,
    pending_stage_two: Option<PendingStageTwo>,
    last_lock_status: String,
    handles_pulled: [bool; 4],
    button_pressed: bool,
}

impl View for PassiveEntry {
    type V = EntryState;

    closed spec fn view(&self) -> EntryState {
        EntryState {
            devices: self.paired_devices@,
            zones: self.device_zones@,
            pending: self.pending_stage_two,
            status: self.last_lock_status@,
            pulled: self.handles_pulled@,
            button: self.button_pressed,
        }
    }
}

impl PassiveEntry {
    /// The feature with these devices, all out of range, in a locked vehicle with
    /// no handle pulled.
    pub fn new(paired_devices: Vec<PairedDevice>) -> (r: PassiveEntry)
        ensures
            r@ == (EntryState {
                devices: paired_devices@,
                zones: Seq::new(paired_devices@.len(), |i: int| Zone::OutOfRange),
                pending: None,
                status: STATUS_LOCKED@,
                pulled: doors::none_set(),
                button: false,
            }),
            r@.valid(),
    {
        let mut device_zones: Vec<Zone> = Vec::new();
        let mut i: usize = 0;
        while i < paired_devices.len()
            invariant
                i <= paired_devices@.len(),
                device_zones@ == Seq::new(i as nat, |k: int| Zone::OutOfRange),
            decreases paired_devices@.len() - i,
        {
            device_zones.push(Zone::OutOfRange);
            i += 1;
            assert(device_zones@ =~= Seq::new(i as nat, |k: int| Zone::OutOfRange));
        }
        PassiveEntry {
            paired_devices,
            device_zones,
            pending_stage_two: None,
            last_lock_status: STATUS_LOCKED.to_owned(),
            handles_pulled: no_flags(),
            button_pressed: false,
        }
    }

    /// The paired devices.
    pub fn devices(&self) -> (r: &Vec<PairedDevice>)
        ensures
            r@ == self@.devices,
    {
        &self.paired_devices
    }

    /// Takes a value of the zone signal of the device at position `i`. Values that
    /// name no zone are ignored.
    pub fn on_zone(&mut self, i: usize, val: &SignalValue)
        requires
            old(self)@.valid(),
            i < old(self)@.devices.len(),
        ensures
            final(self)@.valid(),
            final(self)@ == old(self)@.after_zone(i as int, val@),
    {
        let ghost before = self@;
        if let SignalValue::String(s) = val {
            if let Some(z) = Zone::from_str_value(s.as_str()) {
                self.device_zones.set(i, z);
                assert(self@ =~= (EntryState {
                    zones: before.zones.update(i as int, z),
                    ..before
                }));
            }
        }
    }

    /// Takes a value of the cabin lock status.
    pub fn on_lock_status(&mut self, val: &SignalValue)
        ensures
            final(self)@ == old(self)@.after_status(val@),
    {
        if let SignalValue::String(s) = val {
            self.last_lock_status = s.clone();
        }
    }

    fn candidates_in_zone(&self, target: Zone) -> (r: Vec<usize>)
        ensures
            r@ == self@.candidates(target),
    {
        let mut r: Vec<usize> = Vec::new();
        let mut i: usize = 0;
        while i < self.device_zones.len()
            invariant
                i <= self.device_zones@.len(),
                r@ == in_zone(self.device_zones@, target, i as nat),
            decreases self.device_zones@.len() - i,
        {
            if self.device_zones[i] == target {
                r.push(i);
            }
            i += 1;
        }
        r
    }

    fn attempt(&self, goal: Goal, target: Zone) -> (r: Option<Attempt>)
        ensures
            match r {
                Some(a) => a.goal == goal && a.candidates@ == self@.candidates(target)
                    && a.candidates@.len() > 0,
                None => self@.candidates(target).len() == 0,
            },
    {
        let candidates = self.candidates_in_zone(target);
        if candidates.len() == 0 {
            None
        } else {
            Some(Attempt { goal, candidates })
        }
    }

    /// Takes a value of the outside handle of `door`. An attempt is made only if
    /// the pull counts and a paired device is in the zone of the door.
    pub fn on_handle(&mut self, door: Door, val: &SignalValue, config: &PlatformConfig) -> (r:
        Option<Attempt>)
        ensures
            final(self)@ == old(self)@.after_handle(door, val@),
            match r {
                Some(a) => {
                    &&& old(self)@.handle_counts(door, val@, *config)
                    &&& a.goal == Goal::Unlock(door)
                    &&& a.candidates@ == old(self)@.candidates(door.zone())
                    &&& a.candidates@.len() > 0
                },
                None => !old(self)@.handle_counts(door, val@, *config) || old(self)@.candidates(
                    door.zone(),
                ).len() == 0,
            },
    {
        let ghost before = self@;
        let i = door.index();
        let now = val.is_true();
        let was = self.handles_pulled[i];
        self.handles_pulled[i] = now;
        assert(self@ =~= before.after_handle(door, val@));
        if !now || was {
            return None;
        }
        if is_rear_door(door) && !config.vehicle_line.peps_rear_capacitive_handles {
            return None;
        }
        if !auth_needed_for_door(door, self.last_lock_status.as_str(), config) {
            return None;
        }
        self.attempt(Goal::Unlock(door), door.proximity_zone())
    }

    /// Takes a value of the exterior trunk button. An attempt is made only while
    /// the cabin is locked, and if a paired device is at the trunk.
    pub fn on_trunk_button(&mut self, val: &SignalValue) -> (r: Option<Attempt>)
        ensures
            final(self)@ == old(self)@.after_button(val@),
            match r {
                Some(a) => {
                    &&& old(self)@.button_counts(val@)
                    &&& a.goal == Goal::OpenTrunk
                    &&& a.candidates@ == old(self)@.candidates(Zone::Trunk)
                    &&& a.candidates@.len() > 0
                },
                None => !old(self)@.button_counts(val@) || old(self)@.candidates(Zone::Trunk).len()
                    == 0,
            },
    {
        let now = val.is_true();
        let was = self.button_pressed;
        self.button_pressed = now;
        if !now || was || !is_cabin_locked(self.last_lock_status.as_str()) {
            return None;
        }
        self.attempt(Goal::OpenTrunk, Zone::Trunk)
    }

    /// The command that an authenticated pull of `door` leads to at time `now`.
    pub fn unlock_command(
        &self,
        door: Door,
        device: &PairedDevice,
        now: u64,
        config: &PlatformConfig,
    ) -> (r: LockCommand)
        ensures
            r == self@.command(door, *device, now, *config),
    {
        let stage_two = if !config.dealer.two_stage_unlock {
            true
        } else if !is_driver_door(door, config) {
            true
        } else {
            match self.pending_stage_two {
                Some(p) => p.device_slot == device.slot && p.device_kind == device.kind && (now
                    < p.started || now - p.started < TWO_STAGE_WINDOW_MS),
                None => false,
            }
        };
        if stage_two {
            LockCommand::UnlockAll
        } else {
            LockCommand::UnlockDriver
        }
    }

    /// The request for `command`.
    pub fn dispatch_unlock(command: LockCommand) -> (r: Vec<Output>)
        ensures
            Effect::all(r@) == seq![Effect::lock(command, FeatureId::PassiveEntry)],
    {
        let r = vec![lock_request(command, FeatureId::PassiveEntry)];
        assert(Effect::all(r@) =~= seq![Effect::lock(command, FeatureId::PassiveEntry)]);
        r
    }

    /// Takes the proof of `device` in an attempt for `goal` at time `now`.
    pub fn on_proof(
        &self,
        goal: Goal,
        device: &PairedDevice,
        now: u64,
        config: &PlatformConfig,
    ) -> (r: Vec<Output>)
        ensures
            Effect::all(r@) == self@.proof_effects(goal, *device, now, *config),
    {
        match goal {
            Goal::Unlock(door) => {
                let command = self.unlock_command(door, device, now, config);
                PassiveEntry::dispatch_unlock(command)
            },
            Goal::OpenTrunk => PassiveEntry::dispatch_trunk_open(),
        }
    }

    /// Takes the answer of the door-lock arbiter to `command`, which `device` led
    /// to at time `now`.
    pub fn on_unlock_reply(
        &mut self,
        command: LockCommand,
        device: &PairedDevice,
        now: u64,
        accepted: bool,
    ) -> (r: Vec<Output>)
        ensures
            (final(self)@, Effect::all(r@)) == old(self)@.answered(
                command,
                *device,
                now,
                accepted,
            ),
    {
        if !accepted {
            return no_outputs();
        }
        self.pending_stage_two = if command == LockCommand::UnlockAll {
            None
        } else {
            Some(
                PendingStageTwo {
                    started: now,
                    device_kind: device.kind,
                    device_slot: device.slot,
                },
            )
        };
        let r = vec![publish_text(FEEDBACK_REQUEST, "unlock")];
        assert(Effect::all(r@) =~= seq![Effect::publish(FEEDBACK_REQUEST, Value::Text("unlock"@))]);
        r
    }

    /// Opens the trunk. The lock status of the cabin is left alone.
    pub fn dispatch_trunk_open() -> (r: Vec<Output>)
        ensures
            Effect::all(r@) == trunk_effects(),
    {
        let r = vec![
            claim_bool(
                Domain::Trunk,
                TRUNK_OPEN_CMD,
                true,
                Priority::Medium,
                FeatureId::PassiveEntry,
            ),
            release_claim(Domain::Trunk, TRUNK_OPEN_CMD, FeatureId::PassiveEntry),
            publish_text(FEEDBACK_REQUEST, "trunk_unlock"),
        ];
        assert(Effect::all(r@) =~= trunk_effects());
        r
    }
}

/// Reading a response text back gives the bytes that were written.
pub proof fn law_response_reads_back(bytes: Seq<u8>)
    requires
        bytes.len() == 16,
    ensures
        response_of(Value::Text(hex::text(bytes))) == Some(bytes),
{
    let t = hex::text(bytes);
    assert forall|i: int| 0 <= i < 16 implies hex::pair_value(#[trigger] t[2 * i], t[2 * i + 1])
        == Some(bytes[i] as int) by {
        hex::law_pair_reads_back(bytes[i]);
        assert((2 * i) / 2 == i && (2 * i + 1) / 2 == i);
    }
    assert(hex::readable(t, 16));
    assert(response_of(Value::Text(t))->0 =~= bytes);
}

/// A text with a character that is no hexadecimal digit is no response, and neither
/// is one of another length.
pub proof fn law_response_is_hex(t: Seq<char>, j: int)
    requires
        t.len() != 32 || 0 <= j < 32 && hex::digit_value(t[j]) is None,
    ensures
        response_of(Value::Text(t)) is None,
{
    if t.len() == 32 {
        let i = j / 2;
        assert(j == 2 * i || j == 2 * i + 1);
        assert(hex::pair_value(t[2 * i], t[2 * i + 1]) is None);
    }
}

/// The candidates are exactly the devices that are in the zone, each once.
pub proof fn law_candidates_are_the_devices_in_zone(s: EntryState, zone: Zone)
    requires
        s.zones.len() <= usize::MAX,
    ensures
        forall|k: int|
            0 <= k < s.candidates(zone).len() ==> (#[trigger] s.candidates(zone)[k])
                < s.zones.len() && s.zones[s.candidates(zone)[k] as int] == zone,
        forall|i: int|
            0 <= i < s.zones.len() && #[trigger] s.zones[i] == zone ==> s.candidates(
                zone,
            ).contains(i as usize),
        s.candidates(zone).no_duplicates(),
{
    lemma_in_zone(s.zones, zone, s.zones.len());
}

proof fn lemma_in_zone(zones: Seq<Zone>, zone: Zone, n: nat)
    requires
        n <= zones.len() <= usize::MAX,
    ensures
        forall|k: int|
            0 <= k < in_zone(zones, zone, n).len() ==> (#[trigger] in_zone(zones, zone, n)[k]) < n
                && zones[in_zone(zones, zone, n)[k] as int] == zone,
        forall|i: int|
            0 <= i < n && #[trigger] zones[i] == zone ==> in_zone(zones, zone, n).contains(
                i as usize,
            ),
        in_zone(zones, zone, n).no_duplicates(),
    decreases n,
{
    if n > 0 {
        let m = (n - 1) as nat;
        lemma_in_zone(zones, zone, m);
        let rest = in_zone(zones, zone, m);
        let all = in_zone(zones, zone, n);
        assert forall|i: int| 0 <= i < n && #[trigger] zones[i] == zone implies all.contains(
            i as usize,
        ) by {
            if i == m {
                assert(all[rest.len() as int] == m as usize);
            } else {
                let k = choose|k: int| 0 <= k < rest.len() && rest[k] == i as usize;
                assert(all[k] == i as usize);
            }
        }
    }
}

/// No paired device in the zone, no attempt: where every device is elsewhere,
/// there is no candidate.
pub proof fn law_no_device_in_zone_no_candidate(s: EntryState, zone: Zone)
    requires
        s.zones.len() <= usize::MAX,
        forall|i: int| 0 <= i < s.zones.len() ==> #[trigger] s.zones[i] != zone,
    ensures
        s.candidates(zone).len() == 0,
{
    law_candidates_are_the_devices_in_zone(s, zone);
    if s.candidates(zone).len() > 0 {
        assert(s.zones[s.candidates(zone)[0] as int] == zone);
    }
}

/// While everything is unlocked no pull counts, and while the driver door is
/// unlocked no pull of that door does. While the cabin is locked every pull of a
/// front door does. A handle that stays pulled counts once.
pub proof fn law_pull_follows_lock_status(s: EntryState, door: Door, v: Value, config: PlatformConfig)
    ensures
        s.status == STATUS_UNLOCKED@ ==> !s.handle_counts(door, v, config),
        s.status == STATUS_DRIVER_UNLOCKED@ && door.driver(config) ==> !s.handle_counts(
            door,
            v,
            config,
        ),
        cabin_locked(s.status) && !door.rear() && v == Value::Bool(true) && !s.pulled[door.place()]
            ==> s.handle_counts(door, v, config),
        s.status == STATUS_DRIVER_UNLOCKED@ && s.status != STATUS_UNLOCKED@ && !door.rear()
            && !door.driver(config) && v == Value::Bool(true) && !s.pulled[door.place()]
            ==> s.handle_counts(door, v, config),
        s.valid() ==> !s.after_handle(door, v).handle_counts(door, v, config),
{
    reveal_strlit("LOCKED");
    reveal_strlit("DOUBLE_LOCKED");
    reveal_strlit("UNLOCKED");
    reveal_strlit("DRIVER_UNLOCKED");
    if cabin_locked(s.status) {
        assert(STATUS_LOCKED@[0] == 'L' && STATUS_UNLOCKED@[0] == 'U');
        assert(STATUS_DOUBLE_LOCKED@[1] == 'O' && STATUS_DRIVER_UNLOCKED@[1] == 'R');
        assert(STATUS_DOUBLE_LOCKED@[0] == 'D' && STATUS_DRIVER_UNLOCKED@[0] == 'D');
    }
}

/// Rear handles count only on a vehicle line that wires them.
pub proof fn law_rear_handles_need_wiring(
    s: EntryState,
    door: Door,
    v: Value,
    config: PlatformConfig,
)
    requires
        door.rear(),
        !config.vehicle_line.peps_rear_capacitive_handles,
    ensures
        !s.handle_counts(door, v, config),
{
}

/// The driver door is never a rear door, and changing sides changes which front
/// door it is.
pub proof fn law_one_driver_door(config: PlatformConfig)
    ensures
        forall|door: Door| #[trigger] door.driver(config) ==> !door.rear(),
        Door::Row1Left.driver(config) != Door::Row1Right.driver(config),
{
}

/// A pull on another door than the driver door unlocks all doors, and so does
/// every pull where two-stage unlocking is off.
pub proof fn law_other_doors_unlock_all(
    s: EntryState,
    door: Door,
    device: PairedDevice,
    now: u64,
    config: PlatformConfig,
)
    requires
        !door.driver(config) || !config.dealer.two_stage_unlock,
    ensures
        s.command(door, device, now, config) == LockCommand::UnlockAll,
{
}

/// With two-stage unlocking, the first pull of the driver door unlocks that door
/// only. A second one by the same device within the window unlocks all doors. One
/// by another device, or after the window, does not.
pub proof fn law_two_stage_unlock(
    s: EntryState,
    door: Door,
    device: PairedDevice,
    other: PairedDevice,
    now: u64,
    then: u64,
    config: PlatformConfig,
)
    requires
        config.dealer.two_stage_unlock,
        door.driver(config),
        s.pending is None,
    ensures
        s.command(door, device, now, config) == LockCommand::UnlockDriver,
        ({
            let next = s.answered(LockCommand::UnlockDriver, device, now, true).0;
            next.command(door, other, then, config) == LockCommand::UnlockAll <==> other.same_slot(
                device.kind,
                device.slot,
            ) && then - now < TWO_STAGE_WINDOW_MS
        }),
{
}

/// Opening the trunk asks nothing of the central lock, and publishes neither a
/// lock status nor a requestor of one.
pub proof fn law_trunk_leaves_lock_alone()
    ensures
        forall|i: int|
            0 <= i < trunk_effects().len() ==> (#[trigger] trunk_effects()[i]) !is Lock && (trunk_effects()[i] matches Effect::Publish {
                signal,
                ..
            } ==> signal != CABIN_LOCK_STATUS@ && signal != LOCK_LAST_REQUESTOR@),
{
    reveal_strlit("Body.Doors.CentralLock.FeedbackRequest");
    reveal_strlit("Cabin.LockStatus");
    reveal_strlit("Cabin.LockStatus.LastRequestor");
    assert(FEEDBACK_REQUEST@[0] == 'B' && CABIN_LOCK_STATUS@[0] == 'C' && LOCK_LAST_REQUESTOR@[0]
        == 'C');
}

/// A request that the arbiter turned down changes nothing and gives no feedback.
pub proof fn law_rejected_unlock_is_silent(
    s: EntryState,
    command: LockCommand,
    device: PairedDevice,
    now: u64,
)
    ensures
        s.answered(command, device, now, false) == (s, Seq::<Effect>::empty()),
{
}

} // verus!
