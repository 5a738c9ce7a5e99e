//! What passive entry makes of its history.

use vstd::prelude::*;

use crate::arbiter::door_lock::FEEDBACK_REQUEST;
use crate::arbiter::tables::TRUNK_OPEN_CMD;
use crate::config::{DriverDoorSide, PlatformConfig};
use crate::features::entry_session;
use crate::features::entry_session::{EntrySession, Phase, SessionEvent, SessionState};
use crate::features::passive_entry;
use crate::features::passive_entry::{
    Arrival, Door, Goal, PairedDevice, PendingStageTwo, TrialState, Verdict,
};
use crate::history;
use crate::ipc_message::{FeatureId, Priority, Value};
use crate::signal_bus::{Domain, Effect, LockCommand, VssPath};
use crate::zone::Zone;

verus! {

/// The events of a run that came while the session was idle.
pub open spec fn heard(devices: Seq<PairedDevice>, events: Seq<SessionEvent>) -> Seq<SessionEvent>
    decreases events.len(),
{
    if events.len() == 0 {
        Seq::empty()
    } else {
        let before = events.drop_last();
        if entry_session::run(devices, before).phase is Idle {
            heard(devices, before).push(events.last())
        } else {
            heard(devices, before)
        }
    }
}

/// Reads off an event the zone that it names for a device.
pub open spec fn zone_named(device: int) -> spec_fn(SessionEvent) -> Option<Zone> {
    |e: SessionEvent|
        match e {
            SessionEvent::Zone { i, v: Value::Text(s) } => if i == device {
                Zone::named(s)
            } else {
                None
            },
            _ => None,
        }
}

/// Reads off an event the text of the lock status.
pub open spec fn status_seen() -> spec_fn(SessionEvent) -> Option<Seq<char>> {
    |e: SessionEvent|
        match e {
            SessionEvent::Status(Value::Text(s)) => Some(s),
            _ => None,
        }
}

/// Reads off an event whether the handle of a door is pulled.
pub open spec fn handle_seen(of: Door) -> spec_fn(SessionEvent) -> Option<bool> {
    |e: SessionEvent|
        match e {
            SessionEvent::Handle { door, v, .. } => if door == of {
                Some(v == Value::Bool(true))
            } else {
                None
            },
            _ => None,
        }
}

/// Reads off an event whether the trunk button is pressed.
pub open spec fn button_seen() -> spec_fn(SessionEvent) -> Option<bool> {
    |e: SessionEvent|
        match e {
            SessionEvent::Button(v) => Some(v == Value::Bool(true)),
            _ => None,
        }
}

/// The zone of a device by what was heard: the one named last for it, whichever
/// that is, and out of range before the first.
pub open spec fn zone_of(
    devices: Seq<PairedDevice>,
    events: Seq<SessionEvent>,
    device: int,
) -> Zone {
    history::latest_or(heard(devices, events), zone_named(device), Zone::OutOfRange)
}

/// The lock status by what was heard: the latest text, and locked before the
/// first.
pub open spec fn status_of(devices: Seq<PairedDevice>, events: Seq<SessionEvent>) -> Seq<char> {
    history::latest_or(heard(devices, events), status_seen(), "LOCKED"@)
}

/// The position of a door among the four, row by row and from left to right.
pub open spec fn position(door: Door) -> int {
    match door {
        Door::Row1Left => 0,
        Door::Row1Right => 1,
        Door::Row2Left => 2,
        Door::Row2Right => 3,
    }
}

/// Over every run what the session holds of each input is what it heard last of
/// it while idle: the zone of every device, the lock status, every handle and the
/// trunk button.
pub proof fn law_inputs_are_the_latest(
    list: Vec<PairedDevice>,
    session: EntrySession,
    events: Seq<SessionEvent>,
    device: int,
    door: Door,
)
    requires
        call_ensures(EntrySession::new, (list,), session),
        0 <= device < list@.len(),
    ensures
        entry_session::run(list@, Seq::empty()) == session@,
        ({
            let s = entry_session::run(list@, events).entry;
            &&& s.zones[device] == zone_of(list@, events, device)
            &&& s.status == status_of(list@, events)
            &&& s.pulled[position(door)] == history::latest_or(
                heard(list@, events),
                handle_seen(door),
                false,
            )
            &&& s.button == history::latest_or(heard(list@, events), button_seen(), false)
        }),
{
    lemma_zones(list@, events, device);
    lemma_own_inputs(list@, events, door);
}

proof fn lemma_zones(devices: Seq<PairedDevice>, events: Seq<SessionEvent>, device: int)
    requires
        0 <= device < devices.len(),
    ensures
        ({
            let s = entry_session::run(devices, events).entry;
            &&& s.zones.len() == devices.len()
            &&& s.zones[device] == zone_of(devices, events, device)
        }),
    decreases events.len(),
{
    if events.len() > 0 {
        let before = events.drop_last();
        lemma_zones(devices, before, device);
        entry_session::law_session_stays_valid(devices, before);
        entry_session::law_session_stays_valid(devices, events);
        history::lemma_latest_of_push(heard(devices, before), events.last(), zone_named(device));
    }
}

proof fn lemma_own_inputs(devices: Seq<PairedDevice>, events: Seq<SessionEvent>, door: Door)
    ensures
        ({
            let s = entry_session::run(devices, events).entry;
            &&& s.pulled.len() == 4
            &&& s.status == status_of(devices, events)
            &&& s.pulled[position(door)] == history::latest_or(
                heard(devices, events),
                handle_seen(door),
                false,
            )
            &&& s.button == history::latest_or(heard(devices, events), button_seen(), false)
        }),
    decreases events.len(),
{
    if events.len() > 0 {
        let before = events.drop_last();
        lemma_own_inputs(devices, before, door);
        history::lemma_latest_of_push(heard(devices, before), events.last(), status_seen());
        history::lemma_latest_of_push(heard(devices, before), events.last(), handle_seen(door));
        history::lemma_latest_of_push(heard(devices, before), events.last(), button_seen());
    }
}

/// Over every run a device is a candidate for a goal exactly when the zone heard
/// last of it is the zone of that goal.
pub proof fn law_candidates_by_latest_zone(
    devices: Seq<PairedDevice>,
    events: Seq<SessionEvent>,
    goal: Goal,
    device: usize,
)
    requires
        devices.len() <= usize::MAX,
        device < devices.len(),
    ensures
        entry_session::run(devices, events).entry.candidates(goal.zone()).contains(device)
            <==> zone_of(devices, events, device as int) == goal.zone(),
{
    let s = entry_session::run(devices, events).entry;
    lemma_zones(devices, events, device as int);
    passive_entry::law_candidates_are_the_devices_in_zone(s, goal.zone());
    if s.candidates(goal.zone()).contains(device) {
        let k = choose|k: int|
            0 <= k < s.candidates(goal.zone()).len() && s.candidates(goal.zone())[k] == device;
        assert(s.zones[s.candidates(goal.zone())[k] as int] == goal.zone());
    }
}

/// A device has to be on the side of the door that is pulled, front or rear, and
/// at the trunk, outside, for the trunk.
pub proof fn law_zone_of_each_goal(goal: Goal)
    ensures
        goal.zone() == match goal {
            Goal::OpenTrunk => Zone::Trunk,
            Goal::Unlock(door) => if position(door) % 2 == 0 {
                Zone::LeftFront
            } else {
                Zone::RightFront
            },
        },
{
}

/// Some device was heard last in `zone`.
pub open spec fn someone_in(
    devices: Seq<PairedDevice>,
    events: Seq<SessionEvent>,
    zone: Zone,
) -> bool {
    exists|i: int| 0 <= i < devices.len() && #[trigger] zone_of(devices, events, i) == zone
}

proof fn lemma_someone(devices: Seq<PairedDevice>, events: Seq<SessionEvent>, goal: Goal)
    requires
        devices.len() <= usize::MAX,
    ensures
        entry_session::run(devices, events).entry.candidates(goal.zone()).len() > 0 <==> someone_in(
            devices,
            events,
            goal.zone(),
        ),
{
    let s = entry_session::run(devices, events).entry;
    let list = s.candidates(goal.zone());
    entry_session::law_session_stays_valid(devices, events);
    passive_entry::law_candidates_are_the_devices_in_zone(s, goal.zone());
    if list.len() > 0 {
        let i = list[0] as int;
        lemma_zones(devices, events, i);
        assert(zone_of(devices, events, i) == goal.zone());
    }
    if someone_in(devices, events, goal.zone()) {
        let i = choose|i: int|
            0 <= i < devices.len() && #[trigger] zone_of(devices, events, i) == goal.zone();
        lemma_zones(devices, events, i);
        assert(s.zones[i] == goal.zone());
        assert(list.contains(i as usize));
    }
}

/// Over every run a pull of a handle while idle starts an attempt exactly when it
/// is a change from not pulled, the handle is wired if it is a rear one, the lock
/// status heard last leaves the door shut, and a device was heard last on its
/// side. The devices challenged are all of those.
pub proof fn law_pull_starts_attempt(
    devices: Seq<PairedDevice>,
    events: Seq<SessionEvent>,
    door: Door,
    v: Value,
    config: PlatformConfig,
)
    requires
        devices.len() <= usize::MAX,
        entry_session::run(devices, events).phase is Idle,
    ensures
        ({
            let s = entry_session::run(devices, events);
            let next = s.step(SessionEvent::Handle { door, v, config });
            let status = status_of(devices, events);
            let zone = if position(door) % 2 == 0 {
                Zone::LeftFront
            } else {
                Zone::RightFront
            };
            let driver = match config.dealer.driver_door_side {
                DriverDoorSide::Left => door is Row1Left,
                DriverDoorSide::Right => door is Row1Right,
            };
            let starts = {
                &&& v == Value::Bool(true)
                &&& !history::latest_or(heard(devices, events), handle_seen(door), false)
                &&& position(door) >= 2 ==> config.vehicle_line.peps_rear_capacitive_handles
                &&& status != "UNLOCKED"@
                &&& status == "DRIVER_UNLOCKED"@ ==> !driver
                &&& someone_in(devices, events, zone)
            };
            &&& next.1 == Seq::<Effect>::empty()
            &&& next.0.phase == if starts {
                Phase::Challenging { goal: Goal::Unlock(door), candidates: s.entry.candidates(zone) }
            } else {
                Phase::Idle
            }
        }),
{
    lemma_own_inputs(devices, events, door);
    lemma_someone(devices, events, Goal::Unlock(door));
    reveal_strlit("UNLOCKED");
    reveal_strlit("DRIVER_UNLOCKED");
    assert("UNLOCKED"@.len() == 8 && "DRIVER_UNLOCKED"@.len() == 15);
}

/// Over every run a press of the trunk button while idle starts an attempt exactly
/// when it is a change from not pressed, the lock status heard last is locked or
/// double locked, and a device was heard last at the trunk. The devices challenged
/// are all of those.
pub proof fn law_press_starts_attempt(
    devices: Seq<PairedDevice>,
    events: Seq<SessionEvent>,
    v: Value,
)
    requires
        devices.len() <= usize::MAX,
        entry_session::run(devices, events).phase is Idle,
    ensures
        ({
            let s = entry_session::run(devices, events);
            let next = s.step(SessionEvent::Button(v));
            let status = status_of(devices, events);
            let starts = {
                &&& v == Value::Bool(true)
                &&& !history::latest_or(heard(devices, events), button_seen(), false)
                &&& status == "LOCKED"@ || status == "DOUBLE_LOCKED"@
                &&& someone_in(devices, events, Zone::Trunk)
            };
            &&& next.1 == Seq::<Effect>::empty()
            &&& next.0.phase == if starts {
                Phase::Challenging {
                    goal: Goal::OpenTrunk,
                    candidates: s.entry.candidates(Zone::Trunk),
                }
            } else {
                Phase::Idle
            }
        }),
{
    lemma_own_inputs(devices, events, Door::Row1Left);
    lemma_someone(devices, events, Goal::OpenTrunk);
}

/// The second stage is opened by an accepted unlock of the driver door and closed
/// by an accepted unlock of all doors. Nothing else that happens touches it.
pub proof fn law_second_stage_follows_replies(s: SessionState, event: SessionEvent)
    ensures
        s.step(event).0.entry.pending == match (s.phase, event) {
            (Phase::Asking { command, device, at }, SessionEvent::Reply(true)) => if command
                is UnlockAll {
                None
            } else {
                Some(
                    PendingStageTwo {
                        started: at,
                        device_kind: device.kind,
                        device_slot: device.slot,
                    },
                )
            },
            _ => s.entry.pending,
        },
        s.step(event).0.entry.devices == s.entry.devices,
{
}

/// A session leaves an attempt only by what ends it: a challenge that is out waits
/// 150 milliseconds for its answer, giving up ends it at once, a proof for a door
/// asks the arbiter, and one for the trunk ends it.
pub proof fn law_attempt_runs_its_course(
    s: SessionState,
    expected: Seq<Seq<u8>>,
    start: u64,
    now: u64,
)
    requires
        s.phase is Challenging,
        expected.len() == s.phase->Challenging_candidates.len(),
    ensures
        ({
            let trying = s.step(SessionEvent::Challenged { expected, now: start }).0;
            &&& trying.phase is Trying
            &&& trying.entry == s.entry
            &&& trying.phase->Trying_goal == s.phase->Challenging_goal
            &&& trying.phase->Trying_trial.candidates == s.phase->Challenging_candidates
            &&& trying.phase->Trying_trial.expected == expected
            &&& trying.phase->Trying_trial.deadline == crate::clock::later(start, 150)
            &&& trying.step(SessionEvent::Tick(now)).0 == if now >= crate::clock::later(
                start,
                150,
            ) {
                (SessionState { phase: Phase::Idle, ..s })
            } else {
                trying
            }
            &&& trying.step(SessionEvent::GivenUp).0 == (SessionState { phase: Phase::Idle, ..s })
            &&& s.step(SessionEvent::GivenUp).0 == (SessionState { phase: Phase::Idle, ..s })
            &&& s.step(SessionEvent::Tick(now)).0 == s
        }),
{
}

/// A proof for a door asks for the command that the door and the device call for,
/// and it is this very command, with the device and the time of the proof, that a
/// reply is then taken for.
pub proof fn law_reply_belongs_to_the_proof(
    s: SessionState,
    candidate: int,
    v: Value,
    now: u64,
    config: PlatformConfig,
)
    requires
        entry_session::is_proof(s, SessionEvent::Response { candidate, v, now, config }),
    ensures
        ({
            let (t, out) = s.step(SessionEvent::Response { candidate, v, now, config });
            let i = s.phase->Trying_trial.candidates[candidate] as int;
            match s.phase->Trying_goal {
                Goal::OpenTrunk => t.phase is Idle,
                Goal::Unlock(door) => {
                    &&& t.phase is Asking
                    &&& t.phase->device == s.entry.devices[i]
                    &&& t.phase->at == now
                    &&& t.phase->command == s.entry.command(door, s.entry.devices[i], now, config)
                    &&& out == seq![
                        Effect::lock(
                            t.phase->command,
                            FeatureId::PassiveEntry,
                        ),
                    ]
                },
            }
        }),
        ({
            let (t, out) = s.step(SessionEvent::Response { candidate, v, now, config });
            t.entry == s.entry
        }),
{
}

/// Two-stage unlocking: an authenticated pull unlocks only the driver door exactly
/// when it is that door, two-stage unlocking is on, and no earlier unlock of it by
/// the same device within the last three seconds is still open. In every other
/// case it unlocks all doors.
pub proof fn law_pull_unlocks(
    s: SessionState,
    door: Door,
    device: PairedDevice,
    now: u64,
    config: PlatformConfig,
)
    ensures
        ({
            let driver = match config.dealer.driver_door_side {
                DriverDoorSide::Left => door is Row1Left,
                DriverDoorSide::Right => door is Row1Right,
            };
            let again = s.entry.pending matches Some(p) && p.device_kind == device.kind
                && p.device_slot == device.slot && now - p.started < 3000;
            s.entry.command(door, device, now, config) == if driver
                && config.dealer.two_stage_unlock && !again {
                LockCommand::UnlockDriver
            } else {
                LockCommand::UnlockAll
            }
        }),
{
}

/// An attempt is decided by the first arrival that comes too late or proves its
/// device: one at the deadline or after it times out whatever it says, one before
/// it proves the candidate with its number exactly when its text is the response
/// expected of that candidate, and nothing else decides anything.
pub proof fn law_verdicts(s: TrialState, a: Arrival)
    ensures
        s.verdict(a) is TimedOut <==> a.at >= s.deadline,
        s.verdict(a) is Proven <==> a.at < s.deadline && passive_entry::response_of(a.value)
            == Some(s.expected[a.candidate]),
        s.verdict(a) matches Verdict::Proven(device) ==> device == s.candidates[a.candidate],
{
}

/// Fobs and phones are challenged with the same nonce, written as it would be read
/// back.
pub proof fn law_challenge_carries_nonce(nonce: Seq<u8>)
    requires
        nonce.len() == 16,
    ensures
        passive_entry::challenge_effects(nonce).len() == 2,
        forall|k: int|
            0 <= k < 2 ==> (#[trigger] passive_entry::challenge_effects(nonce)[k] matches
                Effect::Publish { value, .. } && passive_entry::response_of(value) == Some(nonce)),
        passive_entry::challenge_effects(nonce)[0]->Publish_signal
            == passive_entry::PEPS_LF_CHALLENGE@,
        passive_entry::challenge_effects(nonce)[1]->Publish_signal
            == passive_entry::PEPS_BLE_CHALLENGE@,
{
    passive_entry::law_response_reads_back(nonce);
}

/// A proof at the trunk opens it by a pulse at medium priority, and asks for the
/// feedback of the trunk. An accepted unlock of any kind asks for that of unlocking.
pub proof fn law_what_a_proof_does(
    s: SessionState,
    device: PairedDevice,
    now: u64,
    config: PlatformConfig,
    command: LockCommand,
)
    ensures
        s.entry.proof_effects(Goal::OpenTrunk, device, now, config) == seq![
            Effect::claim(
                Domain::Trunk,
                TRUNK_OPEN_CMD,
                Value::Bool(true),
                Priority::Medium,
                FeatureId::PassiveEntry,
            ),
            Effect::release(Domain::Trunk, TRUNK_OPEN_CMD, FeatureId::PassiveEntry),
            Effect::publish(FEEDBACK_REQUEST, Value::Text("trunk_unlock"@)),
        ],
        s.entry.answered(command, device, now, true).1 == seq![
            Effect::publish(FEEDBACK_REQUEST, Value::Text("unlock"@)),
        ],
        ({
            let next = s.entry.answered(command, device, now, true).0;
            &&& next.zones == s.entry.zones
            &&& next.status == s.entry.status
            &&& next.pulled == s.entry.pulled
            &&& next.button == s.entry.button
            &&& next.devices == s.entry.devices
        }),
{
}

/// Devices are numbered from one among their kind: the number in the signals of a
/// device is its slot and one.
pub proof fn law_device_signals_are_numbered(
    device: PairedDevice,
    answer: VssPath,
    zone: VssPath,
)
    requires
        device.valid(),
        call_ensures(PairedDevice::challenge_response_signal, (&device,), answer),
        call_ensures(PairedDevice::zone_signal, (&device,), zone),
    ensures
        ({
            let at = if device.kind is Fob {
                23int
            } else {
                25int
            };
            &&& answer@[at] as int - '0' as int == device.slot + 1
            &&& zone@[at] as int - '0' as int == device.slot + 1
        }),
{
    reveal_strlit("Body.PEPS.Plant.KeyFob.1.ChallengeResponse");
    assert("Body.PEPS.Plant.KeyFob.1.ChallengeResponse"@[23] == '1');
    reveal_strlit("Body.PEPS.Plant.KeyFob.2.ChallengeResponse");
    assert("Body.PEPS.Plant.KeyFob.2.ChallengeResponse"@[23] == '2');
    reveal_strlit("Body.PEPS.Plant.KeyFob.3.ChallengeResponse");
    assert("Body.PEPS.Plant.KeyFob.3.ChallengeResponse"@[23] == '3');
    reveal_strlit("Body.PEPS.Plant.KeyFob.4.ChallengeResponse");
    assert("Body.PEPS.Plant.KeyFob.4.ChallengeResponse"@[23] == '4');
    reveal_strlit("Body.PEPS.Plant.KeyFob.5.ChallengeResponse");
    assert("Body.PEPS.Plant.KeyFob.5.ChallengeResponse"@[23] == '5');
    reveal_strlit("Body.PEPS.Plant.KeyFob.6.ChallengeResponse");
    assert("Body.PEPS.Plant.KeyFob.6.ChallengeResponse"@[23] == '6');
    reveal_strlit("Body.PEPS.Plant.BlePhone.1.ChallengeResponse");
    assert("Body.PEPS.Plant.BlePhone.1.ChallengeResponse"@[25] == '1');
    reveal_strlit("Body.PEPS.Plant.BlePhone.2.ChallengeResponse");
    assert("Body.PEPS.Plant.BlePhone.2.ChallengeResponse"@[25] == '2');
    reveal_strlit("Body.PEPS.Plant.KeyFob.1.Zone");
    assert("Body.PEPS.Plant.KeyFob.1.Zone"@[23] == '1');
    reveal_strlit("Body.PEPS.Plant.KeyFob.2.Zone");
    assert("Body.PEPS.Plant.KeyFob.2.Zone"@[23] == '2');
    reveal_strlit("Body.PEPS.Plant.KeyFob.3.Zone");
    assert("Body.PEPS.Plant.KeyFob.3.Zone"@[23] == '3');
    reveal_strlit("Body.PEPS.Plant.KeyFob.4.Zone");
    assert("Body.PEPS.Plant.KeyFob.4.Zone"@[23] == '4');
    reveal_strlit("Body.PEPS.Plant.KeyFob.5.Zone");
    assert("Body.PEPS.Plant.KeyFob.5.Zone"@[23] == '5');
    reveal_strlit("Body.PEPS.Plant.KeyFob.6.Zone");
    assert("Body.PEPS.Plant.KeyFob.6.Zone"@[23] == '6');
    reveal_strlit("Body.PEPS.Plant.BlePhone.1.Zone");
    assert("Body.PEPS.Plant.BlePhone.1.Zone"@[25] == '1');
    reveal_strlit("Body.PEPS.Plant.BlePhone.2.Zone");
    assert("Body.PEPS.Plant.BlePhone.2.Zone"@[25] == '2');
}

} // verus!
