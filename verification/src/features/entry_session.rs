//! Passive entry from the pull to the unlock.
//!
//! One attempt is under way at a time: a pull or a press names the candidates, the
//! challenge goes out, responses come in, and the first device that proves itself
//! unlocks the doors or opens the trunk. Only what belongs to the current phase is
//! taken. The other inputs wait until the session is idle again: handed over
//! earlier, they are ignored.

use vstd::prelude::*;

use crate::arbiter::door_lock::{FEEDBACK_REQUEST, STATUS_LOCKED};
use crate::clock;
use crate::config::PlatformConfig;
use crate::features::doors;
use crate::features::passive_entry;
use crate::features::passive_entry::{
    Arrival, Attempt, Door, EntryState, Goal, PairedDevice, PassiveEntry, Trial, TrialState,
    Verdict, CHALLENGE_TIMEOUT_MS,
};
use crate::ipc_message::{SignalValue, Value};
use crate::signal_bus::{no_outputs, Effect, LockCommand, Output};
use crate::zone::Zone;

verus! {

/// Phase of a session.
#[verifier::ext_equal]
pub enum Phase {
    /// No attempt is under way.
    Idle,
    /// The candidates have to be challenged.
    Challenging { goal: Goal, candidates: Seq<usize> },
    /// The challenge is out.
    Trying { goal: Goal, trial: TrialState },
    /// The door-lock arbiter has been asked, on the proof of a device at a time.
    Asking { command: LockCommand, device: PairedDevice, at: u64 },
}

/// State of a session.
#[verifier::ext_equal]
pub struct SessionState {
    pub entry: EntryState,
    pub phase: Phase,
}

/// Something that happens to a session.
pub enum SessionEvent {
    /// Value of the cabin lock status.
    Status(Value),
    /// Value of the zone signal of the device at a position.
    Zone { i: int, v: Value },
    /// Value of the outside handle of a door.
    Handle { door: Door, v: Value, config: PlatformConfig },
    /// Value of the exterior trunk button.
    Button(Value),
    /// The challenge has gone out, with the response expected of each candidate.
    Challenged { expected: Seq<Seq<u8>>, now: u64 },
    /// The attempt cannot go on.
    GivenUp,
    /// Value of the response signal of the candidate with a number.
    Response { candidate: int, v: Value, now: u64, config: PlatformConfig },
    /// The clock has reached a time.
    Tick(u64),
    /// The door-lock arbiter has accepted the request, or not.
    Reply(bool),
}

impl SessionState {
    /// The state at start-up.
    pub open spec fn initial(devices: Seq<PairedDevice>) -> SessionState {
        SessionState {
            entry: EntryState {
                devices,
                zones: Seq::new(devices.len(), |i: int| Zone::OutOfRange),
                pending: None,
                status: STATUS_LOCKED@,
                pulled: doors::none_set(),
                button: false,
            },
            phase: Phase::Idle,
        }
    }

    /// The candidates of the attempt under way are the devices in the zone of its
    /// goal, and a response is expected of each.
    pub open spec fn valid(self) -> bool {
        &&& self.entry.valid()
        &&& match self.phase {
            Phase::Challenging { goal, candidates } => candidates == self.entry.candidates(
                goal.zone(),
            ),
            Phase::Trying { goal, trial } => trial.candidates == self.entry.candidates(goal.zone())
                && trial.expected.len() == trial.candidates.len(),
            _ => true,
        }
    }

    /// The phase when a pull or a press for `goal` has been taken: its candidates
    /// have to be challenged, if it counts and there are any.
    pub open spec fn called(self, goal: Goal, counts: bool) -> Phase {
        if counts && self.entry.candidates(goal.zone()).len() > 0 {
            Phase::Challenging { goal, candidates: self.entry.candidates(goal.zone()) }
        } else {
            Phase::Idle
        }
    }

    /// The state and the effects once the device at position `i` has proved itself
    /// in an attempt for `goal`.
    pub open spec fn proven(self, goal: Goal, i: int, now: u64, config: PlatformConfig) -> (
        SessionState,
        Seq<Effect>,
    ) {
        let device = self.entry.devices[i];
        (
            SessionState {
                phase: match goal {
                    Goal::Unlock(door) => Phase::Asking {
                        command: self.entry.command(door, device, now, config),
                        device,
                        at: now,
                    },
                    Goal::OpenTrunk => Phase::Idle,
                },
                ..self
            },
            self.entry.proof_effects(goal, device, now, config),
        )
    }

    /// The state after an event in the idle phase.
    pub open spec fn idle_step(self, event: SessionEvent) -> SessionState {
        match event {
            SessionEvent::Status(v) => SessionState { entry: self.entry.after_status(v), ..self },
            SessionEvent::Zone { i, v } => if 0 <= i < self.entry.devices.len() {
                SessionState { entry: self.entry.after_zone(i, v), ..self }
            } else {
                self
            },
            SessionEvent::Handle { door, v, config } => SessionState {
                entry: self.entry.after_handle(door, v),
                phase: self.called(Goal::Unlock(door), self.entry.handle_counts(door, v, config)),
            },
            SessionEvent::Button(v) => SessionState {
                entry: self.entry.after_button(v),
                phase: self.called(Goal::OpenTrunk, self.entry.button_counts(v)),
            },
            _ => self,
        }
    }

    /// The state and the effects after an event.
    pub open spec fn step(self, event: SessionEvent) -> (SessionState, Seq<Effect>) {
        let idle = SessionState { phase: Phase::Idle, ..self };
        match (self.phase, event) {
            (Phase::Idle, _) => (self.idle_step(event), Seq::empty()),
            (
                Phase::Challenging { goal, candidates },
                SessionEvent::Challenged { expected, now },
            ) => if expected.len() == candidates.len() {
                let trial = TrialState {
                    candidates,
                    expected,
                    deadline: clock::later(now, CHALLENGE_TIMEOUT_MS),
                };
                (SessionState { phase: Phase::Trying { goal, trial }, ..self }, Seq::empty())
            } else {
                (self, Seq::empty())
            },
            (Phase::Challenging { .. }, SessionEvent::GivenUp) => (idle, Seq::empty()),
            (Phase::Trying { .. }, SessionEvent::GivenUp) => (idle, Seq::empty()),
            (
                Phase::Trying { goal, trial },
                SessionEvent::Response { candidate, v, now, config },
            ) => if 0 <= candidate < trial.candidates.len() {
                match trial.verdict(Arrival { candidate, value: v, at: now }) {
                    Verdict::Waiting => (self, Seq::empty()),
                    Verdict::TimedOut => (idle, Seq::empty()),
                    Verdict::Proven(i) => self.proven(goal, i as int, now, config),
                }
            } else {
                (self, Seq::empty())
            },
            (Phase::Trying { trial, .. }, SessionEvent::Tick(now)) => if now >= trial.deadline {
                (idle, Seq::empty())
            } else {
                (self, Seq::empty())
            },
            (Phase::Asking { command, device, at }, SessionEvent::Reply(accepted)) => {
                let (entry, effects) = self.entry.answered(command, device, at, accepted);
                (SessionState { entry, phase: Phase::Idle }, effects)
            },
            _ => (self, Seq::empty()),
        }
    }
}

enum Stage {
    Idle,
    Challenging(Attempt),
    Trying(Goal, Trial),
    Asking(LockCommand, PairedDevice, u64),
}

impl Stage {
    spec fn phase(self) -> Phase {
        match self {
            Stage::Idle => Phase::Idle,
            Stage::Challenging(attempt) => Phase::Challenging {
                goal: attempt.goal,
                candidates: attempt.candidates@,
            },
            Stage::Trying(goal, trial) => Phase::Trying { goal, trial: trial@ },
            Stage::Asking(command, device, at) => Phase::Asking { command, device, at },
        }
    }

    fn of(attempt: Option<Attempt>) -> (r: Stage)
        ensures
            r.phase() == match attempt {
                Some(a) => Phase::Challenging { goal: a.goal, candidates: a.candidates@ },
                None => Phase::Idle,
            },
    {
        match attempt {
            Some(attempt) => Stage::Challenging(attempt),
            None => Stage::Idle,
        }
    }
}

/// A session of passive entry.
pub struct EntrySession {
    entry: PassiveEntry,
    stage: Stage,
}

impl View for EntrySession {
    type V = SessionState;

    closed spec fn view(&self) -> SessionState {
        SessionState { entry: self.entry@, phase: self.stage.phase() }
    }
}

impl EntrySession {
    /// A session with these devices, all out of range, in a locked vehicle.
    pub fn new(paired_devices: Vec<PairedDevice>) -> (r: EntrySession)
        ensures
            r@ == SessionState::initial(paired_devices@),
            r@.valid(),
    {
        EntrySession { entry: PassiveEntry::new(paired_devices), stage: Stage::Idle }
    }

    /// The paired devices.
    pub fn devices(&self) -> (r: &Vec<PairedDevice>)
        ensures
            r@ == self@.entry.devices,
    {
        self.entry.devices()
    }

    /// The positions of the devices that have to be challenged, if any.
    pub fn candidates(&self) -> (r: Option<&Vec<usize>>)
        ensures
            match r {
                Some(list) => self@.phase matches Phase::Challenging { candidates, .. }
                    && candidates == list@,
                None => self@.phase !is Challenging,
            },
    {
        match &self.stage {
            Stage::Challenging(attempt) => Some(&attempt.candidates),
            _ => None,
        }
    }

    /// When the attempt times out, if the challenge is out.
    pub fn deadline(&self) -> (r: Option<u64>)
        ensures
            r == match self@.phase {
                Phase::Trying { trial, .. } => Some(trial.deadline),
                _ => None,
            },
    {
        match &self.stage {
            Stage::Trying(_, trial) => Some(trial.deadline()),
            _ => None,
        }
    }

    /// True iff an answer of the door-lock arbiter is awaited.
    pub fn awaits_reply(&self) -> (r: bool)
        ensures
            r == (self@.phase is Asking),
    {
        match &self.stage {
            Stage::Asking(..) => true,
            _ => false,
        }
    }

    fn idle(&self) -> (r: bool)
        ensures
            r == (self@.phase is Idle),
    {
        match &self.stage {
            Stage::Idle => true,
            _ => false,
        }
    }

    /// Takes a value of the cabin lock status.
    pub fn on_lock_status(&mut self, val: &SignalValue)
        requires
            old(self)@.valid(),
        ensures
            final(self)@.valid(),
            final(self)@ == old(self)@.step(SessionEvent::Status(val@)).0,
    {
        if self.idle() {
            self.entry.on_lock_status(val);
        }
    }

    /// Takes a value of the zone signal of the device at position `i`.
    pub fn on_zone(&mut self, i: usize, val: &SignalValue)
        requires
            old(self)@.valid(),
            i < old(self)@.entry.devices.len(),
        ensures
            final(self)@.valid(),
            final(self)@ == old(self)@.step(SessionEvent::Zone { i: i as int, v: val@ }).0,
    {
        if self.idle() {
            self.entry.on_zone(i, val);
        }
    }

    /// Takes a value of the outside handle of `door`.
    pub fn on_handle(&mut self, door: Door, val: &SignalValue, config: &PlatformConfig)
        requires
            old(self)@.valid(),
        ensures
            final(self)@.valid(),
            final(self)@ == old(self)@.step(
                SessionEvent::Handle { door, v: val@, config: *config },
            ).0,
    {
        if self.idle() {
            self.stage = Stage::of(self.entry.on_handle(door, val, config));
        }
    }

    /// Takes a value of the exterior trunk button.
    pub fn on_trunk_button(&mut self, val: &SignalValue)
        requires
            old(self)@.valid(),
        ensures
            final(self)@.valid(),
            final(self)@ == old(self)@.step(SessionEvent::Button(val@)).0,
    {
        if self.idle() {
            self.stage = Stage::of(self.entry.on_trunk_button(val));
        }
    }

    /// The challenge went out at time `now`, and these responses are expected of the
    /// candidates, in their order.
    pub fn on_challenged(&mut self, expected: Vec<[u8; 16]>, now: u64)
        requires
            old(self)@.valid(),
            old(self)@.phase matches Phase::Challenging { candidates, .. } ==> candidates.len()
                == expected@.len(),
        ensures
            final(self)@.valid(),
            final(self)@ == old(self)@.step(
                SessionEvent::Challenged { expected: passive_entry::responses(expected@), now },
            ).0,
    {
        let mut stage = Stage::Idle;
        std::mem::swap(&mut self.stage, &mut stage);
        self.stage = match stage {
            Stage::Challenging(attempt) => Stage::Trying(
                attempt.goal,
                Trial::new(attempt.candidates, expected, now),
            ),
            other => other,
        };
    }

    /// The attempt cannot go on: the challenge could not be made, or no response can
    /// come any more.
    pub fn give_up(&mut self)
        requires
            old(self)@.valid(),
        ensures
            final(self)@.valid(),
            final(self)@ == old(self)@.step(SessionEvent::GivenUp).0,
    {
        let under_way = match &self.stage {
            Stage::Challenging(_) => true,
            Stage::Trying(..) => true,
            _ => false,
        };
        if under_way {
            self.stage = Stage::Idle;
        }
    }

    /// Takes a value of the response signal of the candidate with this number at
    /// time `now`.
    pub fn on_response(
        &mut self,
        candidate: usize,
        val: &SignalValue,
        now: u64,
        config: &PlatformConfig,
    ) -> (r: Vec<Output>)
        requires
            old(self)@.valid(),
            old(self)@.phase matches Phase::Trying { trial, .. } ==> candidate
                < trial.candidates.len(),
        ensures
            final(self)@.valid(),
            (final(self)@, Effect::all(r@)) == old(self)@.step(
                SessionEvent::Response {
                    candidate: candidate as int,
                    v: val@,
                    now,
                    config: *config,
                },
            ),
    {
        let (goal, verdict) = match &self.stage {
            Stage::Trying(goal, trial) => (*goal, trial.on_response(candidate, val, now)),
            _ => {
                return no_outputs();
            },
        };
        match verdict {
            Verdict::Waiting => no_outputs(),
            Verdict::TimedOut => {
                self.stage = Stage::Idle;
                no_outputs()
            },
            Verdict::Proven(i) => {
                let devices = self.entry.devices();
                assert(self.entry@.zones.len() == devices.len());
                proof {
                    passive_entry::law_candidates_are_the_devices_in_zone(
                        self.entry@,
                        goal.zone(),
                    );
                }
                let device = devices[i];
                let outputs = self.entry.on_proof(goal, &device, now, config);
                self.stage = match goal {
                    Goal::Unlock(door) => Stage::Asking(
                        self.entry.unlock_command(door, &device, now, config),
                        device,
                        now,
                    ),
                    Goal::OpenTrunk => Stage::Idle,
                };
                outputs
            },
        }
    }

    /// Takes the time.
    pub fn on_tick(&mut self, now: u64)
        requires
            old(self)@.valid(),
        ensures
            final(self)@.valid(),
            final(self)@ == old(self)@.step(SessionEvent::Tick(now)).0,
    {
        let over = match &self.stage {
            Stage::Trying(_, trial) => trial.on_tick(now) == Verdict::TimedOut,
            _ => false,
        };
        if over {
            self.stage = Stage::Idle;
        }
    }

    /// Takes the answer of the door-lock arbiter.
    pub fn on_reply(&mut self, accepted: bool) -> (r: Vec<Output>)
        requires
            old(self)@.valid(),
        ensures
            final(self)@.valid(),
            (final(self)@, Effect::all(r@)) == old(self)@.step(SessionEvent::Reply(accepted)),
    {
        let (command, device, at) = match &self.stage {
            Stage::Asking(command, device, at) => (*command, *device, *at),
            _ => {
                return no_outputs();
            },
        };
        self.stage = Stage::Idle;
        self.entry.on_unlock_reply(command, &device, at, accepted)
    }
}

/// The state after a run of events from start-up.
pub open spec fn run(devices: Seq<PairedDevice>, events: Seq<SessionEvent>) -> SessionState
    decreases events.len(),
{
    if events.len() == 0 {
        SessionState::initial(devices)
    } else {
        run(devices, events.drop_last()).step(events.last()).0
    }
}

/// Whatever happens, the session stays valid and keeps its devices: the candidates of
/// an attempt are always the paired devices in the zone of its goal.
pub proof fn law_session_stays_valid(devices: Seq<PairedDevice>, events: Seq<SessionEvent>)
    ensures
        run(devices, events).valid(),
        run(devices, events).entry.devices == devices,
    decreases events.len(),
{
    if events.len() > 0 {
        law_session_stays_valid(devices, events.drop_last());
    }
}

/// The effect asks for unlocking or claims an actuator.
pub open spec fn opens(e: Effect) -> bool {
    e is Lock || e is Claim
}

/// The event is a response by which the candidate with its number proves itself in
/// time.
pub open spec fn is_proof(s: SessionState, event: SessionEvent) -> bool {
    match (s.phase, event) {
        (Phase::Trying { trial, .. }, SessionEvent::Response { candidate, v, now, .. }) => 0
            <= candidate < trial.candidates.len() && trial.proven_by(
            Arrival { candidate, value: v, at: now },
        ),
        _ => false,
    }
}

/// Nothing is unlocked or opened without a proof. Whatever happened before, a
/// door-lock request or a claim comes only with a response that proves, in time, a
/// candidate of the attempt under way, which is a paired device in the zone of its
/// goal. Every such response leads to what the attempt was for, and to nothing else.
pub proof fn law_opening_needs_proof(
    devices: Seq<PairedDevice>,
    events: Seq<SessionEvent>,
    event: SessionEvent,
)
    requires
        devices.len() <= usize::MAX,
    ensures
        ({
            let s = run(devices, events);
            let out = s.step(event).1;
            &&& (exists|k: int| 0 <= k < out.len() && opens(#[trigger] out[k])) ==> is_proof(
                s,
                event,
            )
            &&& is_proof(s, event) ==> {
                let goal = s.phase->Trying_goal;
                let i = s.phase->Trying_trial.candidates[event->candidate] as int;
                &&& 0 <= i < devices.len()
                &&& s.entry.zones[i] == goal.zone()
                &&& out == s.entry.proof_effects(
                    goal,
                    devices[i],
                    event->Response_now,
                    event->Response_config,
                )
            }
        }),
{
    law_session_stays_valid(devices, events);
    let s = run(devices, events);
    if is_proof(s, event) {
        passive_entry::law_candidates_are_the_devices_in_zone(s.entry, s.phase->Trying_goal.zone());
    }
}

/// Unlock feedback is given only once the door-lock arbiter has accepted the request
/// of a proof. One that it turns down changes nothing.
pub proof fn law_feedback_follows_acceptance(s: SessionState, accepted: bool)
    requires
        s.phase is Asking,
    ensures
        s.step(SessionEvent::Reply(accepted)).0.phase is Idle,
        !accepted ==> s.step(SessionEvent::Reply(accepted)) == (
            SessionState { phase: Phase::Idle, ..s },
            Seq::<Effect>::empty(),
        ),
        accepted ==> s.step(SessionEvent::Reply(accepted)).1 == seq![
            Effect::publish(FEEDBACK_REQUEST, Value::Text("unlock"@)),
        ],
{
}

} // verus!
