//! Auto relock: locks the vehicle again if no door is opened within a timeout
//! after an unlock from outside.
//!
//! After a crash the feature is disabled until it has seen a full power cycle:
//! first an off position, then an on position.

use vstd::prelude::*;

use crate::arbiter::door_lock::{
    FEEDBACK_REQUEST, STATUS_DRIVER_UNLOCKED, STATUS_UNLOCKED,
};
use crate::clock;
use crate::config::PlatformConfig;
use crate::features::power::{is_power_off, is_power_on};
use crate::history;
use crate::ipc_message::{FeatureId, SignalValue, Value};
use crate::signal_bus::{
    lock_request, no_outputs, publish_bool, publish_text, same_text, Effect, LockCommand, Output, VssPath,
};

verus! {

/// Timeout where no configuration is at hand, in milliseconds.
pub const DEFAULT_RELOCK_TIMEOUT_MS: u64 = 45_000;

/// Crash detection signal.
pub const CRASH_SIGNAL: VssPath = "Vehicle.Safety.CrashDetected";

/// True while the relock timer runs.
pub const STATUS_IS_ARMED: VssPath = "Body.Doors.AutoRelock.IsArmed";

/// The configured timeout in seconds, published whenever the timer starts.
pub const STATUS_TIMEOUT_SECS: VssPath = "Body.Doors.AutoRelock.TimeoutSeconds";

/// The status means that the vehicle is unlocked.
pub open spec fn unlocked(status: Seq<char>) -> bool {
    status == STATUS_UNLOCKED@ || status == STATUS_DRIVER_UNLOCKED@
}

/// The requestor acts from outside the vehicle.
pub open spec fn external(requestor: Seq<char>) -> bool {
    ||| requestor == "KeyfobRke"@
    ||| requestor == "KeyfobPeps"@
    ||| requestor == "PassiveEntry"@
    ||| requestor == "PhoneApp"@
    ||| requestor == "PhoneBle"@
    ||| requestor == "NfcCard"@
    ||| requestor == "NfcPhone"@
}

/// A lock event arms the timer: the vehicle is unlocked, from outside.
pub open spec fn should_arm(status: Option<Seq<char>>, requestor: Seq<char>) -> bool {
    match status {
        Some(s) => unlocked(s) && external(requestor),
        None => false,
    }
}

/// True iff an accepted lock request of `requestor` arms the timer, given the
/// lock status seen last.
pub fn event_should_arm(status: Option<&str>, requestor: &str) -> (r: bool)
    ensures
        r == should_arm(
            match status {
                Some(s) => Some(s@),
                None => None,
            },
            requestor@,
        ),
{
    let is_unlocked = match status {
        Some(s) => same_text(s, STATUS_UNLOCKED) || same_text(s, STATUS_DRIVER_UNLOCKED),
        None => false,
    };
    is_unlocked && (same_text(requestor, "KeyfobRke") || same_text(requestor, "KeyfobPeps")
        || same_text(requestor, "PassiveEntry") || same_text(requestor, "PhoneApp")
        || same_text(requestor, "PhoneBle") || same_text(requestor, "NfcCard")
        || same_text(requestor, "NfcPhone"))
}

/// What the feature is doing.
#[derive(Debug, Clone, Copy, PartialEq, Eq)]
pub enum Phase {
    /// Waiting for an unlock from outside.
    Idle,
    /// The timer runs out at `deadline`.
    Armed { deadline: u64 },
    /// Disabled by a crash, and no power-off seen yet.
    AwaitPowerOff,
    /// Disabled by a crash; power-off seen, and no power-on since.
    AwaitPowerOn,
}

/// State of the feature.
#[verifier::ext_equal]
pub struct RelockState {
    /// Timeout in milliseconds.
    pub timeout: u64,
    pub phase: Phase,
    /// The cabin lock status seen last.
    pub status: Option<Seq<char>>,
}

/// Something that happens to the feature.
pub enum RelockEvent {
    /// Value of the crash signal.
    Crash(Value),
    /// Value of an open-state signal of a door.
    DoorOpen(Value),
    /// Value of a lock-state signal of a door.
    DoorLocked(Value),
    /// Value of the cabin lock status.
    Status(Value),
    /// Value of the last-requestor signal, and the time.
    Requestor(Value, u64),
    /// Value of the power state.
    Power(Value),
    /// The clock has reached a time.
    Tick(u64),
}

impl RelockState {
    /// A crash has disabled the feature.
    pub open spec fn disabled(self) -> bool {
        self.phase is AwaitPowerOff || self.phase is AwaitPowerOn
    }

    /// The timeout as it is published.
    pub open spec fn timeout_secs(self) -> Value {
        Value::Uint16((self.timeout / 1000 % 65536) as u16)
    }

    /// The effect of leaving the armed phase.
    pub open spec fn disarm(self) -> Seq<Effect> {
        if self.phase is Armed {
            seq![Effect::publish(STATUS_IS_ARMED, Value::Bool(false))]
        } else {
            Seq::empty()
        }
    }

    /// The state in another phase.
    pub open spec fn to(self, phase: Phase) -> RelockState {
        RelockState { phase, ..self }
    }

    /// The state and the effects after an event.
    pub open spec fn after(self, event: RelockEvent) -> (RelockState, Seq<Effect>) {
        match event {
            RelockEvent::Crash(v) => {
                if v == Value::Bool(true) && !self.disabled() {
                    (self.to(Phase::AwaitPowerOff), self.disarm())
                } else {
                    (self, Seq::empty())
                }
            },
            RelockEvent::DoorOpen(v) | RelockEvent::DoorLocked(v) => {
                if v == Value::Bool(true) && self.phase is Armed {
                    (self.to(Phase::Idle), self.disarm())
                } else {
                    (self, Seq::empty())
                }
            },
            RelockEvent::Status(v) => {
                match v {
                    Value::Text(s) => (RelockState { status: Some(s), ..self }, Seq::empty()),
                    _ => (self, Seq::empty()),
                }
            },
            RelockEvent::Requestor(v, now) => {
                match v {
                    Value::Text(req) => {
                        if self.disabled() || !should_arm(self.status, req) {
                            (self, Seq::empty())
                        } else {
                            let armed = Phase::Armed { deadline: clock::later(now, self.timeout) };
                            let advert = Effect::publish(STATUS_TIMEOUT_SECS, self.timeout_secs());
                            if self.phase is Armed {
                                (self.to(armed), seq![advert])
                            } else {
                                (
                                    self.to(armed),
                                    seq![
                                        advert,
                                        Effect::publish(STATUS_IS_ARMED, Value::Bool(true)),
                                    ],
                                )
                            }
                        }
                    },
                    _ => (self, Seq::empty()),
                }
            },
            RelockEvent::Power(v) => {
                if self.phase is AwaitPowerOff && v.power_off() {
                    (self.to(Phase::AwaitPowerOn), Seq::empty())
                } else if self.phase is AwaitPowerOn && v.power_on() {
                    (self.to(Phase::Idle), Seq::empty())
                } else {
                    (self, Seq::empty())
                }
            },
            RelockEvent::Tick(now) => {
                match self.phase {
                    Phase::Armed { deadline } => {
                        if now >= deadline {
                            (
                                self.to(Phase::Idle),
                                seq![
                                    Effect::publish(STATUS_IS_ARMED, Value::Bool(false)),
                                    Effect::lock(LockCommand::LockAll, FeatureId::AutoRelock),
                                    Effect::publish(FEEDBACK_REQUEST, Value::Text("lock"@)),
                                ],
                            )
                        } else {
                            (self, Seq::empty())
                        }
                    },
                    _ => (self, Seq::empty()),
                }
            },
        }
    }
}

/// The auto-relock feature.
pub struct AutoRelock {
    timeout: u64,
    phase: Phase,
    status: Option<String>,
}

impl View for AutoRelock {
    type V = RelockState;

    closed spec fn view(&self) -> RelockState {
        RelockState {
            timeout: self.timeout,
            phase: self.phase,
            status: match self.status {
                Some(s) => Some(s@),
                None => None,
            },
        }
    }
}

impl AutoRelock {
    /// The feature with the timeout of the vehicle line.
    pub fn from_config(config: &PlatformConfig) -> (r: AutoRelock)
        ensures
            r@ == (RelockState {
                timeout: clock::millis_of_secs(config.vehicle_line.auto_relock_timeout_secs),
                phase: Phase::Idle,
                status: None,
            }),
    {
        AutoRelock { timeout: config.auto_relock_timeout(), phase: Phase::Idle, status: None }
    }

    /// The feature with the default timeout.
    pub fn new() -> (r: AutoRelock)
        ensures
            r@ == (RelockState {
                timeout: DEFAULT_RELOCK_TIMEOUT_MS,
                phase: Phase::Idle,
                status: None,
            }),
    {
        AutoRelock { timeout: DEFAULT_RELOCK_TIMEOUT_MS, phase: Phase::Idle, status: None }
    }

    /// The same feature with another timeout, in milliseconds.
    pub fn with_timeout(self, timeout: u64) -> (r: AutoRelock)
        ensures
            r@ == (RelockState { timeout, ..self@ }),
    {
        AutoRelock { timeout, phase: self.phase, status: self.status }
    }

    /// When the relock timer runs out, if it runs.
    pub fn deadline(&self) -> (r: Option<u64>)
        ensures
            r == match self@.phase {
                Phase::Armed { deadline } => Some(deadline),
                _ => None,
            },
    {
        match self.phase {
            Phase::Armed { deadline } => Some(deadline),
            _ => None,
        }
    }

    /// The phase that the feature is in.
    pub fn phase(&self) -> (r: Phase)
        ensures
            r == self@.phase,
    {
        self.phase
    }

    fn disarm_outputs(&self) -> (r: Vec<Output>)
        ensures
            Effect::all(r@) == self@.disarm(),
    {
        match self.phase {
            Phase::Armed { .. } => {
                let r = vec![publish_bool(STATUS_IS_ARMED, false)];
                assert(Effect::all(r@) =~= self@.disarm());
                r
            },
            _ => no_outputs(),
        }
    }

    /// Takes a value of the crash signal.
    pub fn on_crash(&mut self, val: &SignalValue) -> (r: Vec<Output>)
        ensures
            (final(self)@, Effect::all(r@)) == old(self)@.after(RelockEvent::Crash(val@)),
    {
        match self.phase {
            Phase::AwaitPowerOff | Phase::AwaitPowerOn => no_outputs(),
            _ => {
                if val.is_true() {
                    let r = self.disarm_outputs();
                    self.phase = Phase::AwaitPowerOff;
                    r
                } else {
                    no_outputs()
                }
            },
        }
    }

    fn cancel_on(&mut self, val: &SignalValue) -> (r: Vec<Output>)
        ensures
            (final(self)@, Effect::all(r@)) == old(self)@.after(RelockEvent::DoorOpen(val@)),
    {
        match self.phase {
            Phase::Armed { .. } => {
                if val.is_true() {
                    let r = self.disarm_outputs();
                    self.phase = Phase::Idle;
                    r
                } else {
                    no_outputs()
                }
            },
            _ => no_outputs(),
        }
    }

    /// Takes a value of an open-state signal of a door: an opening door cancels
    /// the timer.
    pub fn on_door_open(&mut self, val: &SignalValue) -> (r: Vec<Output>)
        ensures
            (final(self)@, Effect::all(r@)) == old(self)@.after(RelockEvent::DoorOpen(val@)),
    {
        self.cancel_on(val)
    }

    /// Takes a value of a lock-state signal of a door: a door locked by another
    /// source cancels the timer.
    pub fn on_door_locked(&mut self, val: &SignalValue) -> (r: Vec<Output>)
        ensures
            (final(self)@, Effect::all(r@)) == old(self)@.after(RelockEvent::DoorLocked(val@)),
    {
        self.cancel_on(val)
    }

    /// Takes a value of the cabin lock status.
    pub fn on_status(&mut self, val: &SignalValue) -> (r: Vec<Output>)
        ensures
            (final(self)@, Effect::all(r@)) == old(self)@.after(RelockEvent::Status(val@)),
    {
        if let SignalValue::String(s) = val {
            self.status = Some(s.clone());
        }
        no_outputs()
    }

    /// Takes a value of the last-requestor signal at time `now`: an unlock from
    /// outside starts the timer, or starts it anew.
    pub fn on_requestor(&mut self, val: &SignalValue, now: u64) -> (r: Vec<Output>)
        ensures
            (final(self)@, Effect::all(r@)) == old(self)@.after(
                RelockEvent::Requestor(val@, now),
            ),
    {
        let ghost before = self@;
        let requestor = match val {
            SignalValue::String(s) => s,
            _ => {
                return no_outputs();
            },
        };
        let status: Option<&str> = match &self.status {
            Some(s) => Some(s.as_str()),
            None => None,
        };
        if !event_should_arm(status, requestor.as_str()) {
            return no_outputs();
        }
        let secs: u16 = (self.timeout / 1000 % 65536) as u16;
        let advert = Output::Publish {
            signal: STATUS_TIMEOUT_SECS,
            value: SignalValue::Uint16(secs),
        };
        match self.phase {
            Phase::AwaitPowerOff | Phase::AwaitPowerOn => no_outputs(),
            Phase::Armed { .. } => {
                self.phase = Phase::Armed { deadline: clock::deadline(now, self.timeout) };
                let r = vec![advert];
                assert(Effect::all(r@) =~= before.after(RelockEvent::Requestor(val@, now)).1);
                r
            },
            Phase::Idle => {
                self.phase = Phase::Armed { deadline: clock::deadline(now, self.timeout) };
                let r = vec![advert, publish_bool(STATUS_IS_ARMED, true)];
                assert(Effect::all(r@) =~= before.after(RelockEvent::Requestor(val@, now)).1);
                r
            },
        }
    }

    /// Takes a value of the power state: a power cycle ends the disabled mode.
    pub fn on_power(&mut self, val: &SignalValue) -> (r: Vec<Output>)
        ensures
            (final(self)@, Effect::all(r@)) == old(self)@.after(RelockEvent::Power(val@)),
    {
        match self.phase {
            Phase::AwaitPowerOff => {
                if is_power_off(val) {
                    self.phase = Phase::AwaitPowerOn;
                }
            },
            Phase::AwaitPowerOn => {
                if is_power_on(val) {
                    self.phase = Phase::Idle;
                }
            },
            _ => {},
        }
        no_outputs()
    }

    /// Takes the time: a timer that has run out locks the vehicle.
    pub fn on_tick(&mut self, now: u64) -> (r: Vec<Output>)
        ensures
            (final(self)@, Effect::all(r@)) == old(self)@.after(RelockEvent::Tick(now)),
    {
        let ghost before = self@;
        if let Phase::Armed { deadline } = self.phase {
            if now >= deadline {
                self.phase = Phase::Idle;
                let r = vec![
                    publish_bool(STATUS_IS_ARMED, false),
                    lock_request(LockCommand::LockAll, FeatureId::AutoRelock),
                    publish_text(FEEDBACK_REQUEST, "lock"),
                ];
                assert(Effect::all(r@) =~= before.after(RelockEvent::Tick(now)).1);
                return r;
            }
        }
        no_outputs()
    }
}

/// The state and the effects after a sequence of events.
pub open spec fn run(s: RelockState, events: Seq<RelockEvent>) -> (RelockState, Seq<Effect>)
    decreases events.len(),
{
    if events.len() == 0 {
        (s, Seq::empty())
    } else {
        let (t, before) = run(s, events.drop_last());
        let (u, last) = t.after(events.last());
        (u, before + last)
    }
}

/// The event is a power-off.
pub open spec fn is_off_event(e: RelockEvent) -> bool {
    e matches RelockEvent::Power(v) && v.power_off()
}

/// The event is a power-on.
pub open spec fn is_on_event(e: RelockEvent) -> bool {
    e matches RelockEvent::Power(v) && v.power_on()
}

/// Some power-off comes before a power-on.
pub open spec fn has_power_cycle(events: Seq<RelockEvent>) -> bool {
    exists|i: int, j: int|
        0 <= i < j < events.len() && #[trigger] is_off_event(events[i]) && #[trigger] is_on_event(
            events[j],
        )
}

/// After a crash nothing at all happens before a full power cycle: no relock, no
/// arming, whatever is locked and unlocked meanwhile.
pub proof fn law_disabled_until_power_cycle(s: RelockState, events: Seq<RelockEvent>)
    requires
        s.phase is AwaitPowerOff,
        !has_power_cycle(events),
    ensures
        run(s, events).0.disabled(),
        run(s, events).1 == Seq::<Effect>::empty(),
    decreases events.len(),
{
    lemma_disabled_trace(s, events);
}

proof fn lemma_disabled_trace(s: RelockState, events: Seq<RelockEvent>)
    requires
        s.phase is AwaitPowerOff,
        !has_power_cycle(events),
    ensures
        run(s, events).0.disabled(),
        run(s, events).1 == Seq::<Effect>::empty(),
        run(s, events).0.phase is AwaitPowerOn ==> exists|i: int|
            0 <= i < events.len() && #[trigger] is_off_event(events[i]),
    decreases events.len(),
{
    if events.len() > 0 {
        let rest = events.drop_last();
        let n = rest.len() as int;
        assert(!has_power_cycle(rest)) by {
            if has_power_cycle(rest) {
                let (i, j) = choose|i: int, j: int|
                    0 <= i < j < rest.len() && #[trigger] is_off_event(rest[i])
                        && #[trigger] is_on_event(rest[j]);
                assert(is_off_event(events[i]) && is_on_event(events[j]));
            }
        }
        lemma_disabled_trace(s, rest);
        let t = run(s, rest).0;
        if t.phase is AwaitPowerOn {
            let i = choose|i: int| 0 <= i < rest.len() && #[trigger] is_off_event(rest[i]);
            assert(is_off_event(events[i]));
            if is_on_event(events[n]) {
                assert(has_power_cycle(events));
            }
        } else {
            assert(is_off_event(events[n]) == is_off_event(events.last()));
        }
        assert(run(s, events).1 =~= Seq::<Effect>::empty());
    }
}

/// A power-off followed by a power-on enables the feature again, also with other
/// off positions in between.
pub proof fn law_power_cycle_enables(s: RelockState, off: Value, between: Value, on: Value)
    requires
        s.phase is AwaitPowerOff,
        off.power_off(),
        between.power_off(),
        on.power_on(),
    ensures
        s.after(RelockEvent::Power(off)).0.after(RelockEvent::Power(on)).0.phase is Idle,
        s.after(RelockEvent::Power(off)).0.after(RelockEvent::Power(between)).0.after(
            RelockEvent::Power(on),
        ).0.phase is Idle,
{
    crate::features::power::law_on_and_off_exclude_each_other(between);
}

/// The lock command of this feature.
pub open spec fn relock() -> Effect {
    Effect::lock(LockCommand::LockAll, FeatureId::AutoRelock)
}

/// The vehicle is relocked only when a running timer has reached its deadline.
pub proof fn law_relock_only_on_expiry(s: RelockState, event: RelockEvent)
    ensures
        s.after(event).1.contains(relock()) ==> (event matches RelockEvent::Tick(now)
            && s.phase matches Phase::Armed { deadline } && now >= deadline),
{
    let (t, out) = s.after(event);
    if out.contains(relock()) {
        let i = choose|i: int| 0 <= i < out.len() && out[i] == relock();
        assert(out[i] is Lock);
    }
}

/// The event neither ends nor restarts a timer that runs out at `deadline`.
pub open spec fn leaves_timer(event: RelockEvent, deadline: u64) -> bool {
    match event {
        RelockEvent::Crash(v) | RelockEvent::DoorOpen(v) | RelockEvent::DoorLocked(v) => v
            != Value::Bool(true),
        RelockEvent::Requestor(v, _) => v matches Value::Text(req) ==> !external(req),
        RelockEvent::Status(_) | RelockEvent::Power(_) => true,
        RelockEvent::Tick(now) => now < deadline,
    }
}

/// The vehicle is relocked if within the timeout after an unlock from outside no
/// door is opened or locked, no crash happens and no further request comes from
/// outside.
pub proof fn law_relock_after_timeout(
    s: RelockState,
    requestor: Seq<char>,
    start: u64,
    events: Seq<RelockEvent>,
    now: u64,
)
    requires
        !s.disabled(),
        should_arm(s.status, requestor),
        forall|i: int|
            0 <= i < events.len() ==> #[trigger] leaves_timer(
                events[i],
                clock::later(start, s.timeout),
            ),
        now >= clock::later(start, s.timeout),
    ensures
        ({
            let armed = s.after(RelockEvent::Requestor(Value::Text(requestor), start)).0;
            let (waited, out) = run(armed, events);
            &&& out == Seq::<Effect>::empty()
            &&& waited.after(RelockEvent::Tick(now)).1.contains(relock())
        }),
{
    let armed = s.after(RelockEvent::Requestor(Value::Text(requestor), start)).0;
    let deadline = clock::later(start, s.timeout);
    lemma_timer_keeps_running(armed, events, deadline);
    let waited = run(armed, events).0;
    assert(waited.after(RelockEvent::Tick(now)).1[1] == relock());
}

proof fn lemma_timer_keeps_running(s: RelockState, events: Seq<RelockEvent>, deadline: u64)
    requires
        s.phase == (Phase::Armed { deadline }),
        forall|i: int| 0 <= i < events.len() ==> #[trigger] leaves_timer(events[i], deadline),
    ensures
        run(s, events).0.phase == (Phase::Armed { deadline }),
        run(s, events).1 == Seq::<Effect>::empty(),
    decreases events.len(),
{
    if events.len() > 0 {
        let rest = events.drop_last();
        assert forall|i: int| 0 <= i < rest.len() implies #[trigger] leaves_timer(
            rest[i],
            deadline,
        ) by {
            assert(leaves_timer(events[i], deadline));
        }
        lemma_timer_keeps_running(s, rest, deadline);
        assert(leaves_timer(events[events.len() - 1], deadline));
        assert(run(s, events).1 =~= Seq::<Effect>::empty());
    }
}

/// The timer starts only by an unlock from outside, and it then runs for the
/// whole timeout.
pub proof fn law_armed_only_by_external_unlock(s: RelockState, event: RelockEvent)
    ensures
        s.after(event).0.phase is Armed && s.after(event).0.phase != s.phase ==> (
        event matches RelockEvent::Requestor(v, now) && v matches Value::Text(req) && should_arm(
            s.status,
            req,
        ) && s.after(event).0.phase == (Phase::Armed {
            deadline: clock::later(now, s.timeout),
        })),
{
}

/// An unlock that is not from outside, or that leaves the vehicle locked, starts
/// nothing.
pub proof fn law_internal_unlock_does_not_arm(s: RelockState, requestor: Seq<char>, now: u64)
    requires
        !external(requestor),
    ensures
        s.after(RelockEvent::Requestor(Value::Text(requestor), now)) == (s, Seq::<Effect>::empty()),
{
}

/// A door that opens, a door that is locked and a crash each cancel the timer.
pub proof fn law_timer_is_cancelled(s: RelockState, later: u64)
    requires
        s.phase is Armed,
    ensures
        s.after(RelockEvent::DoorOpen(Value::Bool(true))).0.phase is Idle,
        s.after(RelockEvent::DoorLocked(Value::Bool(true))).0.phase is Idle,
        s.after(RelockEvent::Crash(Value::Bool(true))).0.phase is AwaitPowerOff,
        s.after(RelockEvent::DoorOpen(Value::Bool(true))).0.after(RelockEvent::Tick(later)).1
            == Seq::<Effect>::empty(),
        s.after(RelockEvent::DoorLocked(Value::Bool(true))).0.after(RelockEvent::Tick(later)).1
            == Seq::<Effect>::empty(),
        s.after(RelockEvent::Crash(Value::Bool(true))).0.after(RelockEvent::Tick(later)).1
            == Seq::<Effect>::empty(),
{
}

/// Door signals other than a confirmed opening or locking leave a running timer
/// as it is.
pub proof fn law_unlocking_doors_leave_timer_alone(s: RelockState)
    ensures
        s.after(RelockEvent::DoorLocked(Value::Bool(false))) == (s, Seq::<Effect>::empty()),
        s.after(RelockEvent::DoorOpen(Value::Bool(false))) == (s, Seq::<Effect>::empty()),
{
}

/// The armed flag on the bus: set when the timer starts from idle, cleared when
/// it ends, and otherwise not published.
pub proof fn law_armed_flag_follows_phase(s: RelockState, event: RelockEvent)
    ensures
        s.after(event).1.contains(Effect::publish(STATUS_IS_ARMED, Value::Bool(true))) <==> !(
        s.phase is Armed) && s.after(event).0.phase is Armed,
        s.after(event).1.contains(Effect::publish(STATUS_IS_ARMED, Value::Bool(false))) <==> (
        s.phase is Armed) && !(s.after(event).0.phase is Armed),
{
    let on = Effect::publish(STATUS_IS_ARMED, Value::Bool(true));
    let off = Effect::publish(STATUS_IS_ARMED, Value::Bool(false));
    let (t, out) = s.after(event);
    if out.contains(on) {
        let i = choose|i: int| 0 <= i < out.len() && out[i] == on;
        assert(out[i] == on);
    }
    if out.contains(off) {
        let i = choose|i: int| 0 <= i < out.len() && out[i] == off;
        assert(out[i] == off);
    }
    if !(s.phase is Armed) && t.phase is Armed {
        assert(out[1] == on);
    }
    if s.phase is Armed && !(t.phase is Armed) {
        assert(out[0] == off);
    }
}

/// Reads off an event the text of the lock status.
pub open spec fn status_seen() -> spec_fn(RelockEvent) -> Option<Seq<char>> {
    |e: RelockEvent|
        match e {
            RelockEvent::Status(Value::Text(s)) => Some(s),
            _ => None,
        }
}

/// Over every run the status by which arming is decided is the latest status text
/// seen, of whatever kind. Nothing else changes it, and the timeout stays.
pub proof fn law_status_is_the_latest(s: RelockState, events: Seq<RelockEvent>)
    ensures
        run(s, events).0.status == match history::latest(events, status_seen()) {
            Some(text) => Some(text),
            None => s.status,
        },
        run(s, events).0.timeout == s.timeout,
    decreases events.len(),
{
    if events.len() > 0 {
        law_status_is_the_latest(s, events.drop_last());
    }
}

/// Over every run that leaves the feature enabled, a request arms the timer
/// exactly when the latest status text says unlocked, fully or at the driver
/// door, and the requestor is one of those outside the vehicle. The timer then
/// runs for the whole timeout, which goes out in seconds, and the armed flag goes
/// out unless the timer ran already. With any other latest status, locked and
/// double locked among them, or with any other requestor, nothing happens.
pub proof fn law_latest_status_decides_arming(
    s: RelockState,
    events: Seq<RelockEvent>,
    v: Value,
    now: u64,
)
    requires
        s.status is None,
        !run(s, events).0.disabled(),
    ensures
        ({
            let t = run(s, events).0;
            let last = history::latest(events, status_seen());
            let open = last == Some("UNLOCKED"@) || last == Some("DRIVER_UNLOCKED"@);
            let outside = {
                ||| v == Value::Text("KeyfobRke"@)
                ||| v == Value::Text("KeyfobPeps"@)
                ||| v == Value::Text("PassiveEntry"@)
                ||| v == Value::Text("PhoneApp"@)
                ||| v == Value::Text("PhoneBle"@)
                ||| v == Value::Text("NfcCard"@)
                ||| v == Value::Text("NfcPhone"@)
            };
            let (next, out) = t.after(RelockEvent::Requestor(v, now));
            if open && outside {
                &&& next.phase == (Phase::Armed { deadline: clock::later(now, s.timeout) })
                &&& next.status == t.status
                &&& next.timeout == s.timeout
                &&& out.len() == if t.phase is Armed {
                    1nat
                } else {
                    2nat
                }
                &&& out[0] == Effect::publish(
                    STATUS_TIMEOUT_SECS,
                    Value::Uint16((s.timeout / 1000 % 65536) as u16),
                )
                &&& t.phase !is Armed ==> out[1] == Effect::publish(
                    STATUS_IS_ARMED,
                    Value::Bool(true),
                )
            } else {
                next == t && out == Seq::<Effect>::empty()
            }
        }),
{
    law_status_is_the_latest(s, events);
}

/// While the latest status is locked or double locked, no request starts a timer
/// or publishes anything, whoever makes it and whatever came before.
pub proof fn law_locked_vehicle_never_arms(
    s: RelockState,
    events: Seq<RelockEvent>,
    v: Value,
    now: u64,
)
    requires
        history::latest(events, status_seen()) == Some("LOCKED"@) || history::latest(
            events,
            status_seen(),
        ) == Some("DOUBLE_LOCKED"@),
    ensures
        run(s, events).0.after(RelockEvent::Requestor(v, now)) == (
            run(s, events).0,
            Seq::<Effect>::empty(),
        ),
{
    law_status_is_the_latest(s, events);
    reveal_strlit("LOCKED");
    reveal_strlit("DOUBLE_LOCKED");
    reveal_strlit("UNLOCKED");
    reveal_strlit("DRIVER_UNLOCKED");
    assert("LOCKED"@.len() == 6 && "DOUBLE_LOCKED"@.len() == 13);
    assert("UNLOCKED"@.len() == 8 && "DRIVER_UNLOCKED"@.len() == 15);
}

/// A crash disables the feature whatever it is doing, and a timer that runs is
/// taken off. Other values of the crash signal change nothing.
pub proof fn law_crash_always_disables(s: RelockState, v: Value)
    ensures
        s.after(RelockEvent::Crash(Value::Bool(true))).0.disabled(),
        !s.disabled() ==> s.after(RelockEvent::Crash(Value::Bool(true))).0.phase is AwaitPowerOff,
        s.after(RelockEvent::Crash(Value::Bool(true))).1 == if s.phase is Armed {
            seq![Effect::publish(STATUS_IS_ARMED, Value::Bool(false))]
        } else {
            Seq::empty()
        },
        v != Value::Bool(true) ==> s.after(RelockEvent::Crash(v)) == (s, Seq::<Effect>::empty()),
{
}

/// A timer that has run out takes its flag off, locks all doors and asks for the
/// lock feedback, once each and in this order. Before that, time does nothing.
pub proof fn law_expiry_locks(s: RelockState, now: u64)
    ensures
        s.after(RelockEvent::Tick(now)) == if s.phase is Armed && now >= s.phase->deadline {
            (
                RelockState { phase: Phase::Idle, ..s },
                seq![
                    Effect::publish(STATUS_IS_ARMED, Value::Bool(false)),
                    Effect::lock(LockCommand::LockAll, FeatureId::AutoRelock),
                    Effect::publish(FEEDBACK_REQUEST, Value::Text("lock"@)),
                ],
            )
        } else {
            (s, Seq::empty())
        },
{
}

/// What cancels a running timer puts out nothing but the flag. It never asks for
/// a lock.
pub proof fn law_cancelling_is_quiet(s: RelockState)
    requires
        s.phase is Armed,
    ensures
        s.after(RelockEvent::DoorOpen(Value::Bool(true))).1 == seq![
            Effect::publish(STATUS_IS_ARMED, Value::Bool(false)),
        ],
        s.after(RelockEvent::DoorLocked(Value::Bool(true))).1 == seq![
            Effect::publish(STATUS_IS_ARMED, Value::Bool(false)),
        ],
{
}

/// The timeout is the one configured for the vehicle line, and what is published
/// of it is that number of seconds again. Without a configuration it is 45
/// seconds. The feature starts idle, with no status known.
pub proof fn law_timeout_is_configured(config: PlatformConfig, r: AutoRelock, plain: AutoRelock)
    requires
        call_ensures(AutoRelock::from_config, (&config,), r),
        call_ensures(AutoRelock::new, (), plain),
        config.vehicle_line.auto_relock_timeout_secs < 65536,
    ensures
        r@.timeout == config.vehicle_line.auto_relock_timeout_secs * 1000,
        r@.timeout_secs() == Value::Uint16(config.vehicle_line.auto_relock_timeout_secs as u16),
        r@.phase is Idle,
        r@.status is None,
        plain@.timeout == 45 * 1000,
        plain@.phase is Idle,
        plain@.status is None,
{
}

/// The requestors from outside are exactly the features that act from there: fobs,
/// phones, NFC and passive entry. So the name that the door-lock arbiter gives for
/// the last requestor arms the timer exactly for those.
pub proof fn law_external_features(f: FeatureId)
    ensures
        external(f.bus_name()) <==> f is KeyfobRke || f is KeyfobPeps || f is PassiveEntry || f
            is PhoneApp || f is PhoneBle || f is NfcCard || f is NfcPhone,
{
    reveal_strlit("KeyfobRke");
    reveal_strlit("KeyfobPeps");
    reveal_strlit("KeypadLock");
    reveal_strlit("PassiveEntry");
    reveal_strlit("PanicAlarm");
    reveal_strlit("PhoneApp");
    reveal_strlit("PhoneBle");
    reveal_strlit("NfcCard");
    reveal_strlit("NfcPhone");
    assert("KeyfobRke"@[0] == 'K' && "KeyfobPeps"@[0] == 'K' && "KeypadLock"@[0] == 'K');
    assert("KeyfobRke"@[3] == 'f' && "KeyfobPeps"@[3] == 'f' && "KeypadLock"@[3] == 'p');
    assert("PassiveEntry"@[0] == 'P' && "PanicAlarm"@[0] == 'P' && "PhoneApp"@[0] == 'P');
    assert("PassiveEntry"@[2] == 's' && "PanicAlarm"@[2] == 'n' && "PhoneApp"@[2] == 'o');
    assert("PhoneBle"@[0] == 'P' && "PhoneBle"@[2] == 'o');
    assert("NfcCard"@[0] == 'N' && "NfcPhone"@[0] == 'N');
    reveal_strlit("AutoHighBeam");
    reveal_strlit("AutoLock");
    reveal_strlit("AutoRelock");
    reveal_strlit("CabinTrunkRelease");
    reveal_strlit("CrashUnlock");
    reveal_strlit("DomeSwitch");
    reveal_strlit("DoorOpenAssist");
    reveal_strlit("DoorTrimButton");
    reveal_strlit("DoubleLockRelease");
    reveal_strlit("Drl");
    reveal_strlit("ExteriorTrunkButton");
    reveal_strlit("Farewell");
    reveal_strlit("FollowMeHome");
    reveal_strlit("Hazard");
    reveal_strlit("HighBeam");
    reveal_strlit("LockFeedback");
    reveal_strlit("LowBeam");
    reveal_strlit("ManualHorn");
    reveal_strlit("MirrorAdjust");
    reveal_strlit("MirrorFold");
    reveal_strlit("SlamLock");
    reveal_strlit("ThumbPadLock");
    reveal_strlit("TurnIndicator");
    reveal_strlit("WalkAwayLock");
    reveal_strlit("Welcome");
    assert("AutoHighBeam"@[0] == 'A' && "AutoLock"@[0] == 'A' && "AutoRelock"@[0] == 'A');
    assert("CabinTrunkRelease"@[0] == 'C' && "CrashUnlock"@[0] == 'C' && "Drl"@[0] == 'D');
    assert("DomeSwitch"@[0] == 'D' && "DoorOpenAssist"@[0] == 'D' && "DoorTrimButton"@[0] == 'D');
    assert("DoubleLockRelease"@[0] == 'D' && "ExteriorTrunkButton"@[0] == 'E');
    assert("Farewell"@[0] == 'F' && "FollowMeHome"@[0] == 'F' && "Hazard"@[0] == 'H');
    assert("HighBeam"@[0] == 'H' && "LockFeedback"@[0] == 'L' && "LowBeam"@[0] == 'L');
    assert("ManualHorn"@[0] == 'M' && "MirrorAdjust"@[0] == 'M' && "MirrorFold"@[0] == 'M');
    assert("SlamLock"@[0] == 'S' && "ThumbPadLock"@[0] == 'T' && "TurnIndicator"@[0] == 'T');
    assert("WalkAwayLock"@[0] == 'W' && "Welcome"@[0] == 'W');
}

} // verus!
