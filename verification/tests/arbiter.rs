use vss_bridge::arbiter::domain::{DomainArbiter, Publication};
use vss_bridge::arbiter::door_lock::{
    door_lock_arbiter, door_lock_arbiter_with_nvm, lock_status_for, DoorLockArbiter, LockAck,
    LockOutput, CABIN_LOCK_STATUS, CENTRAL_LOCK_CMD,
};
use vss_bridge::arbiter::tables::{
    comfort_arbiter, courtesy_arbiter, horn_arbiter, lighting_arbiter, low_beam_arbiter,
    puddle_arbiter, trunk_arbiter,
};
use vss_bridge::ipc_message::{FeatureId, Priority, SignalValue};
use vss_bridge::signal_bus::{ActuatorRequest, DoorLockRequest, LockCommand, VssPath};

const LEFT: VssPath = "Body.Lights.DirectionIndicator.Left.IsSignaling";
const RIGHT: VssPath = "Body.Lights.DirectionIndicator.Right.IsSignaling";
const LOW: VssPath = "Body.Lights.Beam.Low.IsOn";
const HIGH: VssPath = "Body.Lights.Beam.High.IsOn";
const PUDDLE_L: VssPath = "Body.Lights.Puddle.Left.IsOn";
const PUDDLE_R: VssPath = "Body.Lights.Puddle.Right.IsOn";

/// An arbiter, and what it has put on the bus.
struct Bench {
    arbiter: DomainArbiter,
    history: Vec<(VssPath, SignalValue)>,
}

impl Bench {
    fn new(arbiter: DomainArbiter) -> Bench {
        Bench {
            arbiter,
            history: Vec::new(),
        }
    }

    fn publish(&mut self, publication: Option<Publication>) {
        if let Some(p) = publication {
            self.history.push((p.signal, p.value.clone()));
            self.arbiter.confirm(p);
        }
    }

    fn claim(&mut self, signal: VssPath, on: bool, priority: Priority, feature_id: FeatureId) {
        let p = self.arbiter.request(ActuatorRequest {
            signal,
            value: SignalValue::Bool(on),
            priority,
            feature_id,
        });
        self.publish(p);
    }

    fn release(&mut self, signal: VssPath, feature_id: FeatureId) {
        let p = self.arbiter.release(signal, feature_id);
        self.publish(p);
    }

    fn inject(&mut self, signal: &str, value: SignalValue) {
        let hits: Vec<(VssPath, bool)> = self
            .arbiter
            .gates()
            .iter()
            .filter(|g| g.gate_signal == signal)
            .map(|g| (g.target, g.is_closed_by(&value)))
            .collect();
        for (target, closed) in hits {
            let p = self.arbiter.gate_changed(target, closed);
            self.publish(p);
        }
    }

    fn latest(&self, signal: &str) -> Option<SignalValue> {
        self.history
            .iter()
            .rev()
            .find(|(s, _)| *s == signal)
            .map(|(_, v)| v.clone())
    }
}

fn on() -> SignalValue {
    SignalValue::Bool(true)
}

fn off() -> SignalValue {
    SignalValue::Bool(false)
}

#[test]
fn high_priority_wins_over_medium() {
    let mut b = Bench::new(lighting_arbiter());
    b.claim(LEFT, true, Priority::Medium, FeatureId::TurnIndicator);
    b.claim(LEFT, false, Priority::High, FeatureId::Hazard);
    assert_eq!(b.history.len(), 2);
    assert_eq!(b.history[0], (LEFT, on()));
    assert_eq!(b.history[1], (LEFT, off()));
}

#[test]
fn medium_priority_suppressed_by_existing_high() {
    let mut b = Bench::new(lighting_arbiter());
    b.claim(LEFT, true, Priority::High, FeatureId::Hazard);
    b.claim(LEFT, false, Priority::Medium, FeatureId::TurnIndicator);
    assert_eq!(b.history.len(), 1);
    assert_eq!(b.history[0], (LEFT, on()));
}

#[test]
fn lock_feedback_overlays_on_active_hazard() {
    let mut b = Bench::new(lighting_arbiter());
    b.claim(LEFT, true, Priority::High, FeatureId::Hazard);
    b.claim(LEFT, false, Priority::High, FeatureId::LockFeedback);
    assert_eq!(b.history.len(), 2);
    assert_eq!(b.history[0].1, on());
    assert_eq!(b.history[1].1, off());
}

#[test]
fn different_signals_do_not_interfere() {
    let mut b = Bench::new(lighting_arbiter());
    b.claim(LOW, true, Priority::Medium, FeatureId::LowBeam);
    b.claim(HIGH, true, Priority::Medium, FeatureId::HighBeam);
    assert_eq!(b.history.len(), 2);
    assert_eq!(b.history[0], (LOW, on()));
    assert_eq!(b.history[1], (HIGH, on()));
}

#[test]
fn equal_priority_latest_wins() {
    let mut b = Bench::new(lighting_arbiter());
    b.claim(LEFT, true, Priority::Medium, FeatureId::TurnIndicator);
    b.claim(LEFT, false, Priority::Medium, FeatureId::TurnIndicator);
    assert_eq!(b.history.len(), 2);
    assert_eq!(b.history[1].1, off());
}

#[test]
fn request_rejected_if_not_in_allow_list() {
    let mut b = Bench::new(lighting_arbiter());
    b.claim(LOW, true, Priority::Medium, FeatureId::AutoLock);
    assert_eq!(b.history.len(), 0, "rejected request should not publish");
}

#[test]
fn wrong_priority_rejected() {
    let mut b = Bench::new(lighting_arbiter());
    b.claim(LEFT, true, Priority::High, FeatureId::TurnIndicator);
    assert_eq!(b.history.len(), 0, "wrong priority should be rejected");
}

#[test]
fn release_lets_lower_priority_resume() {
    let mut b = Bench::new(lighting_arbiter());
    b.claim(RIGHT, true, Priority::Medium, FeatureId::TurnIndicator);
    b.claim(RIGHT, true, Priority::High, FeatureId::Hazard);
    b.release(RIGHT, FeatureId::Hazard);
    b.release(RIGHT, FeatureId::TurnIndicator);
    assert_eq!(b.history.len(), 2, "history: {:?}", b.history);
    assert_eq!(b.history[0].1, on());
    assert_eq!(b.history[1].1, off());
}

#[test]
fn release_republishes_lower_priority_distinct_value() {
    let mut b = Bench::new(lighting_arbiter());
    b.claim(LEFT, false, Priority::Medium, FeatureId::TurnIndicator);
    b.claim(LEFT, true, Priority::High, FeatureId::Hazard);
    b.release(LEFT, FeatureId::Hazard);
    assert_eq!(b.history.len(), 3, "history: {:?}", b.history);
    assert_eq!(b.history[0].1, off());
    assert_eq!(b.history[1].1, on());
    assert_eq!(b.history[2].1, off());
}

#[test]
fn release_without_any_claims_publishes_default_off() {
    let mut b = Bench::new(lighting_arbiter());
    b.claim(LEFT, true, Priority::High, FeatureId::Hazard);
    b.release(LEFT, FeatureId::Hazard);
    assert_eq!(b.history.len(), 2, "history: {:?}", b.history);
    assert_eq!(b.history[0].1, on());
    assert_eq!(b.history[1].1, off());
}

#[test]
fn release_of_nonexistent_claim_is_noop() {
    let mut b = Bench::new(lighting_arbiter());
    b.release(LEFT, FeatureId::Hazard);
    assert_eq!(b.history.len(), 0);
}

#[test]
fn unconfirmed_publication_is_offered_again() {
    let mut arb = lighting_arbiter();
    let req = ActuatorRequest {
        signal: LEFT,
        value: on(),
        priority: Priority::High,
        feature_id: FeatureId::Hazard,
    };
    // The bus refuses the first publication, so it is not confirmed.
    assert!(arb.request(req.clone()).is_some());
    let again = arb.request(req.clone()).expect("still due");
    assert_eq!((again.signal, again.value.clone()), (LEFT, on()));
    arb.confirm(again);
    assert!(arb.request(req).is_none());
}

#[test]
fn resolve_follows_the_winner() {
    let mut b = Bench::new(low_beam_arbiter());
    assert_eq!(b.arbiter.resolve(HIGH), off());
    b.claim(HIGH, true, Priority::Medium, FeatureId::HighBeam);
    assert_eq!(b.arbiter.resolve(HIGH), on());
    b.claim(HIGH, false, Priority::High, FeatureId::AutoHighBeam);
    assert_eq!(b.arbiter.resolve(HIGH), off());
    b.release(HIGH, FeatureId::AutoHighBeam);
    assert_eq!(b.arbiter.resolve(HIGH), on());
}

#[test]
fn arbiters_have_their_names() {
    let names: Vec<&str> = vec![
        lighting_arbiter().name(),
        low_beam_arbiter().name(),
        horn_arbiter().name(),
        comfort_arbiter().name(),
        courtesy_arbiter().name(),
        puddle_arbiter().name(),
        trunk_arbiter().name(),
    ];
    assert_eq!(
        names,
        vec!["Lighting", "LowBeam", "Horn", "Comfort", "Courtesy", "Puddle", "Trunk"]
    );
}

#[test]
fn comfort_domain_lets_nobody_in() {
    let mut b = Bench::new(comfort_arbiter());
    b.claim("Cabin.Seat.Heating", true, Priority::Low, FeatureId::Welcome);
    assert!(b.history.is_empty());
}

#[test]
fn valet_mode_keeps_the_trunk_shut() {
    let mut b = Bench::new(trunk_arbiter());
    b.inject("Cabin.ValetMode.IsActive", on());
    b.claim("Body.Trunk.OpenCmd", true, Priority::Medium, FeatureId::CabinTrunkRelease);
    b.release("Body.Trunk.OpenCmd", FeatureId::CabinTrunkRelease);
    assert!(b.history.iter().all(|(_, v)| *v == off()));
    b.inject("Cabin.ValetMode.IsActive", off());
    b.claim("Body.Trunk.OpenCmd", true, Priority::Medium, FeatureId::CabinTrunkRelease);
    assert_eq!(b.latest("Body.Trunk.OpenCmd"), Some(on()));
}

#[test]
fn each_trunk_press_is_one_pulse() {
    let cmd = "Body.Trunk.OpenCmd";
    let mut b = Bench::new(trunk_arbiter());
    for f in [FeatureId::ExteriorTrunkButton, FeatureId::PassiveEntry] {
        b.claim(cmd, true, Priority::Medium, f);
        b.release(cmd, f);
    }
    assert_eq!(
        b.history,
        vec![(cmd, on()), (cmd, off()), (cmd, on()), (cmd, off())]
    );
}

// Door-lock arbiter

struct Locks {
    arbiter: DoorLockArbiter,
    history: Vec<(VssPath, SignalValue)>,
    saved: Vec<&'static str>,
}

impl Locks {
    fn new() -> Locks {
        Locks {
            arbiter: door_lock_arbiter(),
            history: Vec::new(),
            saved: Vec::new(),
        }
    }

    fn take(&mut self, outputs: Vec<LockOutput>) {
        for o in outputs {
            match o {
                LockOutput::Publish(p) => self.history.push((p.signal, p.value)),
                LockOutput::SaveStatus(s) => self.saved.push(s),
            }
        }
    }

    fn request(&mut self, command: LockCommand, feature_id: FeatureId, now: u64) {
        let out = self.arbiter.request(
            DoorLockRequest {
                command,
                feature_id,
            },
            now,
        );
        self.take(out);
    }

    fn ack(&mut self, now: u64) {
        let out = self.arbiter.ack(
            LockAck {
                event_number: 1,
                door_results: [true, true, true, true],
            },
            now,
        );
        self.take(out);
    }

    fn commands(&self) -> Vec<SignalValue> {
        self.history
            .iter()
            .filter(|(s, _)| *s == CENTRAL_LOCK_CMD)
            .map(|(_, v)| v.clone())
            .collect()
    }
}

fn text(s: &str) -> SignalValue {
    SignalValue::String(s.into())
}

#[test]
fn door_lock_idle_dispatches_immediately() {
    let mut l = Locks::new();
    l.request(LockCommand::UnlockAll, FeatureId::KeyfobPeps, 0);
    assert_eq!(l.history.len(), 1);
    assert_eq!(l.history[0].0, CENTRAL_LOCK_CMD);
    assert_eq!(l.history[0].1, text("unlock_all"));
}

#[test]
fn door_lock_queues_during_active() {
    let mut l = Locks::new();
    l.request(LockCommand::UnlockAll, FeatureId::KeyfobPeps, 0);
    l.request(LockCommand::LockAll, FeatureId::AutoLock, 0);
    assert_eq!(l.commands().len(), 1);
    l.ack(10);
    let commands = l.commands();
    assert_eq!(commands.len(), 2);
    assert_eq!(commands[1], text("lock_all"));
}

#[test]
fn door_lock_newer_replaces_pending() {
    let mut l = Locks::new();
    l.request(LockCommand::UnlockAll, FeatureId::KeyfobPeps, 0);
    l.request(LockCommand::LockAll, FeatureId::AutoLock, 0);
    l.request(LockCommand::DoubleLockAll, FeatureId::KeyfobRke, 0);
    l.ack(10);
    let commands = l.commands();
    assert_eq!(commands.len(), 2);
    assert_eq!(commands[1], text("lock_double"));
}

#[test]
fn door_lock_crash_unlock_not_replaceable() {
    let mut l = Locks::new();
    l.request(LockCommand::LockAll, FeatureId::KeyfobPeps, 0);
    l.request(LockCommand::UnlockAll, FeatureId::CrashUnlock, 0);
    l.request(LockCommand::LockAll, FeatureId::AutoLock, 0);
    assert_eq!(l.commands().len(), 1);
    assert_eq!(
        l.arbiter.pending().map(|p| p.feature_id),
        Some(FeatureId::CrashUnlock)
    );
    l.ack(10);
    assert_eq!(l.commands()[1], text("unlock_all"));
}

#[test]
fn door_lock_crash_lockout_10_seconds() {
    let mut l = Locks::new();
    l.request(LockCommand::UnlockAll, FeatureId::CrashUnlock, 0);
    assert_eq!(l.history.len(), 1);
    l.request(LockCommand::LockAll, FeatureId::KeyfobRke, 0);
    assert_eq!(l.history.len(), 1);
    l.ack(100);
    l.request(LockCommand::LockAll, FeatureId::KeyfobRke, 9_999);
    assert_eq!(l.commands().len(), 1);
    l.request(LockCommand::LockAll, FeatureId::KeyfobRke, 10_000);
    assert_eq!(l.commands().len(), 2);
}

#[test]
fn door_lock_unauthorized_rejected() {
    let mut l = Locks::new();
    l.request(LockCommand::LockAll, FeatureId::Drl, 0);
    assert_eq!(l.history.len(), 0, "unauthorized request should not dispatch");
}

#[test]
fn lock_status_is_published_and_saved_on_change() {
    let mut l = Locks::new();
    l.request(LockCommand::LockAll, FeatureId::KeyfobRke, 0);
    assert!(l.history.contains(&(CABIN_LOCK_STATUS, text("LOCKED"))));
    assert_eq!(l.saved, vec!["LOCKED"]);
    l.ack(10);
    l.request(LockCommand::LockAll, FeatureId::KeyfobRke, 20);
    assert_eq!(
        l.history
            .iter()
            .filter(|(s, _)| *s == CABIN_LOCK_STATUS)
            .count(),
        1
    );
}

#[test]
fn stored_status_is_restored() {
    let (mut arb, boot) = door_lock_arbiter_with_nvm("LOCKED".into());
    assert_eq!(boot.len(), 1);
    match &boot[0] {
        LockOutput::Publish(p) => {
            assert_eq!(p.signal, CABIN_LOCK_STATUS);
            assert_eq!(p.value, text("LOCKED"));
        }
        LockOutput::SaveStatus(_) => panic!("nothing to save at start-up"),
    }
    // Locking again changes nothing in the status.
    let out = arb.request(
        DoorLockRequest {
            command: LockCommand::LockAll,
            feature_id: FeatureId::KeyfobRke,
        },
        0,
    );
    assert_eq!(out.len(), 1);
}

#[test]
fn status_names() {
    assert_eq!(lock_status_for(LockCommand::UnlockDriver), "DRIVER_UNLOCKED");
    assert_eq!(lock_status_for(LockCommand::UnlockAll), "UNLOCKED");
    assert_eq!(lock_status_for(LockCommand::LockAll), "LOCKED");
    assert_eq!(lock_status_for(LockCommand::DoubleLockAll), "DOUBLE_LOCKED");
    assert_eq!(lock_status_for(LockCommand::ReleaseDouble), "LOCKED");
}

// Physical gates

#[test]
fn physical_gate_blocks_claim_when_already_closed() {
    let mut b = Bench::new(puddle_arbiter());
    b.inject("Body.Mirror.Left.IsFolded", on());
    b.claim(PUDDLE_L, true, Priority::Medium, FeatureId::Welcome);
    assert_eq!(b.latest(PUDDLE_L), Some(off()));
}

#[test]
fn physical_gate_closing_mid_claim_releases_target() {
    let mut b = Bench::new(puddle_arbiter());
    b.inject("Body.Mirror.Right.IsFolded", off());
    b.claim(PUDDLE_R, true, Priority::Medium, FeatureId::Welcome);
    assert_eq!(b.latest(PUDDLE_R), Some(on()));
    b.inject("Body.Mirror.Right.IsFolded", on());
    assert_eq!(b.latest(PUDDLE_R), Some(off()));
}

#[test]
fn physical_gate_opening_restores_active_claim() {
    let mut b = Bench::new(puddle_arbiter());
    b.inject("Body.Mirror.Left.IsFolded", on());
    b.claim(PUDDLE_L, true, Priority::Medium, FeatureId::Welcome);
    b.inject("Body.Mirror.Left.IsFolded", off());
    assert_eq!(b.latest(PUDDLE_L), Some(on()));
}

#[test]
fn physical_gate_only_affects_its_own_target() {
    let mut b = Bench::new(puddle_arbiter());
    b.inject("Body.Mirror.Left.IsFolded", on());
    for sig in [PUDDLE_L, PUDDLE_R] {
        b.claim(sig, true, Priority::Medium, FeatureId::Welcome);
    }
    assert_eq!(b.latest(PUDDLE_L), Some(off()));
    assert_eq!(b.latest(PUDDLE_R), Some(on()));
}

#[test]
fn light_switch_cannot_put_out_follow_me_home() {
    let mut b = Bench::new(low_beam_arbiter());
    b.claim(LOW, true, Priority::High, FeatureId::FollowMeHome);
    b.claim(LOW, false, Priority::Medium, FeatureId::LowBeam);
    assert_eq!(b.arbiter.resolve(LOW), on());
    b.release(LOW, FeatureId::LowBeam);
    assert_eq!(b.arbiter.resolve(LOW), on());
    b.release(LOW, FeatureId::FollowMeHome);
    assert_eq!(b.arbiter.resolve(LOW), off());
}

#[test]
fn camera_overrides_the_high_beam_stalk() {
    let mut b = Bench::new(low_beam_arbiter());
    b.claim(HIGH, true, Priority::Medium, FeatureId::HighBeam);
    b.claim(HIGH, false, Priority::High, FeatureId::AutoHighBeam);
    assert_eq!(b.latest(HIGH), Some(off()));
    b.release(HIGH, FeatureId::AutoHighBeam);
    assert_eq!(b.latest(HIGH), Some(on()));
}

#[test]
fn horn_pad_does_not_disturb_the_panic_alarm() {
    let horn = "Body.Horn.IsActive";
    let mut b = Bench::new(horn_arbiter());
    b.claim(horn, false, Priority::High, FeatureId::PanicAlarm);
    b.claim(horn, true, Priority::Medium, FeatureId::ManualHorn);
    assert_eq!(b.latest(horn), Some(off()));
}

#[test]
fn dome_switch_yields_to_farewell() {
    let dome = "Cabin.Lights.IsDomeOn";
    let mut b = Bench::new(courtesy_arbiter());
    b.claim(dome, true, Priority::Medium, FeatureId::Farewell);
    b.claim(dome, false, Priority::Low, FeatureId::DomeSwitch);
    assert_eq!(b.latest(dome), Some(on()));
    b.release(dome, FeatureId::Farewell);
    assert_eq!(b.latest(dome), Some(off()));
}

#[test]
fn door_open_light_yields_to_welcome() {
    let mut b = Bench::new(puddle_arbiter());
    b.claim(PUDDLE_L, false, Priority::Medium, FeatureId::Welcome);
    b.claim(PUDDLE_L, true, Priority::Low, FeatureId::DoorOpenAssist);
    assert_eq!(b.latest(PUDDLE_L), Some(off()));
    assert!(b.arbiter.accepts_more());
}
