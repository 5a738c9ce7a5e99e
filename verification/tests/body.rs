use vss_bridge::arbiter::domain::DomainArbiter;
use vss_bridge::arbiter::door_lock::{door_lock_arbiter, DoorLockArbiter, LockAck, LockOutput};
use vss_bridge::arbiter::tables::{
    comfort_arbiter, courtesy_arbiter, horn_arbiter, lighting_arbiter, low_beam_arbiter,
    puddle_arbiter, trunk_arbiter,
};
use vss_bridge::signal_bus::{Domain, DoorLockRequest, Output, VssPath};
use vss_bridge::arbiter::door_lock::LOCK_LAST_REQUESTOR;
use vss_bridge::config::{MirrorFoldMode, PlatformConfig, VehicleLineCal};
use vss_bridge::features::auto_relock::{
    event_should_arm, AutoRelock, Phase, STATUS_IS_ARMED, STATUS_TIMEOUT_SECS,
};
use vss_bridge::features::child_lock::{ChildLock, OUT_L, OUT_R, PRESS_L, PRESS_R};
use vss_bridge::features::delayed_accessory::{DelayedAccessory, DAP_OUT};
use vss_bridge::features::double_lock_release::DoubleLockRelease;
use vss_bridge::features::hazard_lighting::HazardLighting;
use vss_bridge::features::mirror_adjust::{self, MirrorAdjust, SWITCH_DIRECTION, SWITCH_SELECT};
use vss_bridge::features::mirror_fold::{self, auto_target_for, FoldAction, MirrorFold};
use vss_bridge::features::panic_alarm::{PanicAlarm, ALARM_STATUS};
use vss_bridge::ipc_message::{FeatureId, SignalValue};
use vss_bridge::signal_bus::LockCommand;

/// A bus without tasks: arbiters, what was published, and the time.
#[allow(dead_code)]
struct Rig {
    now: u64,
    lighting: DomainArbiter,
    low_beam: DomainArbiter,
    horn: DomainArbiter,
    comfort: DomainArbiter,
    courtesy: DomainArbiter,
    puddle: DomainArbiter,
    trunk: DomainArbiter,
    locks: DoorLockArbiter,
    history: Vec<(VssPath, SignalValue)>,
}

#[allow(dead_code)]
impl Rig {
    fn new() -> Rig {
        Rig {
            now: 0,
            lighting: lighting_arbiter(),
            low_beam: low_beam_arbiter(),
            horn: horn_arbiter(),
            comfort: comfort_arbiter(),
            courtesy: courtesy_arbiter(),
            puddle: puddle_arbiter(),
            trunk: trunk_arbiter(),
            locks: door_lock_arbiter(),
            history: Vec::new(),
        }
    }

    fn arbiter(&mut self, domain: Domain) -> &mut DomainArbiter {
        match domain {
            Domain::Lighting => &mut self.lighting,
            Domain::LowBeam => &mut self.low_beam,
            Domain::Horn => &mut self.horn,
            Domain::Comfort => &mut self.comfort,
            Domain::Courtesy => &mut self.courtesy,
            Domain::Puddle => &mut self.puddle,
            Domain::Trunk => &mut self.trunk,
        }
    }

    fn perform(&mut self, outputs: Vec<Output>) {
        for output in outputs {
            match output {
                Output::Publish { signal, value } => self.history.push((signal, value)),
                Output::Claim { domain, request } => {
                    if let Some(p) = self.arbiter(domain).request(request) {
                        self.history.push((p.signal, p.value.clone()));
                        self.arbiter(domain).confirm(p);
                    }
                }
                Output::Release {
                    domain,
                    signal,
                    feature_id,
                } => {
                    if let Some(p) = self.arbiter(domain).release(signal, feature_id) {
                        self.history.push((p.signal, p.value.clone()));
                        self.arbiter(domain).confirm(p);
                    }
                }
                Output::Lock { order } => self.lock(order),
            }
        }
    }

    fn lock(&mut self, order: DoorLockRequest) {
        for out in self.locks.request(order, self.now) {
            if let LockOutput::Publish(p) = out {
                self.history.push((p.signal, p.value));
            }
        }
        // The motor is done at once.
        let ack = LockAck {
            event_number: 1,
            door_results: [true, true, true, true],
        };
        for out in self.locks.ack(ack, self.now) {
            if let LockOutput::Publish(p) = out {
                self.history.push((p.signal, p.value));
            }
        }
    }

    fn set_gate(&mut self, domain: Domain, signal: &str, value: &SignalValue) {
        let hits: Vec<(VssPath, bool)> = self
            .arbiter(domain)
            .gates()
            .iter()
            .filter(|g| g.gate_signal == signal)
            .map(|g| (g.target, g.is_closed_by(value)))
            .collect();
        for (target, closed) in hits {
            if let Some(p) = self.arbiter(domain).gate_changed(target, closed) {
                self.history.push((p.signal, p.value.clone()));
                self.arbiter(domain).confirm(p);
            }
        }
    }

    fn has(&self, signal: &str, value: &SignalValue) -> bool {
        self.history.iter().any(|(s, v)| *s == signal && v == value)
    }

    fn mentions(&self, signal: &str) -> bool {
        self.history.iter().any(|(s, _)| *s == signal)
    }

    fn count(&self, signal: &str, value: &SignalValue) -> usize {
        self.history
            .iter()
            .filter(|(s, v)| *s == signal && v == value)
            .count()
    }

    fn latest(&self, signal: &str) -> Option<SignalValue> {
        self.history
            .iter()
            .rev()
            .find(|(s, _)| *s == signal)
            .map(|(_, v)| v.clone())
    }

    fn clear(&mut self) {
        self.history.clear();
    }
}

#[allow(dead_code)]
fn on() -> SignalValue {
    SignalValue::Bool(true)
}

#[allow(dead_code)]
fn off() -> SignalValue {
    SignalValue::Bool(false)
}

#[allow(dead_code)]
fn text(s: &str) -> SignalValue {
    SignalValue::String(s.into())
}

const COMMAND: &str = "Body.Doors.CentralLock.Command";
const LEFT_INDICATOR: &str = "Body.Lights.DirectionIndicator.Left.IsSignaling";
const RIGHT_INDICATOR: &str = "Body.Lights.DirectionIndicator.Right.IsSignaling";

// ---- Auto relock --------------------------------------------------------------

struct Relock {
    rig: Rig,
    relock: AutoRelock,
}

impl Relock {
    fn new(timeout: u64) -> Relock {
        Relock {
            rig: Rig::new(),
            relock: AutoRelock::new().with_timeout(timeout),
        }
    }

    fn unlock_by(&mut self, requestor: &str) {
        let now = self.rig.now;
        let outputs = self.relock.on_status(&text("UNLOCKED"));
        self.rig.perform(outputs);
        let outputs = self.relock.on_requestor(&text(requestor), now);
        self.rig.perform(outputs);
    }

    fn sleep(&mut self, ms: u64) {
        self.rig.now += ms;
        let outputs = self.relock.on_tick(self.rig.now);
        self.rig.perform(outputs);
    }

    fn crash(&mut self) {
        let outputs = self.relock.on_crash(&on());
        self.rig.perform(outputs);
    }

    fn power(&mut self, state: &str) {
        let outputs = self.relock.on_power(&text(state));
        self.rig.perform(outputs);
    }

    fn door_locked(&mut self, val: SignalValue) {
        let outputs = self.relock.on_door_locked(&val);
        self.rig.perform(outputs);
    }

    fn locked(&self) -> bool {
        self.rig.has(COMMAND, &text("lock_all"))
    }
}

#[test]
fn relock_after_timeout() {
    let mut r = Relock::new(100);
    r.unlock_by("KeyfobRke");
    r.sleep(200);
    assert!(r.locked());
}

#[test]
fn relock_happens_at_the_deadline_and_not_before() {
    let mut r = Relock::new(100);
    r.unlock_by("KeyfobRke");
    assert_eq!(r.relock.deadline(), Some(100));
    r.sleep(99);
    assert!(!r.locked());
    r.sleep(1);
    assert!(r.locked());
    assert_eq!(r.relock.phase(), Phase::Idle);
    assert!(r
        .rig
        .has("Body.Doors.CentralLock.FeedbackRequest", &text("lock")));
}

#[test]
fn arming_is_advertised() {
    let mut r = Relock::new(45_000);
    r.unlock_by("KeyfobRke");
    assert_eq!(
        r.rig.latest(STATUS_TIMEOUT_SECS),
        Some(SignalValue::Uint16(45))
    );
    assert_eq!(r.rig.latest(STATUS_IS_ARMED), Some(on()));
    r.sleep(45_000);
    assert_eq!(r.rig.latest(STATUS_IS_ARMED), Some(off()));
}

#[test]
fn door_opened_cancels_relock() {
    let mut r = Relock::new(200);
    r.unlock_by("KeyfobRke");
    r.sleep(50);
    let outputs = r.relock.on_door_open(&on());
    r.rig.perform(outputs);
    r.sleep(300);
    assert!(!r.locked());
}

#[test]
fn external_relock_cancels_timer() {
    let mut r = Relock::new(200);
    r.unlock_by("KeyfobRke");
    r.sleep(50);
    r.door_locked(on());
    r.sleep(300);
    assert_eq!(r.rig.count(COMMAND, &text("lock_all")), 0);
}

#[test]
fn crash_during_timer_disables_until_power_cycle() {
    let mut r = Relock::new(500);
    r.unlock_by("KeyfobRke");
    r.sleep(50);
    r.crash();
    r.sleep(600);
    assert!(!r.locked());
    assert_eq!(r.relock.phase(), Phase::AwaitPowerOff);
    r.power("OFF");
    r.power("ON");
    assert_eq!(r.relock.phase(), Phase::Idle);
    r.rig.clear();
    r.unlock_by("KeyfobRke");
    r.sleep(600);
    assert!(r.locked());
}

#[test]
fn crash_before_unlock_disables_until_power_cycle() {
    let mut r = Relock::new(100);
    r.crash();
    r.sleep(50);
    r.unlock_by("KeyfobRke");
    r.sleep(200);
    assert!(!r.locked());
}

#[test]
fn power_cycle_with_acc_in_between() {
    let mut r = Relock::new(100);
    r.crash();
    r.sleep(50);
    r.power("OFF");
    r.power("ACC");
    assert_eq!(r.relock.phase(), Phase::AwaitPowerOn);
    r.power("ON");
    r.rig.clear();
    r.unlock_by("KeyfobRke");
    r.sleep(200);
    assert!(r.locked());
}

#[test]
fn is_locked_edge_alone_does_not_arm() {
    let mut r = Relock::new(100);
    r.door_locked(off());
    r.sleep(300);
    assert!(!r.locked());
}

#[test]
fn passive_entry_unlock_arms_relock() {
    let mut r = Relock::new(100);
    r.unlock_by("PassiveEntry");
    r.sleep(200);
    assert!(r.locked());
}

#[test]
fn repeated_unlock_restarts_timer() {
    let mut r = Relock::new(150);
    r.unlock_by("KeyfobRke");
    r.sleep(100);
    r.unlock_by("KeyfobRke");
    r.sleep(100);
    assert!(!r.locked());
    r.sleep(100);
    assert!(r.locked());
}

#[test]
fn stale_islocked_does_not_cancel_fresh_timer() {
    let mut r = Relock::new(150);
    for _ in 0..4 {
        r.door_locked(on());
    }
    r.sleep(20);
    r.unlock_by("KeyfobRke");
    r.sleep(200);
    assert!(r.locked());
}

#[test]
fn door_trim_button_unlock_does_not_arm() {
    let mut r = Relock::new(100);
    r.unlock_by("DoorTrimButton");
    r.sleep(200);
    assert!(!r.locked());
}

#[test]
fn only_unlocks_from_outside_arm() {
    assert!(event_should_arm(Some("UNLOCKED"), "KeyfobRke"));
    assert!(event_should_arm(Some("DRIVER_UNLOCKED"), "NfcPhone"));
    assert!(!event_should_arm(Some("LOCKED"), "KeyfobRke"));
    assert!(!event_should_arm(None, "KeyfobRke"));
    assert!(!event_should_arm(Some("UNLOCKED"), "AutoLock"));
}

#[test]
fn relock_timeout_comes_from_the_vehicle_line() {
    let vl = VehicleLineCal {
        auto_relock_timeout_secs: 7,
        ..Default::default()
    };
    let mut relock = AutoRelock::from_config(&PlatformConfig::with_vehicle_line(vl));
    let _ = relock.on_status(&text("UNLOCKED"));
    let _ = relock.on_requestor(&text("KeyfobRke"), 1_000);
    assert_eq!(relock.deadline(), Some(8_000));
}

#[test]
fn outside_unlock_through_the_arbiter_ends_locked_again() {
    let mut r = Relock::new(100);
    r.rig.lock(DoorLockRequest {
        command: LockCommand::LockAll,
        feature_id: FeatureId::KeyfobRke,
    });
    r.rig.lock(DoorLockRequest {
        command: LockCommand::UnlockAll,
        feature_id: FeatureId::KeyfobRke,
    });
    let status = r.rig.latest("Cabin.LockStatus").unwrap();
    let requestor = r.rig.latest(LOCK_LAST_REQUESTOR).unwrap();
    let outputs = r.relock.on_status(&status);
    r.rig.perform(outputs);
    let outputs = r.relock.on_requestor(&requestor, r.rig.now);
    r.rig.perform(outputs);
    r.sleep(100);
    assert_eq!(r.rig.latest("Cabin.LockStatus"), Some(text("LOCKED")));
    assert_eq!(r.rig.latest(LOCK_LAST_REQUESTOR), Some(text("AutoRelock")));
}

// ---- Child lock ---------------------------------------------------------------

struct Child {
    rig: Rig,
    lock: ChildLock,
}

impl Child {
    fn new() -> Child {
        let lock = ChildLock::new();
        let mut rig = Rig::new();
        rig.perform(lock.boot());
        Child { rig, lock }
    }

    fn inject(&mut self, signal: &str, val: SignalValue) {
        let outputs = if signal == PRESS_L {
            self.lock.on_left(&val)
        } else {
            assert_eq!(signal, PRESS_R);
            self.lock.on_right(&val)
        };
        self.rig.perform(outputs);
    }

    fn out(&self, signal: &str) -> Option<SignalValue> {
        self.rig.latest(signal)
    }
}

#[test]
fn boots_off_both_sides() {
    let c = Child::new();
    assert_eq!(c.out(OUT_L), Some(off()));
    assert_eq!(c.out(OUT_R), Some(off()));
}

#[test]
fn left_press_toggles_left_only() {
    let mut c = Child::new();
    c.inject(PRESS_L, on());
    assert_eq!(c.out(OUT_L), Some(on()));
    assert_eq!(c.out(OUT_R), Some(off()));
}

#[test]
fn right_press_toggles_right_only() {
    let mut c = Child::new();
    c.inject(PRESS_R, on());
    assert_eq!(c.out(OUT_L), Some(off()));
    assert_eq!(c.out(OUT_R), Some(on()));
}

#[test]
fn double_press_toggles_back() {
    let mut c = Child::new();
    c.inject(PRESS_L, on());
    c.inject(PRESS_L, off());
    c.inject(PRESS_L, on());
    assert_eq!(c.out(OUT_L), Some(off()));
}

#[test]
fn held_press_does_not_re_toggle() {
    let mut c = Child::new();
    c.inject(PRESS_L, on());
    c.inject(PRESS_L, on());
    c.inject(PRESS_L, on());
    assert_eq!(c.out(OUT_L), Some(on()));
}

// ---- Delayed accessory power --------------------------------------------------

struct Accessory {
    rig: Rig,
    power: DelayedAccessory,
}

impl Accessory {
    fn new(timeout: u64) -> Accessory {
        let power = DelayedAccessory::new().with_timeout(timeout);
        let mut rig = Rig::new();
        rig.perform(power.boot());
        Accessory { rig, power }
    }

    fn power(&mut self, state: &str) {
        let outputs = self.power.on_power(&text(state), self.rig.now);
        self.rig.perform(outputs);
    }

    fn door(&mut self, val: SignalValue) {
        let outputs = self.power.on_door(&val);
        self.rig.perform(outputs);
    }

    fn advance(&mut self, ms: u64) {
        self.rig.now += ms;
        let outputs = self.power.on_tick(self.rig.now);
        self.rig.perform(outputs);
    }

    fn dap(&self) -> Option<SignalValue> {
        self.rig.latest(DAP_OUT)
    }
}

#[test]
fn boots_inactive() {
    let a = Accessory::new(60_000);
    assert_eq!(a.dap(), Some(off()));
}

#[test]
fn ignition_on_activates() {
    let mut a = Accessory::new(60_000);
    a.power("ON");
    assert_eq!(a.dap(), Some(on()));
}

#[test]
fn start_activates_too() {
    let mut a = Accessory::new(60_000);
    a.power("START");
    assert_eq!(a.dap(), Some(on()));
}

#[test]
fn acc_treated_as_off() {
    let mut a = Accessory::new(60_000);
    a.power("ON");
    a.power("ACC");
    assert_eq!(a.dap(), Some(on()));
}

#[test]
fn timer_expires_after_timeout() {
    let mut a = Accessory::new(100);
    a.power("ON");
    a.power("OFF");
    assert_eq!(a.dap(), Some(on()));
    assert_eq!(a.power.deadline(), Some(100));
    a.advance(99);
    assert_eq!(a.dap(), Some(on()));
    a.advance(101);
    assert_eq!(a.dap(), Some(off()));
}

#[test]
fn door_open_kills_dap() {
    let mut a = Accessory::new(60_000);
    a.power("ON");
    a.power("OFF");
    assert_eq!(a.dap(), Some(on()));
    a.door(on());
    assert_eq!(a.dap(), Some(off()));
}

#[test]
fn returning_to_on_cancels_timer() {
    let mut a = Accessory::new(100);
    a.power("ON");
    a.power("OFF");
    a.power("ON");
    a.advance(500);
    assert_eq!(a.dap(), Some(on()));
}

#[test]
fn door_open_while_ignition_on_does_not_kill() {
    let mut a = Accessory::new(100);
    a.power("ON");
    a.door(on());
    assert_eq!(a.dap(), Some(on()));
}

#[test]
fn idempotent_publishes() {
    let mut a = Accessory::new(100);
    a.power("ON");
    a.rig.clear();
    a.power("ON");
    assert!(!a.rig.mentions(DAP_OUT));
}

// ---- Double-lock release ------------------------------------------------------

fn switch_power(rig: &mut Rig, f: &mut DoubleLockRelease, state: &str) {
    rig.perform(f.on_power(&text(state)));
}

#[test]
fn off_to_on_dispatches_release_double() {
    let (mut rig, mut f) = (Rig::new(), DoubleLockRelease::new());
    switch_power(&mut rig, &mut f, "OFF");
    rig.clear();
    switch_power(&mut rig, &mut f, "ON");
    assert!(rig.has(COMMAND, &text("release_double")));
}

#[test]
fn repeated_on_without_off_does_not_re_dispatch() {
    let (mut rig, mut f) = (Rig::new(), DoubleLockRelease::new());
    switch_power(&mut rig, &mut f, "ON");
    rig.clear();
    switch_power(&mut rig, &mut f, "ON");
    assert!(!rig.mentions(COMMAND));
}

#[test]
fn acc_between_off_and_on_still_triggers() {
    let (mut rig, mut f) = (Rig::new(), DoubleLockRelease::new());
    switch_power(&mut rig, &mut f, "OFF");
    switch_power(&mut rig, &mut f, "ACC");
    rig.clear();
    switch_power(&mut rig, &mut f, "ON");
    assert!(rig.has(COMMAND, &text("release_double")));
}

// ---- Mirrors ------------------------------------------------------------------

struct Adjust {
    rig: Rig,
    mirrors: MirrorAdjust,
}

impl Adjust {
    fn new() -> Adjust {
        let mirrors = MirrorAdjust::new();
        let mut rig = Rig::new();
        rig.perform(mirrors.publish());
        Adjust { rig, mirrors }
    }

    fn inject(&mut self, signal: &str, val: &str) {
        let outputs = if signal == SWITCH_SELECT {
            self.mirrors.on_select(&text(val))
        } else {
            assert_eq!(signal, SWITCH_DIRECTION);
            self.mirrors.on_direction(&text(val))
        };
        self.rig.perform(outputs);
    }

    fn commands(&self, left: &str, right: &str) -> bool {
        self.rig.latest(mirror_adjust::CMD_LEFT) == Some(text(left))
            && self.rig.latest(mirror_adjust::CMD_RIGHT) == Some(text(right))
    }
}

#[test]
fn select_none_blocks_direction() {
    let mut a = Adjust::new();
    a.inject(SWITCH_DIRECTION, "UP");
    assert!(a.commands("NONE", "NONE"));
}

#[test]
fn select_left_routes_direction_to_left_only() {
    let mut a = Adjust::new();
    a.inject(SWITCH_SELECT, "LEFT");
    a.inject(SWITCH_DIRECTION, "UP");
    assert!(a.commands("UP", "NONE"));
}

#[test]
fn select_right_routes_direction_to_right_only() {
    let mut a = Adjust::new();
    a.inject(SWITCH_SELECT, "RIGHT");
    a.inject(SWITCH_DIRECTION, "RIGHT");
    assert!(a.commands("NONE", "RIGHT"));
}

#[test]
fn flipping_select_mid_press_swaps_active_side() {
    let mut a = Adjust::new();
    a.inject(SWITCH_SELECT, "LEFT");
    a.inject(SWITCH_DIRECTION, "UP");
    assert!(a.commands("UP", "NONE"));
    a.inject(SWITCH_SELECT, "RIGHT");
    assert!(a.commands("NONE", "UP"));
}

#[test]
fn direction_none_releases_both_sides() {
    let mut a = Adjust::new();
    a.inject(SWITCH_SELECT, "LEFT");
    a.inject(SWITCH_DIRECTION, "DOWN");
    assert!(a.commands("DOWN", "NONE"));
    a.inject(SWITCH_DIRECTION, "NONE");
    assert!(a.commands("NONE", "NONE"));
}

struct Fold {
    rig: Rig,
    mirrors: MirrorFold,
    mode: MirrorFoldMode,
    stored: Option<bool>,
}

impl Fold {
    fn with(mirrors: MirrorFold, mode: MirrorFoldMode) -> Fold {
        Fold {
            rig: Rig::new(),
            mirrors,
            mode,
            stored: None,
        }
    }

    fn new(mode: MirrorFoldMode) -> Fold {
        Fold::with(MirrorFold::new(), mode)
    }

    fn act(&mut self, action: FoldAction) {
        if action.save.is_some() {
            self.stored = action.save;
        }
        self.rig.perform(action.outputs);
    }

    fn switch(&mut self, val: SignalValue) {
        let action = self.mirrors.on_switch(&val, self.mode);
        self.act(action);
    }

    fn press(&mut self) {
        self.switch(on());
        self.switch(off());
    }

    fn lock_status(&mut self, status: &str) {
        let action = self.mirrors.on_lock_status(&text(status), self.mode);
        self.act(action);
    }

    fn landed(&mut self, left: SignalValue, right: SignalValue) {
        self.mirrors.on_left_folded(&left);
        self.mirrors.on_right_folded(&right);
    }

    fn left(&self) -> Option<SignalValue> {
        self.rig.latest(mirror_fold::CMD_LEFT)
    }

    fn right(&self) -> Option<SignalValue> {
        self.rig.latest(mirror_fold::CMD_RIGHT)
    }
}

#[test]
fn manual_press_commands_both_sides_to_fold_when_both_unfolded() {
    let mut m = Fold::new(MirrorFoldMode::Manual);
    m.press();
    assert_eq!(m.left(), Some(on()));
    assert_eq!(m.right(), Some(on()));
}

#[test]
fn manual_press_toggles_back_to_unfold() {
    let mut m = Fold::new(MirrorFoldMode::Manual);
    m.press();
    m.landed(on(), on());
    m.press();
    assert_eq!(m.left(), Some(off()));
    assert_eq!(m.right(), Some(off()));
}

#[test]
fn falling_edge_alone_does_not_trigger() {
    let mut m = Fold::new(MirrorFoldMode::Manual);
    m.switch(on());
    let after_press = m.left();
    m.switch(off());
    assert_eq!(m.left(), after_press);
}

#[test]
fn auto_lock_edge_folds_mirrors() {
    let mut m = Fold::new(MirrorFoldMode::Auto);
    m.lock_status("LOCKED");
    assert_eq!(m.left(), Some(on()));
    assert_eq!(m.right(), Some(on()));
}

#[test]
fn auto_unlock_edge_unfolds_mirrors() {
    let mut m = Fold::new(MirrorFoldMode::Auto);
    m.lock_status("LOCKED");
    m.landed(on(), on());
    m.lock_status("DRIVER_UNLOCKED");
    assert_eq!(m.left(), Some(off()));
    assert_eq!(m.right(), Some(off()));
}

#[test]
fn auto_repeating_lock_status_does_not_re_trigger() {
    let mut m = Fold::new(MirrorFoldMode::Auto);
    m.lock_status("LOCKED");
    m.landed(on(), on());
    let before = m.rig.history.len();
    m.lock_status("LOCKED");
    assert_eq!(m.rig.history.len(), before);
}

#[test]
fn auto_manual_press_still_works() {
    let mut m = Fold::new(MirrorFoldMode::Auto);
    m.press();
    assert_eq!(m.left(), Some(on()));
}

#[test]
fn off_mode_ignores_switch_press() {
    let mut m = Fold::new(MirrorFoldMode::Off);
    m.press();
    assert_eq!(m.left(), None);
    assert_eq!(m.right(), None);
}

#[test]
fn off_mode_ignores_lock_status_edges() {
    let mut m = Fold::new(MirrorFoldMode::Off);
    m.lock_status("LOCKED");
    assert_eq!(m.left(), None);
}

#[test]
fn mismatch_only_commands_the_outlier_side() {
    let mut m = Fold::new(MirrorFoldMode::Manual);
    m.landed(on(), off());
    m.press();
    assert!(!m.rig.mentions(mirror_fold::CMD_LEFT));
    assert_eq!(m.right(), Some(on()));
}

#[test]
fn last_fold_cmd_persists_to_nvm() {
    let mut m = Fold::with(MirrorFold::with_nvm(false), MirrorFoldMode::Manual);
    m.press();
    assert_eq!(m.stored, Some(true));
}

#[test]
fn trigger_is_stored_though_the_direction_stays() {
    let mut m = Fold::with(MirrorFold::with_nvm(true), MirrorFoldMode::Auto);
    m.landed(off(), on());
    m.lock_status("LOCKED");
    assert_eq!(m.stored, Some(true));
    assert_eq!(m.left(), Some(on()));
    assert_eq!(m.right(), None);
}

#[test]
fn second_press_after_nvm_restore_unfolds() {
    let mut m = Fold::with(MirrorFold::with_nvm(true), MirrorFoldMode::Manual);
    m.landed(on(), on());
    m.press();
    assert_eq!(m.left(), Some(off()));
    assert_eq!(m.right(), Some(off()));
}

#[test]
fn lock_status_picks_the_fold_direction() {
    assert_eq!(auto_target_for("LOCKED"), Some(true));
    assert_eq!(auto_target_for("DOUBLE_LOCKED"), Some(true));
    assert_eq!(auto_target_for("UNLOCKED"), Some(false));
    assert_eq!(auto_target_for("DRIVER_UNLOCKED"), Some(false));
    assert_eq!(auto_target_for("?"), None);
}

// ---- No ignition needed -------------------------------------------------------

#[test]
fn hazard_works_with_ignition_off() {
    // The power state is no input of the hazard lights.
    let (mut rig, f) = (Rig::new(), HazardLighting::new());
    rig.perform(f.on_switch(&on()));
    assert!(rig.has(LEFT_INDICATOR, &on()));
    assert!(rig.has(RIGHT_INDICATOR, &on()));
}

#[test]
fn hazard_survives_ignition_state_change() {
    let (mut rig, f) = (Rig::new(), HazardLighting::new());
    rig.perform(f.on_switch(&on()));
    // The power state changes: it is no input of the hazard lights, and no gate of
    // the indicators.
    rig.set_gate(
        Domain::Lighting,
        "Vehicle.LowVoltageSystemState",
        &text("OFF"),
    );
    assert_eq!(rig.latest(LEFT_INDICATOR), Some(on()));
    assert_eq!(rig.latest(RIGHT_INDICATOR), Some(on()));
}

#[test]
fn works_with_ignition_off() {
    // The power state is no input of the panic alarm.
    let (mut rig, mut f) = (Rig::new(), PanicAlarm::new());
    rig.perform(f.on_switch(&on(), 0));
    assert_eq!(rig.latest(LEFT_INDICATOR), Some(on()));
    assert_eq!(rig.latest(RIGHT_INDICATOR), Some(on()));
    assert_eq!(rig.latest("Body.Horn.IsActive"), Some(on()));
    assert_eq!(rig.latest(ALARM_STATUS), Some(on()));
}
