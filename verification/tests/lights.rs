use vss_bridge::arbiter::domain::DomainArbiter;
use vss_bridge::arbiter::door_lock::{door_lock_arbiter, DoorLockArbiter, LockAck, LockOutput};
use vss_bridge::arbiter::tables::{
    comfort_arbiter, courtesy_arbiter, horn_arbiter, lighting_arbiter, low_beam_arbiter,
    puddle_arbiter, trunk_arbiter,
};
use vss_bridge::signal_bus::{Domain, DoorLockRequest, Output, VssPath};
use vss_bridge::config::PlatformConfig;
use vss_bridge::features::auto_high_beam::AutoHighBeam;
use vss_bridge::features::brake_reverse_lamps::{
    is_reverse, BrakeReverseLamps, BRAKE_OUT, REVERSE_OUT,
};
use vss_bridge::features::dome_switch::{DomeSwitch, SWITCH as DOME_SWITCH};
use vss_bridge::features::door_open_assist::DoorOpenAssist;
use vss_bridge::features::farewell::{Farewell, FarewellPhase};
use vss_bridge::features::fog_lamps::{FogLamps, FRONT_OUT, REAR_OUT};
use vss_bridge::features::follow_me_home::{FollowMeHome, FMH_DURATION_SECS};
use vss_bridge::features::hazard_lighting::HazardLighting;
use vss_bridge::features::lock_feedback::{LockFeedback, FLASH_ON_MS, GAP_MS, LEAD_IN_MS};
use vss_bridge::features::manual_horn::ManualHorn;
use vss_bridge::features::manual_lighting::ManualLighting;
use vss_bridge::features::panic_alarm::{
    PanicAlarm, ALARM_STATUS, OFF_MS, ON_MS, PANIC_SWITCH,
};
use vss_bridge::ipc_message::{FeatureId, Priority, SignalValue};
use vss_bridge::signal_bus::ActuatorRequest;

const LEFT: VssPath = "Body.Lights.DirectionIndicator.Left.IsSignaling";
const RIGHT: VssPath = "Body.Lights.DirectionIndicator.Right.IsSignaling";
const LOW: VssPath = "Body.Lights.Beam.Low.IsOn";
const HIGH: VssPath = "Body.Lights.Beam.High.IsOn";
const PARKING: VssPath = "Body.Lights.Parking.IsOn";
const PLATE: VssPath = "Body.Lights.LicensePlate.IsOn";
const HORN: VssPath = "Body.Horn.IsActive";
const DOME: VssPath = "Cabin.Lights.IsDomeOn";
const PUDDLE_L: VssPath = "Body.Lights.Puddle.Left.IsOn";
const PUDDLE_R: VssPath = "Body.Lights.Puddle.Right.IsOn";
const THRESHOLD: u16 = 200;

/// A bus without tasks: arbiters, what was published, and the time.
#[allow(dead_code)]
struct Rig {
    now: u64,
    lighting: DomainArbiter,
    low_beam: DomainArbiter,
    horn: DomainArbiter,
    comfort: DomainArbiter,
    courtesy: DomainArbiter,
    puddle: DomainArbiter,
    trunk: DomainArbiter,
    locks: DoorLockArbiter,
    history: Vec<(VssPath, SignalValue)>,
}

#[allow(dead_code)]
impl Rig {
    fn new() -> Rig {
        Rig {
            now: 0,
            lighting: lighting_arbiter(),
            low_beam: low_beam_arbiter(),
            horn: horn_arbiter(),
            comfort: comfort_arbiter(),
            courtesy: courtesy_arbiter(),
            puddle: puddle_arbiter(),
            trunk: trunk_arbiter(),
            locks: door_lock_arbiter(),
            history: Vec::new(),
        }
    }

    fn arbiter(&mut self, domain: Domain) -> &mut DomainArbiter {
        match domain {
            Domain::Lighting => &mut self.lighting,
            Domain::LowBeam => &mut self.low_beam,
            Domain::Horn => &mut self.horn,
            Domain::Comfort => &mut self.comfort,
            Domain::Courtesy => &mut self.courtesy,
            Domain::Puddle => &mut self.puddle,
            Domain::Trunk => &mut self.trunk,
        }
    }

    fn perform(&mut self, outputs: Vec<Output>) {
        for output in outputs {
            match output {
                Output::Publish { signal, value } => self.history.push((signal, value)),
                Output::Claim { domain, request } => {
                    if let Some(p) = self.arbiter(domain).request(request) {
                        self.history.push((p.signal, p.value.clone()));
                        self.arbiter(domain).confirm(p);
                    }
                }
                Output::Release {
                    domain,
                    signal,
                    feature_id,
                } => {
                    if let Some(p) = self.arbiter(domain).release(signal, feature_id) {
                        self.history.push((p.signal, p.value.clone()));
                        self.arbiter(domain).confirm(p);
                    }
                }
                Output::Lock { order } => self.lock(order),
            }
        }
    }

    fn lock(&mut self, order: DoorLockRequest) {
        for out in self.locks.request(order, self.now) {
            if let LockOutput::Publish(p) = out {
                self.history.push((p.signal, p.value));
            }
        }
        // The motor is done at once.
        let ack = LockAck {
            event_number: 1,
            door_results: [true, true, true, true],
        };
        for out in self.locks.ack(ack, self.now) {
            if let LockOutput::Publish(p) = out {
                self.history.push((p.signal, p.value));
            }
        }
    }

    fn set_gate(&mut self, domain: Domain, signal: &str, value: &SignalValue) {
        let hits: Vec<(VssPath, bool)> = self
            .arbiter(domain)
            .gates()
            .iter()
            .filter(|g| g.gate_signal == signal)
            .map(|g| (g.target, g.is_closed_by(value)))
            .collect();
        for (target, closed) in hits {
            if let Some(p) = self.arbiter(domain).gate_changed(target, closed) {
                self.history.push((p.signal, p.value.clone()));
                self.arbiter(domain).confirm(p);
            }
        }
    }

    fn has(&self, signal: &str, value: &SignalValue) -> bool {
        self.history.iter().any(|(s, v)| *s == signal && v == value)
    }

    fn mentions(&self, signal: &str) -> bool {
        self.history.iter().any(|(s, _)| *s == signal)
    }

    fn count(&self, signal: &str, value: &SignalValue) -> usize {
        self.history
            .iter()
            .filter(|(s, v)| *s == signal && v == value)
            .count()
    }

    fn latest(&self, signal: &str) -> Option<SignalValue> {
        self.history
            .iter()
            .rev()
            .find(|(s, _)| *s == signal)
            .map(|(_, v)| v.clone())
    }

    fn clear(&mut self) {
        self.history.clear();
    }
}

#[allow(dead_code)]
fn on() -> SignalValue {
    SignalValue::Bool(true)
}

#[allow(dead_code)]
fn off() -> SignalValue {
    SignalValue::Bool(false)
}

#[allow(dead_code)]
fn text(s: &str) -> SignalValue {
    SignalValue::String(s.into())
}

// Auto high beam

fn manual_high(rig: &mut Rig) {
    rig.perform(vec![Output::Claim {
        domain: Domain::LowBeam,
        request: ActuatorRequest {
            signal: HIGH,
            value: on(),
            priority: Priority::Medium,
            feature_id: FeatureId::HighBeam,
        },
    }]);
}

#[test]
fn suppresses_high_beam_when_oncoming_detected() {
    let (mut rig, mut f) = (Rig::new(), AutoHighBeam::new());
    manual_high(&mut rig);
    rig.clear();
    rig.perform(f.on_oncoming(&on()));
    assert!(rig.has(HIGH, &off()));
}

#[test]
fn releases_suppression_when_oncoming_clears() {
    let (mut rig, mut f) = (Rig::new(), AutoHighBeam::new());
    manual_high(&mut rig);
    rig.perform(f.on_oncoming(&on()));
    rig.clear();
    rig.perform(f.on_oncoming(&off()));
    assert!(rig.has(HIGH, &on()));
}

#[test]
fn no_duplicate_claim_on_repeated_oncoming_signal() {
    let (mut rig, mut f) = (Rig::new(), AutoHighBeam::new());
    manual_high(&mut rig);
    rig.perform(f.on_oncoming(&on()));
    rig.clear();
    let out = f.on_oncoming(&on());
    assert!(out.is_empty());
    rig.perform(out);
    assert!(!rig.has(HIGH, &on()));
}

#[test]
fn no_action_when_already_clear() {
    let (mut rig, mut f) = (Rig::new(), AutoHighBeam::new());
    rig.perform(f.on_oncoming(&off()));
    assert!(!rig.has(HIGH, &on()));
}

#[test]
fn suppress_then_clear_then_suppress_again() {
    let (mut rig, mut f) = (Rig::new(), AutoHighBeam::new());
    manual_high(&mut rig);
    rig.perform(f.on_oncoming(&on()));
    rig.perform(f.on_oncoming(&off()));
    rig.clear();
    rig.perform(f.on_oncoming(&on()));
    assert!(rig.has(HIGH, &off()));
}

#[test]
fn ahb_does_not_affect_low_beam() {
    let (mut rig, mut f) = (Rig::new(), AutoHighBeam::new());
    rig.perform(f.on_oncoming(&on()));
    assert!(!rig.mentions(LOW));
}

// Brake and reverse lamps

#[test]
fn brake_pedal_pressed_activates_brake_lights() {
    let (mut rig, mut f) = (Rig::new(), BrakeReverseLamps::new());
    rig.perform(f.on_pedal(&SignalValue::Uint8(30)));
    assert!(rig.has(BRAKE_OUT, &on()));
}

#[test]
fn brake_pedal_released_deactivates_brake_lights() {
    let (mut rig, mut f) = (Rig::new(), BrakeReverseLamps::new());
    rig.perform(f.on_pedal(&SignalValue::Uint8(50)));
    rig.clear();
    rig.perform(f.on_pedal(&SignalValue::Uint8(0)));
    assert!(rig.has(BRAKE_OUT, &off()));
}

#[test]
fn brake_lights_active_without_ignition() {
    let (mut rig, mut f) = (Rig::new(), BrakeReverseLamps::new());
    rig.perform(f.on_pedal(&SignalValue::Uint8(20)));
    assert!(rig.has(BRAKE_OUT, &on()));
}

#[test]
fn reverse_gear_with_ignition_activates_backup_lights() {
    let (mut rig, mut f) = (Rig::new(), BrakeReverseLamps::new());
    rig.perform(f.on_power(&text("ON")));
    rig.perform(f.on_gear(&SignalValue::Int16(-1)));
    assert!(rig.has(REVERSE_OUT, &on()));
}

#[test]
fn reverse_gear_without_ignition_no_backup_lights() {
    let (mut rig, mut f) = (Rig::new(), BrakeReverseLamps::new());
    rig.perform(f.on_gear(&SignalValue::Int16(-1)));
    assert!(!rig.has(REVERSE_OUT, &on()));
}

#[test]
fn forward_gear_no_backup_lights() {
    let (mut rig, mut f) = (Rig::new(), BrakeReverseLamps::new());
    rig.perform(f.on_power(&text("ON")));
    rig.perform(f.on_gear(&SignalValue::Uint8(1)));
    assert!(!rig.has(REVERSE_OUT, &on()));
}

#[test]
fn neutral_gear_no_backup_lights() {
    let (mut rig, mut f) = (Rig::new(), BrakeReverseLamps::new());
    rig.perform(f.on_power(&text("ON")));
    rig.perform(f.on_gear(&SignalValue::Uint8(0)));
    assert!(!rig.has(REVERSE_OUT, &on()));
}

#[test]
fn ignition_off_suppresses_backup_lights() {
    let (mut rig, mut f) = (Rig::new(), BrakeReverseLamps::new());
    rig.perform(f.on_power(&text("ON")));
    rig.perform(f.on_gear(&SignalValue::Int16(-1)));
    rig.clear();
    rig.perform(f.on_power(&text("OFF")));
    assert!(rig.has(REVERSE_OUT, &off()));
}

#[test]
fn brake_and_reverse_can_be_active_simultaneously() {
    let (mut rig, mut f) = (Rig::new(), BrakeReverseLamps::new());
    rig.perform(f.on_power(&text("ON")));
    rig.perform(f.on_gear(&SignalValue::Int16(-1)));
    rig.perform(f.on_pedal(&SignalValue::Uint8(80)));
    assert!(rig.has(BRAKE_OUT, &on()));
    assert!(rig.has(REVERSE_OUT, &on()));
}

#[test]
fn gear_as_text() {
    for reverse in ["-1", "-2", "-007", "-9223372036854775808"] {
        assert!(is_reverse(&text(reverse)), "{reverse}");
    }
    for other in [
        "", "-", "0", "-0", "1", "+1", "R", "-1 ", "--1", "-1x", "-9223372036854775809",
        "-99999999999999999999",
    ] {
        assert!(!is_reverse(&text(other)), "{other}");
    }
    assert!(!is_reverse(&on()));
}

// Fog lamps

#[test]
fn front_fog_on_with_ignition() {
    let (mut rig, mut f) = (Rig::new(), FogLamps::new());
    rig.perform(f.on_power(&text("ON")));
    rig.perform(f.on_front(&on()));
    assert!(rig.has(FRONT_OUT, &on()));
}

#[test]
fn rear_fog_on_with_ignition() {
    let (mut rig, mut f) = (Rig::new(), FogLamps::new());
    rig.perform(f.on_power(&text("ON")));
    rig.perform(f.on_rear(&on()));
    assert!(rig.has(REAR_OUT, &on()));
}

#[test]
fn front_fog_off_without_ignition() {
    let (mut rig, mut f) = (Rig::new(), FogLamps::new());
    rig.perform(f.on_front(&on()));
    assert!(!rig.has(FRONT_OUT, &on()));
}

#[test]
fn rear_fog_off_without_ignition() {
    let (mut rig, mut f) = (Rig::new(), FogLamps::new());
    rig.perform(f.on_rear(&on()));
    assert!(!rig.has(REAR_OUT, &on()));
}

#[test]
fn ignition_off_extinguishes_fog_lamps() {
    let (mut rig, mut f) = (Rig::new(), FogLamps::new());
    rig.perform(f.on_power(&text("ON")));
    rig.perform(f.on_front(&on()));
    rig.perform(f.on_rear(&on()));
    rig.clear();
    rig.perform(f.on_power(&text("OFF")));
    assert!(rig.has(FRONT_OUT, &off()));
    assert!(rig.has(REAR_OUT, &off()));
}

#[test]
fn switch_off_extinguishes_front_fog() {
    let (mut rig, mut f) = (Rig::new(), FogLamps::new());
    rig.perform(f.on_power(&text("ON")));
    rig.perform(f.on_front(&on()));
    rig.clear();
    rig.perform(f.on_front(&off()));
    assert!(rig.has(FRONT_OUT, &off()));
}

#[test]
fn front_and_rear_independent() {
    let (mut rig, mut f) = (Rig::new(), FogLamps::new());
    rig.perform(f.on_power(&text("ON")));
    rig.perform(f.on_front(&on()));
    rig.perform(f.on_rear(&off()));
    assert!(rig.has(FRONT_OUT, &on()));
    assert!(!rig.has(REAR_OUT, &on()));
}

#[test]
fn acc_state_extinguishes_fog_lamps() {
    let (mut rig, mut f) = (Rig::new(), FogLamps::new());
    rig.perform(f.on_power(&text("ON")));
    rig.perform(f.on_front(&on()));
    rig.perform(f.on_rear(&on()));
    rig.clear();
    rig.perform(f.on_power(&text("ACC")));
    assert!(rig.has(FRONT_OUT, &off()));
    assert!(rig.has(REAR_OUT, &off()));
}

// Follow me home

#[test]
fn fmh_triggers_when_door_opens_after_ignition_off_in_dark() {
    let (mut rig, mut f) = (Rig::new(), FollowMeHome::new(THRESHOLD));
    rig.perform(f.on_power(&text("ON")));
    rig.perform(f.on_power(&text("OFF")));
    rig.perform(f.on_lux(&SignalValue::Uint16(THRESHOLD - 1)));
    rig.clear();
    rig.perform(f.on_door(&on(), 0));
    assert!(rig.has(LOW, &on()));
}

#[test]
fn fmh_also_activates_parking_and_license_plate() {
    let (mut rig, mut f) = (Rig::new(), FollowMeHome::new(THRESHOLD));
    rig.perform(f.on_power(&text("ON")));
    rig.perform(f.on_power(&text("OFF")));
    rig.perform(f.on_lux(&SignalValue::Uint16(THRESHOLD - 1)));
    rig.clear();
    rig.perform(f.on_door(&on(), 0));
    assert!(rig.has(PARKING, &on()));
    assert!(rig.has(PLATE, &on()));
}

#[test]
fn fmh_does_not_trigger_in_daylight() {
    let (mut rig, mut f) = (Rig::new(), FollowMeHome::new(THRESHOLD));
    rig.perform(f.on_power(&text("ON")));
    rig.perform(f.on_power(&text("OFF")));
    rig.perform(f.on_lux(&SignalValue::Uint16(THRESHOLD + 1)));
    rig.perform(f.on_door(&on(), 0));
    assert!(!rig.has(LOW, &on()));
}

#[test]
fn fmh_does_not_trigger_with_ignition_on() {
    let (mut rig, mut f) = (Rig::new(), FollowMeHome::new(THRESHOLD));
    rig.perform(f.on_power(&text("ON")));
    rig.perform(f.on_lux(&SignalValue::Uint16(THRESHOLD - 1)));
    rig.perform(f.on_door(&on(), 0));
    assert!(!rig.has(LOW, &on()));
}

#[test]
fn fmh_does_not_trigger_on_door_close() {
    let (mut rig, mut f) = (Rig::new(), FollowMeHome::new(THRESHOLD));
    rig.perform(f.on_power(&text("OFF")));
    rig.perform(f.on_lux(&SignalValue::Uint16(THRESHOLD - 1)));
    rig.perform(f.on_door(&on(), 0));
    rig.clear();
    rig.perform(f.on_door(&off(), 10));
    assert!(!rig.has(LOW, &on()));
}

#[test]
fn fmh_turns_off_after_45_seconds() {
    let (mut rig, mut f) = (Rig::new(), FollowMeHome::new(THRESHOLD));
    rig.perform(f.on_power(&text("OFF")));
    rig.perform(f.on_lux(&SignalValue::Uint16(50)));
    rig.perform(f.on_door(&on(), 0));
    assert_eq!(f.deadline(), Some(FMH_DURATION_SECS * 1000));
    rig.clear();
    rig.perform(f.on_tick(44_999));
    assert!(!rig.mentions(LOW));
    rig.perform(f.on_tick(46_000));
    assert!(rig.has(LOW, &off()));
}

#[test]
fn ignition_on_cancels_fmh_early() {
    let (mut rig, mut f) = (Rig::new(), FollowMeHome::new(THRESHOLD));
    rig.perform(f.on_power(&text("OFF")));
    rig.perform(f.on_lux(&SignalValue::Uint16(50)));
    rig.perform(f.on_door(&on(), 0));
    rig.perform(f.on_tick(5_000));
    rig.clear();
    rig.perform(f.on_power(&text("ON")));
    assert!(rig.has(LOW, &off()));
    assert_eq!(f.deadline(), None);
}

#[test]
fn only_off_and_accessory_arm_follow_me_home() {
    for (state, armed) in [("OFF", true), ("ACC", true), ("LOCK", false), ("?", false)] {
        let mut f = FollowMeHome::new(THRESHOLD);
        f.on_power(&text("ON"));
        f.on_power(&text(state));
        assert_eq!(f.armed, armed, "{state}");
    }
    let mut f = FollowMeHome::new(THRESHOLD);
    f.on_power(&on());
    assert!(!f.armed);
    f.on_power(&text("OFF"));
    f.on_power(&text("LOCK"));
    assert!(!f.armed);
    // A door that opens in the dark claims nothing then.
    f.on_lux(&SignalValue::Uint16(0));
    assert!(f.on_door(&on(), 0).is_empty());
}

// Hazard lighting

#[test]
fn hazard_engaged_activates_both_indicators() {
    let (mut rig, f) = (Rig::new(), HazardLighting::new());
    rig.perform(f.on_switch(&on()));
    assert!(rig.has(LEFT, &on()));
    assert!(rig.has(RIGHT, &on()));
}

#[test]
fn hazard_disengaged_deactivates_both_indicators() {
    let (mut rig, f) = (Rig::new(), HazardLighting::new());
    rig.perform(f.on_switch(&on()));
    rig.clear();
    rig.perform(f.on_switch(&off()));
    assert!(rig.has(LEFT, &off()));
    assert!(rig.has(RIGHT, &off()));
}

#[test]
fn hazard_publishes_once_per_transition() {
    let (mut rig, f) = (Rig::new(), HazardLighting::new());
    rig.perform(f.on_switch(&on()));
    assert_eq!(rig.count(LEFT, &on()), 1);
    assert_eq!(rig.count(RIGHT, &on()), 1);
}

// Manual lighting

#[test]
fn beam_switch_with_ignition_on_enables_low_beam() {
    let (mut rig, mut f) = (Rig::new(), ManualLighting::new(THRESHOLD));
    rig.perform(f.on_power(&text("ON")));
    rig.perform(f.on_switch(&text("BEAM")));
    assert!(rig.has(LOW, &on()));
}

#[test]
fn beam_switch_off_no_low_beam() {
    let (mut rig, mut f) = (Rig::new(), ManualLighting::new(THRESHOLD));
    rig.perform(f.on_power(&text("ON")));
    rig.perform(f.on_switch(&text("OFF")));
    assert!(!rig.has(LOW, &on()));
}

#[test]
fn ignition_off_forces_both_beams_off() {
    let (mut rig, mut f) = (Rig::new(), ManualLighting::new(THRESHOLD));
    rig.perform(f.on_power(&text("ON")));
    rig.perform(f.on_switch(&text("BEAM")));
    rig.perform(f.on_high_beam(&on()));
    rig.clear();
    rig.perform(f.on_power(&text("OFF")));
    assert!(rig.has(LOW, &off()));
    assert!(rig.has(HIGH, &off()));
}

#[test]
fn high_beam_requires_low_beam_on() {
    let (mut rig, mut f) = (Rig::new(), ManualLighting::new(THRESHOLD));
    rig.perform(f.on_power(&text("ON")));
    rig.perform(f.on_switch(&text("OFF")));
    rig.perform(f.on_high_beam(&on()));
    assert!(!rig.has(HIGH, &on()));
}

#[test]
fn high_beam_active_when_low_beam_on() {
    let (mut rig, mut f) = (Rig::new(), ManualLighting::new(THRESHOLD));
    rig.perform(f.on_power(&text("ON")));
    rig.perform(f.on_switch(&text("BEAM")));
    rig.perform(f.on_high_beam(&on()));
    assert!(rig.has(HIGH, &on()));
}

#[test]
fn auto_mode_below_threshold_enables_low_beam() {
    let (mut rig, mut f) = (Rig::new(), ManualLighting::new(THRESHOLD));
    rig.perform(f.on_power(&text("ON")));
    rig.perform(f.on_switch(&text("AUTO")));
    rig.perform(f.on_lux(&SignalValue::Uint16(THRESHOLD - 1)));
    assert!(rig.has(LOW, &on()));
}

#[test]
fn auto_mode_above_threshold_no_low_beam() {
    let (mut rig, mut f) = (Rig::new(), ManualLighting::new(THRESHOLD));
    rig.perform(f.on_power(&text("ON")));
    rig.perform(f.on_switch(&text("AUTO")));
    rig.perform(f.on_lux(&SignalValue::Uint16(THRESHOLD + 1)));
    rig.perform(f.on_lux(&SignalValue::Uint16(THRESHOLD)));
    assert!(!rig.has(LOW, &on()));
}

#[test]
fn auto_mode_no_sensor_reading_no_low_beam() {
    let (mut rig, mut f) = (Rig::new(), ManualLighting::new(THRESHOLD));
    rig.perform(f.on_power(&text("ON")));
    rig.perform(f.on_switch(&text("AUTO")));
    assert!(!rig.has(LOW, &on()));
}

#[test]
fn auto_mode_lux_rises_above_threshold_turns_beam_off() {
    let (mut rig, mut f) = (Rig::new(), ManualLighting::new(THRESHOLD));
    rig.perform(f.on_power(&text("ON")));
    rig.perform(f.on_switch(&text("AUTO")));
    rig.perform(f.on_lux(&SignalValue::Uint16(50)));
    rig.clear();
    rig.perform(f.on_lux(&SignalValue::Uint16(5000)));
    assert!(rig.has(LOW, &off()));
}

#[test]
fn position_mode_does_not_enable_beams() {
    let (mut rig, mut f) = (Rig::new(), ManualLighting::new(THRESHOLD));
    rig.perform(f.on_power(&text("ON")));
    rig.perform(f.on_switch(&text("POSITION")));
    assert!(!rig.has(LOW, &on()));
}

#[test]
fn acc_state_forces_beams_off() {
    let (mut rig, mut f) = (Rig::new(), ManualLighting::new(THRESHOLD));
    rig.perform(f.on_power(&text("ON")));
    rig.perform(f.on_switch(&text("BEAM")));
    rig.clear();
    rig.perform(f.on_power(&text("ACC")));
    assert!(rig.has(LOW, &off()));
}

// Farewell

fn short_farewell() -> Farewell {
    Farewell::new().with_arm_window(200).with_hold(100)
}

fn armed_farewell(rig: &mut Rig) -> Farewell {
    let mut f = short_farewell();
    rig.perform(f.on_power(&text("ON"), 0));
    rig.perform(f.on_power(&text("OFF"), 2));
    f
}

#[test]
fn ignition_off_then_door_open_claims_lights() {
    let mut rig = Rig::new();
    let mut f = armed_farewell(&mut rig);
    rig.perform(f.on_door(&on(), 4));
    assert_eq!(rig.latest(PUDDLE_L), Some(on()));
    assert_eq!(rig.latest(PUDDLE_R), Some(on()));
    assert_eq!(rig.latest(DOME), Some(on()));
}

#[test]
fn door_open_without_prior_ignition_off_does_not_arm() {
    let (mut rig, mut f) = (Rig::new(), short_farewell());
    rig.perform(f.on_power(&text("ON"), 0));
    rig.perform(f.on_door(&on(), 2));
    assert_eq!(rig.latest(PUDDLE_L), None);
}

#[test]
fn arm_window_expires_without_door_open() {
    let mut rig = Rig::new();
    let mut f = armed_farewell(&mut rig);
    assert_eq!(f.deadline(), Some(202));
    rig.perform(f.on_tick(222));
    rig.perform(f.on_door(&on(), 224));
    assert_eq!(rig.latest(PUDDLE_L), None);
}

#[test]
fn lock_command_releases_during_hold() {
    let mut rig = Rig::new();
    let mut f = armed_farewell(&mut rig);
    rig.perform(f.on_door(&on(), 4));
    assert_eq!(rig.latest(PUDDLE_L), Some(on()));
    rig.perform(f.on_lock_status(&text("LOCKED")));
    assert_eq!(rig.latest(PUDDLE_L), Some(off()));
}

#[test]
fn hold_expires() {
    let mut rig = Rig::new();
    let mut f = armed_farewell(&mut rig);
    rig.perform(f.on_door(&on(), 4));
    assert_eq!(rig.latest(PUDDLE_L), Some(on()));
    rig.perform(f.on_tick(124));
    assert_eq!(rig.latest(PUDDLE_L), Some(off()));
    assert_eq!(f.phase, FarewellPhase::Idle);
}

#[test]
fn ignition_back_on_during_hold_releases() {
    let mut rig = Rig::new();
    let mut f = armed_farewell(&mut rig);
    rig.perform(f.on_door(&on(), 4));
    assert_eq!(rig.latest(PUDDLE_L), Some(on()));
    rig.perform(f.on_power(&text("ON"), 10));
    assert_eq!(rig.latest(PUDDLE_L), Some(off()));
}

#[test]
fn farewell_default_spans() {
    let f = Farewell::new();
    assert_eq!(f.arm_window, 30_000);
    assert_eq!(f.hold, 20_000);
}

// Lock feedback

#[test]
fn lock_feedback_single_flash_sequence() {
    let (mut rig, mut f) = (Rig::new(), LockFeedback::new());
    rig.perform(f.on_feedback(&text("lock"), 0));
    assert!(rig.has(LEFT, &off()));
    let mut now = LEAD_IN_MS + 1;
    rig.perform(f.on_tick(now));
    assert!(rig.has(LEFT, &on()));
    now += FLASH_ON_MS + 1;
    rig.perform(f.on_tick(now));
    assert_eq!(rig.latest(LEFT), Some(off()));
    assert_eq!(f.deadline(), None);
}

#[test]
fn unlock_feedback_two_flash_units() {
    let (mut rig, mut f) = (Rig::new(), LockFeedback::new());
    rig.perform(f.on_feedback(&text("unlock"), 0));
    let mut now = 0;
    for step in [LEAD_IN_MS, FLASH_ON_MS, GAP_MS, LEAD_IN_MS, FLASH_ON_MS] {
        now += step + 1;
        rig.perform(f.on_tick(now));
    }
    assert_eq!(rig.count(LEFT, &on()), 2);
    assert_eq!(rig.latest(LEFT), Some(off()));
}

#[test]
fn preemption_aborts_current_pattern() {
    let (mut rig, mut f) = (Rig::new(), LockFeedback::new());
    rig.perform(f.on_feedback(&text("unlock"), 0));
    rig.perform(f.on_tick(300));
    rig.clear();
    rig.perform(f.on_feedback(&text("lock"), 300));
    rig.perform(f.on_tick(1_000));
    assert_eq!(rig.count(LEFT, &on()), 1);
}

#[test]
fn trunk_unlock_arms_trunk_close_feedback() {
    let (mut rig, mut f) = (Rig::new(), LockFeedback::new());
    rig.perform(f.on_feedback(&text("trunk_unlock"), 0));
    rig.perform(f.on_tick(2_400));
    rig.clear();
    rig.perform(f.on_trunk(&off(), 2_400));
    rig.perform(f.on_tick(3_600));
    assert_eq!(rig.count(LEFT, &on()), 1);
}

#[test]
fn trunk_close_plays_unlock_when_cabin_unsecured() {
    let (mut rig, mut f) = (Rig::new(), LockFeedback::new());
    rig.perform(f.on_feedback(&text("trunk_unlock"), 0));
    rig.perform(f.on_tick(2_400));
    rig.clear();
    let mut now = 2_400;
    rig.perform(f.on_trunk(&off(), now));
    for step in [LEAD_IN_MS, FLASH_ON_MS, GAP_MS, LEAD_IN_MS, FLASH_ON_MS] {
        now += step + 1;
        rig.perform(f.on_tick(now));
    }
    assert_eq!(rig.count(LEFT, &on()), 2);
}

#[test]
fn trunk_close_plays_lock_when_cabin_secured() {
    let (mut rig, mut f) = (Rig::new(), LockFeedback::new());
    for door in 0..4 {
        f.on_door_locked(door, &on());
    }
    rig.perform(f.on_feedback(&text("trunk_unlock"), 0));
    rig.perform(f.on_trunk(&off(), 10));
    rig.clear();
    rig.perform(f.on_tick(110));
    rig.perform(f.on_tick(610));
    assert_eq!(rig.count(LEFT, &on()), 1);
    assert_eq!(f.deadline(), None);
}

#[test]
fn trunk_close_without_external_open_is_silent() {
    let (mut rig, mut f) = (Rig::new(), LockFeedback::new());
    rig.perform(f.on_trunk(&off(), 0));
    rig.perform(f.on_tick(1_200));
    assert!(!rig.has(LEFT, &on()));
}

#[test]
fn denied_lock_gives_no_flash() {
    let mut f = LockFeedback::new();
    assert!(f.on_feedback(&text("lock_denied"), 0).is_empty());
    assert_eq!(f.deadline(), None);
}

// Manual horn

#[test]
fn press_engages_horn() {
    let (mut rig, mut f) = (Rig::new(), ManualHorn::new());
    rig.perform(f.on_switch(&on()));
    assert_eq!(rig.latest(HORN), Some(on()));
}

#[test]
fn release_clears_horn() {
    let (mut rig, mut f) = (Rig::new(), ManualHorn::new());
    rig.perform(f.on_switch(&on()));
    assert_eq!(rig.latest(HORN), Some(on()));
    rig.perform(f.on_switch(&off()));
    assert_eq!(rig.latest(HORN), Some(off()));
}

#[test]
fn double_press_is_idempotent() {
    let (mut rig, mut f) = (Rig::new(), ManualHorn::new());
    rig.perform(f.on_switch(&on()));
    let first = rig.history.len();
    rig.perform(f.on_switch(&on()));
    assert_eq!(first, rig.history.len());
}

#[test]
fn anything_else_clears_horn() {
    let (mut rig, mut f) = (Rig::new(), ManualHorn::new());
    rig.perform(f.on_switch(&on()));
    rig.perform(f.on_switch(&text("true")));
    assert_eq!(rig.latest(HORN), Some(off()));
}

#[test]
fn panic_alarm_preempts_the_horn_pad() {
    let mut rig = Rig::new();
    let (mut horn, mut panic_alarm) = (ManualHorn::new(), PanicAlarm::new());
    rig.perform(horn.on_switch(&on()));
    rig.perform(panic_alarm.on_switch(&on(), 0));
    rig.perform(panic_alarm.on_tick(ON_MS));
    assert_eq!(rig.latest(HORN), Some(off()));
    rig.perform(panic_alarm.on_switch(&off(), 500));
    assert_eq!(rig.latest(HORN), Some(on()));
}

// Dome switch

fn booted_dome(rig: &mut Rig) -> DomeSwitch {
    let mut f = DomeSwitch::new();
    rig.perform(f.boot(false));
    f
}

#[test]
fn boots_to_off() {
    let mut rig = Rig::new();
    booted_dome(&mut rig);
    assert_eq!(rig.latest(DOME), Some(off()));
    assert_eq!(rig.latest(DOME_SWITCH), Some(text("OFF")));
}

#[test]
fn boot_leaves_a_known_switch_alone() {
    let mut rig = Rig::new();
    let mut f = DomeSwitch::new();
    rig.perform(f.boot(true));
    assert!(!rig.mentions(DOME_SWITCH));
    assert_eq!(rig.latest(DOME), Some(off()));
}

#[test]
fn position_on_forces_dome_on() {
    let mut rig = Rig::new();
    let mut f = booted_dome(&mut rig);
    rig.perform(f.on_switch(&text("ON")));
    assert_eq!(rig.latest(DOME), Some(on()));
}

#[test]
fn position_door_lamp_follows_any_door() {
    let mut rig = Rig::new();
    let mut f = booted_dome(&mut rig);
    rig.perform(f.on_switch(&text("DOOR")));
    assert_eq!(rig.latest(DOME), Some(off()));
    rig.perform(f.on_door(3, &on()));
    assert_eq!(rig.latest(DOME), Some(on()));
    rig.perform(f.on_door(3, &off()));
    assert_eq!(rig.latest(DOME), Some(off()));
}

#[test]
fn off_overrides_open_door() {
    let mut rig = Rig::new();
    let mut f = booted_dome(&mut rig);
    rig.perform(f.on_door(0, &on()));
    rig.perform(f.on_switch(&text("OFF")));
    assert_eq!(rig.latest(DOME), Some(off()));
}

#[test]
fn on_overrides_closed_doors() {
    let mut rig = Rig::new();
    let mut f = booted_dome(&mut rig);
    rig.perform(f.on_switch(&text("ON")));
    assert_eq!(rig.latest(DOME), Some(on()));
}

#[test]
fn redundant_door_edges_are_idempotent() {
    let mut rig = Rig::new();
    let mut f = booted_dome(&mut rig);
    rig.perform(f.on_switch(&text("DOOR")));
    rig.perform(f.on_door(0, &on()));
    rig.clear();
    rig.perform(f.on_door(0, &on()));
    assert!(!rig.mentions(DOME));
}

// Door-open assist

fn assist() -> DoorOpenAssist {
    DoorOpenAssist::new(&PlatformConfig::defaults()).with_lux_threshold(100)
}

#[test]
fn dark_plus_door_open_claims_puddle() {
    let (mut rig, mut f) = (Rig::new(), assist());
    rig.perform(f.on_lux(&SignalValue::Uint16(10)));
    rig.perform(f.on_door(0, &on()));
    assert_eq!(rig.latest(PUDDLE_L), Some(on()));
    assert_eq!(rig.latest(PUDDLE_R), Some(on()));
}

#[test]
fn daylight_door_open_does_not_claim() {
    let (mut rig, mut f) = (Rig::new(), assist());
    rig.perform(f.on_lux(&SignalValue::Uint16(50_000)));
    rig.perform(f.on_door(0, &on()));
    assert_eq!(rig.latest(PUDDLE_L), None);
}

#[test]
fn all_doors_close_releases_claim() {
    let (mut rig, mut f) = (Rig::new(), assist());
    rig.perform(f.on_lux(&SignalValue::Uint16(10)));
    rig.perform(f.on_door(0, &on()));
    assert_eq!(rig.latest(PUDDLE_L), Some(on()));
    rig.perform(f.on_door(0, &off()));
    assert_eq!(rig.latest(PUDDLE_L), Some(off()));
}

#[test]
fn second_door_open_keeps_claim_while_first_closes() {
    let (mut rig, mut f) = (Rig::new(), assist());
    rig.perform(f.on_lux(&SignalValue::Uint16(10)));
    rig.perform(f.on_door(0, &on()));
    rig.perform(f.on_door(1, &on()));
    rig.perform(f.on_door(0, &off()));
    assert_eq!(rig.latest(PUDDLE_L), Some(on()));
    rig.perform(f.on_door(1, &off()));
    assert_eq!(rig.latest(PUDDLE_L), Some(off()));
}

#[test]
fn lux_rising_above_threshold_releases() {
    let (mut rig, mut f) = (Rig::new(), assist());
    rig.perform(f.on_lux(&SignalValue::Uint16(10)));
    rig.perform(f.on_door(0, &on()));
    assert_eq!(rig.latest(PUDDLE_L), Some(on()));
    rig.perform(f.on_lux(&SignalValue::Uint16(50_000)));
    assert_eq!(rig.latest(PUDDLE_L), Some(off()));
}

#[test]
fn threshold_itself_is_dark_for_the_assist() {
    let (mut rig, mut f) = (Rig::new(), assist());
    rig.perform(f.on_lux(&SignalValue::Uint16(100)));
    rig.perform(f.on_door(2, &on()));
    assert_eq!(rig.latest(PUDDLE_L), Some(on()));
}

#[test]
fn folded_mirror_keeps_its_puddle_lamp_dark() {
    let (mut rig, mut f) = (Rig::new(), assist());
    rig.set_gate(Domain::Puddle, "Body.Mirror.Left.IsFolded", &on());
    rig.perform(f.on_lux(&SignalValue::Uint16(10)));
    rig.perform(f.on_door(0, &on()));
    assert_eq!(rig.latest(PUDDLE_L), Some(off()));
    assert_eq!(rig.latest(PUDDLE_R), Some(on()));
}

// Panic alarm

#[test]
fn engage_publishes_alarm_active_true_and_starts_pulses() {
    let (mut rig, mut f) = (Rig::new(), PanicAlarm::new());
    rig.perform(f.on_switch(&on(), 1));
    assert_eq!(rig.latest(ALARM_STATUS), Some(on()));
    assert_eq!(rig.latest(LEFT), Some(on()));
    assert_eq!(rig.latest(RIGHT), Some(on()));
    assert_eq!(rig.latest(HORN), Some(on()));
}

#[test]
fn disengage_releases_all_outputs() {
    let (mut rig, mut f) = (Rig::new(), PanicAlarm::new());
    rig.perform(f.on_switch(&on(), 1));
    rig.perform(f.on_switch(&off(), 2));
    assert_eq!(rig.latest(ALARM_STATUS), Some(off()));
    assert_eq!(rig.latest(LEFT), Some(off()));
    assert_eq!(rig.latest(RIGHT), Some(off()));
    assert_eq!(rig.latest(HORN), Some(off()));
}

#[test]
fn lights_and_horn_pulse_synchronously() {
    let (mut rig, mut f) = (Rig::new(), PanicAlarm::new());
    let mut now = 1;
    rig.perform(f.on_switch(&on(), now));
    assert_eq!(rig.latest(LEFT), Some(on()));
    assert_eq!(rig.latest(HORN), Some(on()));
    now += ON_MS / 2;
    rig.perform(f.on_tick(now));
    assert_eq!(rig.latest(LEFT), Some(on()));
    assert_eq!(rig.latest(HORN), Some(on()));
    now += ON_MS / 2 + 5;
    rig.perform(f.on_tick(now));
    assert_eq!(rig.latest(LEFT), Some(off()));
    assert_eq!(rig.latest(RIGHT), Some(off()));
    assert_eq!(rig.latest(HORN), Some(off()));
    now += OFF_MS;
    rig.perform(f.on_tick(now));
    assert_eq!(rig.latest(LEFT), Some(on()));
    assert_eq!(rig.latest(RIGHT), Some(on()));
    assert_eq!(rig.latest(HORN), Some(on()));
}

#[test]
fn alarm_status_does_not_duty_cycle() {
    let (mut rig, mut f) = (Rig::new(), PanicAlarm::new());
    rig.perform(f.on_switch(&on(), 1));
    rig.clear();
    for k in 1..=30 {
        rig.perform(f.on_tick(1 + k * 100));
    }
    assert!(rig.mentions(HORN));
    assert!(!rig.mentions(ALARM_STATUS));
}

#[test]
fn re_engage_while_running_is_idempotent() {
    let (mut rig, mut f) = (Rig::new(), PanicAlarm::new());
    rig.perform(f.on_switch(&on(), 0));
    let mut now = ON_MS / 2;
    rig.perform(f.on_tick(now));
    rig.clear();
    rig.perform(f.on_switch(&on(), now));
    assert!(!rig.mentions(ALARM_STATUS));
    now += ON_MS;
    rig.perform(f.on_tick(now));
    assert_eq!(rig.latest(LEFT), Some(off()));
    assert_eq!(rig.latest(HORN), Some(off()));
    now += OFF_MS;
    rig.perform(f.on_tick(now));
    assert_eq!(rig.latest(LEFT), Some(on()));
    assert_eq!(rig.latest(HORN), Some(on()));
}

#[test]
fn unlock_feedback_cancels_running_alarm() {
    let (mut rig, mut f) = (Rig::new(), PanicAlarm::new());
    rig.perform(f.on_switch(&on(), 1));
    assert_eq!(rig.latest(ALARM_STATUS), Some(on()));
    assert_eq!(rig.latest(HORN), Some(on()));
    rig.perform(f.on_feedback(&text("unlock")));
    assert_eq!(rig.latest(PANIC_SWITCH), Some(off()));
    // The feature hears its own publication.
    rig.perform(f.on_switch(&off(), 2));
    assert_eq!(rig.latest(ALARM_STATUS), Some(off()));
    assert_eq!(rig.latest(LEFT), Some(off()));
    assert_eq!(rig.latest(RIGHT), Some(off()));
    assert_eq!(rig.latest(HORN), Some(off()));
}

#[test]
fn lock_feedback_does_not_cancel_alarm() {
    let (mut rig, mut f) = (Rig::new(), PanicAlarm::new());
    rig.perform(f.on_switch(&on(), 1));
    rig.perform(f.on_feedback(&text("lock")));
    assert_eq!(rig.latest(ALARM_STATUS), Some(on()));
    assert!(!rig.mentions(PANIC_SWITCH));
}

#[test]
fn unlock_feedback_when_disengaged_is_state_noop() {
    let (mut rig, mut f) = (Rig::new(), PanicAlarm::new());
    rig.perform(f.on_feedback(&text("unlock")));
    rig.perform(f.on_switch(&off(), 1));
    assert!(!rig.mentions(ALARM_STATUS));
    assert!(!rig.has(LEFT, &on()));
    assert!(!rig.has(HORN, &on()));
}

#[test]
fn panic_press_during_other_alarm_does_not_engage_panic_alarm() {
    let (mut rig, mut f) = (Rig::new(), PanicAlarm::new());
    rig.perform(f.on_alarm_status(&on()));
    rig.perform(f.on_switch(&on(), 1));
    rig.perform(f.on_tick(51));
    assert!(!rig.has(LEFT, &on()));
    assert!(!rig.has(HORN, &on()));
    assert_eq!(rig.latest(PANIC_SWITCH), Some(off()));
}
