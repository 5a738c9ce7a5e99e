use vss_bridge::arbiter::domain::DomainArbiter;
use vss_bridge::arbiter::door_lock::{door_lock_arbiter, DoorLockArbiter, LockAck, LockOutput};
use vss_bridge::arbiter::tables::{
    comfort_arbiter, courtesy_arbiter, horn_arbiter, lighting_arbiter, low_beam_arbiter,
    puddle_arbiter, trunk_arbiter,
};
use vss_bridge::signal_bus::{Domain, DoorLockRequest, Output, VssPath};
use vss_bridge::config::{DriverDoorSide, PlatformConfig, VehicleLineCal};
use vss_bridge::features::cabin_trunk_release::CabinTrunkRelease;
use vss_bridge::features::door_trim_button::{
    DoorTrimButton, SideLabel, LEFT_UNLOCK_BUTTON, LOCK_BUTTONS, LOCK_FEEDBACK,
    RIGHT_UNLOCK_BUTTON, UNLOCK_FEEDBACK,
};
use vss_bridge::features::entry_session::EntrySession;
use vss_bridge::features::exterior_trunk_button::{ExteriorTrunkButton, Press, BUTTON};
use vss_bridge::features::hex::{hex_text, read_pair};
use vss_bridge::features::key_lost_warning::{
    KeyLostWarning, CHIME, KEY_LOST_WARNING_OUT, WARNING_DURATION_MS,
};
use vss_bridge::features::key_search::{
    latency, AntennaSet, Coalescing, DoorRef, KeySearchResult, SearchMode, Side,
};
use vss_bridge::features::key_search_arbiter::{
    fob_paired_signal, KeySearchArbiter, SearchStep,
};
use vss_bridge::features::keypad_lock::{is_outside_cabin, KeypadLock};
use vss_bridge::features::lock_reply::on_lock_reply;
use vss_bridge::features::lost_pk_scan::{LostPkScan, LOST_KEY_WARNING};
use vss_bridge::features::nfc_entry::{
    NfcEntry, NfcKind, Tap, BLE_PHONE_SIGNALS, NFC_AUTH_BYPASS, NFC_CARD_SIGNALS, START_STOP,
};
use vss_bridge::features::passive_entry::{
    challenge, is_cabin_locked, parse_response_hex, rand_nonce, response_deadline,
    response_verifies, DeviceKind, Door, PairedDevice, PassiveEntry, Trial,
    Verdict, PEPS_BLE_CHALLENGE, PEPS_LF_CHALLENGE, TRUNK_BUTTON,
};
use vss_bridge::ipc_message::SignalValue;
use vss_bridge::signal_bus::LockCommand;
use vss_bridge::zone::Zone;

/// A bus without tasks: arbiters, what was published, and the time.
#[allow(dead_code)]
struct Rig {
    now: u64,
    lighting: DomainArbiter,
    low_beam: DomainArbiter,
    horn: DomainArbiter,
    comfort: DomainArbiter,
    courtesy: DomainArbiter,
    puddle: DomainArbiter,
    trunk: DomainArbiter,
    locks: DoorLockArbiter,
    history: Vec<(VssPath, SignalValue)>,
}

#[allow(dead_code)]
impl Rig {
    fn new() -> Rig {
        Rig {
            now: 0,
            lighting: lighting_arbiter(),
            low_beam: low_beam_arbiter(),
            horn: horn_arbiter(),
            comfort: comfort_arbiter(),
            courtesy: courtesy_arbiter(),
            puddle: puddle_arbiter(),
            trunk: trunk_arbiter(),
            locks: door_lock_arbiter(),
            history: Vec::new(),
        }
    }

    fn arbiter(&mut self, domain: Domain) -> &mut DomainArbiter {
        match domain {
            Domain::Lighting => &mut self.lighting,
            Domain::LowBeam => &mut self.low_beam,
            Domain::Horn => &mut self.horn,
            Domain::Comfort => &mut self.comfort,
            Domain::Courtesy => &mut self.courtesy,
            Domain::Puddle => &mut self.puddle,
            Domain::Trunk => &mut self.trunk,
        }
    }

    fn perform(&mut self, outputs: Vec<Output>) {
        for output in outputs {
            match output {
                Output::Publish { signal, value } => self.history.push((signal, value)),
                Output::Claim { domain, request } => {
                    if let Some(p) = self.arbiter(domain).request(request) {
                        self.history.push((p.signal, p.value.clone()));
                        self.arbiter(domain).confirm(p);
                    }
                }
                Output::Release {
                    domain,
                    signal,
                    feature_id,
                } => {
                    if let Some(p) = self.arbiter(domain).release(signal, feature_id) {
                        self.history.push((p.signal, p.value.clone()));
                        self.arbiter(domain).confirm(p);
                    }
                }
                Output::Lock { order } => self.lock(order),
            }
        }
    }

    fn lock(&mut self, order: DoorLockRequest) {
        for out in self.locks.request(order, self.now) {
            if let LockOutput::Publish(p) = out {
                self.history.push((p.signal, p.value));
            }
        }
        // The motor is done at once.
        let ack = LockAck {
            event_number: 1,
            door_results: [true, true, true, true],
        };
        for out in self.locks.ack(ack, self.now) {
            if let LockOutput::Publish(p) = out {
                self.history.push((p.signal, p.value));
            }
        }
    }

    fn set_gate(&mut self, domain: Domain, signal: &str, value: &SignalValue) {
        let hits: Vec<(VssPath, bool)> = self
            .arbiter(domain)
            .gates()
            .iter()
            .filter(|g| g.gate_signal == signal)
            .map(|g| (g.target, g.is_closed_by(value)))
            .collect();
        for (target, closed) in hits {
            if let Some(p) = self.arbiter(domain).gate_changed(target, closed) {
                self.history.push((p.signal, p.value.clone()));
                self.arbiter(domain).confirm(p);
            }
        }
    }

    fn has(&self, signal: &str, value: &SignalValue) -> bool {
        self.history.iter().any(|(s, v)| *s == signal && v == value)
    }

    fn mentions(&self, signal: &str) -> bool {
        self.history.iter().any(|(s, _)| *s == signal)
    }

    fn count(&self, signal: &str, value: &SignalValue) -> usize {
        self.history
            .iter()
            .filter(|(s, v)| *s == signal && v == value)
            .count()
    }

    fn latest(&self, signal: &str) -> Option<SignalValue> {
        self.history
            .iter()
            .rev()
            .find(|(s, _)| *s == signal)
            .map(|(_, v)| v.clone())
    }

    fn clear(&mut self) {
        self.history.clear();
    }
}

#[allow(dead_code)]
fn on() -> SignalValue {
    SignalValue::Bool(true)
}

#[allow(dead_code)]
fn off() -> SignalValue {
    SignalValue::Bool(false)
}

#[allow(dead_code)]
fn text(s: &str) -> SignalValue {
    SignalValue::String(s.into())
}

// ---- Passive entry ----------------------------------------------------------

/// Passive entry on the rig, with devices that answer at once and rightly.
struct Entry {
    rig: Rig,
    entry: EntrySession,
    config: PlatformConfig,
}

fn default_secret(device_type: u8, index: u8) -> [u8; 16] {
    let mut key = [0u8; 16];
    key[0] = device_type;
    key[1] = index;
    for (k, byte) in key.iter_mut().enumerate().skip(2) {
        *byte = (device_type.wrapping_mul(17))
            .wrapping_add(index.wrapping_mul(31).wrapping_add(k as u8));
    }
    key
}

fn paired(phones: u8) -> Vec<PairedDevice> {
    let mut devices = Vec::new();
    for i in 1u8..=4 {
        devices.push(PairedDevice {
            kind: DeviceKind::Fob,
            slot: (i - 1) as usize,
            secret: default_secret(b'F', i),
        });
    }
    for i in 1u8..=phones {
        devices.push(PairedDevice {
            kind: DeviceKind::Phone,
            slot: (i - 1) as usize,
            secret: default_secret(b'P', i),
        });
    }
    devices
}

impl Entry {
    fn with_config(config: PlatformConfig) -> Entry {
        Entry {
            rig: Rig::new(),
            entry: EntrySession::new(paired(2)),
            config,
        }
    }

    fn new() -> Entry {
        Entry::with_config(PlatformConfig::defaults())
    }

    fn rhd() -> Entry {
        let mut config = PlatformConfig::defaults();
        let mut dealer = config.dealer_config();
        dealer.driver_door_side = DriverDoorSide::Right;
        config.update_dealer_config(dealer);
        Entry::with_config(config)
    }

    fn inject(&mut self, signal: &str, value: SignalValue) {
        self.rig.now += 10;
        if signal == "Cabin.LockStatus" {
            self.entry.on_lock_status(&value);
        }
        for i in 0..self.entry.devices().len() {
            if self.entry.devices()[i].zone_signal() == signal {
                self.entry.on_zone(i, &value);
            }
        }
        for door in [
            Door::Row1Left,
            Door::Row1Right,
            Door::Row2Left,
            Door::Row2Right,
        ] {
            if door.handle_signal() == signal {
                self.entry.on_handle(door, &value, &self.config);
            }
        }
        if signal == TRUNK_BUTTON {
            self.entry.on_trunk_button(&value);
        }
        self.authenticate();
    }

    fn authenticate(&mut self) {
        let expected: Vec<[u8; 16]> = match self.entry.candidates() {
            Some(candidates) => candidates
                .iter()
                .map(|i| self.entry.devices()[*i].secret)
                .collect(),
            None => return,
        };
        let nonce = rand_nonce().expect("entropy");
        self.rig.perform(challenge(&nonce));
        let response = text(&hex_text(&expected[0]));
        self.entry.on_challenged(expected, self.rig.now);
        let outputs = self
            .entry
            .on_response(0, &response, self.rig.now, &self.config);
        self.rig.perform(outputs);
        let follow_up = self.entry.on_reply(true);
        self.rig.perform(follow_up);
        if let Some(status) = self.rig.latest("Cabin.LockStatus") {
            self.entry.on_lock_status(&status);
        }
    }

    fn last_command(&self) -> Option<SignalValue> {
        self.rig.latest("Body.Doors.CentralLock.Command")
    }

    fn trunk_open_was_pulsed(&self) -> bool {
        self.rig.has("Body.Trunk.OpenCmd", &on())
    }

    fn challenged(&self) -> bool {
        self.rig.mentions(PEPS_LF_CHALLENGE)
    }
}

const FOB_1_ZONE: &str = "Body.PEPS.Plant.KeyFob.1.Zone";
const FOB_5_ZONE: &str = "Body.PEPS.Plant.KeyFob.5.Zone";
const PHONE_1_ZONE: &str = "Body.PEPS.Plant.BlePhone.1.Zone";
const LEFT_HANDLE: &str = "Body.Doors.Row1.Left.Handle.Outside.IsPulled";
const RIGHT_HANDLE: &str = "Body.Doors.Row1.Right.Handle.Outside.IsPulled";
const REAR_LEFT_HANDLE: &str = "Body.Doors.Row2.Left.Handle.Outside.IsPulled";
const REAR_RIGHT_HANDLE: &str = "Body.Doors.Row2.Right.Handle.Outside.IsPulled";

#[test]
fn driver_handle_pull_with_fob_in_zone_unlocks_driver() {
    let mut e = Entry::new();
    e.inject(FOB_1_ZONE, text("LeftFront"));
    e.rig.clear();
    e.inject(LEFT_HANDLE, on());
    assert_eq!(e.last_command(), Some(text("unlock_driver")));
}

#[test]
fn handle_pull_with_fob_in_approach_only_does_not_unlock() {
    let mut e = Entry::new();
    e.inject(FOB_1_ZONE, text("Approach"));
    e.rig.clear();
    e.inject(LEFT_HANDLE, on());
    assert_eq!(e.last_command(), None);
}

#[test]
fn handle_pull_with_no_devices_in_zone_does_not_unlock() {
    let mut e = Entry::new();
    e.inject(LEFT_HANDLE, on());
    assert_eq!(e.last_command(), None);
}

#[test]
fn second_driver_pull_after_stage_one_is_skipped() {
    let mut e = Entry::new();
    e.inject(FOB_1_ZONE, text("LeftFront"));
    e.rig.clear();
    e.inject(LEFT_HANDLE, on());
    assert_eq!(e.last_command(), Some(text("unlock_driver")));
    e.inject(LEFT_HANDLE, off());
    e.rig.clear();
    e.inject(LEFT_HANDLE, on());
    assert_eq!(e.last_command(), None);
}

#[test]
fn passenger_pull_after_stage_one_unlocks_all() {
    let mut e = Entry::new();
    e.inject(FOB_1_ZONE, text("LeftFront"));
    e.inject(LEFT_HANDLE, on());
    assert_eq!(e.last_command(), Some(text("unlock_driver")));
    e.inject(FOB_1_ZONE, text("RightFront"));
    e.rig.clear();
    e.inject(RIGHT_HANDLE, on());
    assert_eq!(e.last_command(), Some(text("unlock_all")));
}

#[test]
fn pull_while_cabin_unlocked_skips_auth() {
    let mut e = Entry::new();
    e.inject(FOB_1_ZONE, text("LeftFront"));
    e.inject("Cabin.LockStatus", text("UNLOCKED"));
    e.rig.clear();
    e.inject(LEFT_HANDLE, on());
    assert_eq!(e.last_command(), None);
    assert!(!e.challenged());
}

#[test]
fn passenger_handle_pull_unlocks_all_even_with_two_stage() {
    let mut e = Entry::new();
    e.inject(FOB_1_ZONE, text("RightFront"));
    e.rig.clear();
    e.inject(RIGHT_HANDLE, on());
    assert_eq!(e.last_command(), Some(text("unlock_all")));
}

#[test]
fn rear_handle_pull_does_not_trigger_passive_entry_by_default() {
    let mut e = Entry::new();
    e.inject(FOB_1_ZONE, text("RightFront"));
    e.rig.clear();
    for handle in [REAR_LEFT_HANDLE, REAR_RIGHT_HANDLE] {
        e.inject(handle, on());
    }
    assert_eq!(e.last_command(), None);
    assert!(!e.challenged());
}

#[test]
fn rear_handle_pull_unlocks_all_when_capacitive_enabled() {
    let vl = VehicleLineCal {
        peps_rear_capacitive_handles: true,
        ..Default::default()
    };
    let mut e = Entry::with_config(PlatformConfig::with_vehicle_line(vl));
    e.inject(FOB_1_ZONE, text("RightFront"));
    e.rig.clear();
    e.inject(REAR_RIGHT_HANDLE, on());
    assert_eq!(e.last_command(), Some(text("unlock_all")));
}

#[test]
fn rhd_driver_pull_first_press_is_unlock_driver() {
    let mut e = Entry::rhd();
    e.inject(FOB_1_ZONE, text("RightFront"));
    e.rig.clear();
    e.inject(RIGHT_HANDLE, on());
    assert_eq!(e.last_command(), Some(text("unlock_driver")));
}

#[test]
fn rhd_second_driver_pull_after_stage_one_is_skipped() {
    let mut e = Entry::rhd();
    e.inject(FOB_1_ZONE, text("RightFront"));
    e.inject(RIGHT_HANDLE, on());
    assert_eq!(e.last_command(), Some(text("unlock_driver")));
    e.inject(RIGHT_HANDLE, off());
    e.rig.clear();
    e.inject(RIGHT_HANDLE, on());
    assert_eq!(e.last_command(), None);
}

#[test]
fn rhd_passenger_pull_unlocks_all_even_with_two_stage() {
    let mut e = Entry::rhd();
    e.inject(FOB_1_ZONE, text("LeftFront"));
    e.rig.clear();
    e.inject(LEFT_HANDLE, on());
    assert_eq!(e.last_command(), Some(text("unlock_all")));
}

#[test]
fn unpaired_fob_in_zone_does_not_unlock() {
    let mut e = Entry::new();
    e.inject(FOB_5_ZONE, text("LeftFront"));
    e.rig.clear();
    e.inject(LEFT_HANDLE, on());
    assert_eq!(e.last_command(), None);
}

#[test]
fn phone_in_driver_zone_unlocks() {
    let mut e = Entry::new();
    e.inject(PHONE_1_ZONE, text("LeftFront"));
    e.rig.clear();
    e.inject(LEFT_HANDLE, on());
    assert_eq!(e.last_command(), Some(text("unlock_driver")));
}

#[test]
fn response_hex_parse_roundtrip() {
    let resp: [u8; 16] = [
        0x00, 0x11, 0x22, 0x33, 0x44, 0x55, 0x66, 0x77, 0x88, 0x99, 0xaa, 0xbb, 0xcc, 0xdd, 0xee,
        0xff,
    ];
    let hex: String = resp.iter().map(|b| format!("{b:02x}")).collect();
    let parsed = parse_response_hex(&SignalValue::String(hex)).unwrap();
    assert_eq!(parsed, resp);
}

#[test]
fn response_hex_invalid_returns_none() {
    assert!(parse_response_hex(&SignalValue::Bool(true)).is_none());
    assert!(parse_response_hex(&SignalValue::String("too short".into())).is_none());
    assert!(parse_response_hex(&SignalValue::String("z".repeat(32))).is_none());
}

#[test]
fn response_with_a_sign_is_no_response() {
    assert!(parse_response_hex(&SignalValue::String("+1".repeat(16))).is_none());
    let mut one_sign = "00".repeat(15);
    one_sign.push_str("+1");
    assert!(parse_response_hex(&SignalValue::String(one_sign)).is_none());
    let mut one_off = "00".repeat(15);
    one_off.push_str("0g");
    assert!(parse_response_hex(&SignalValue::String(one_off)).is_none());
    assert_eq!(
        parse_response_hex(&SignalValue::String("0A".repeat(16))),
        Some([10u8; 16])
    );
}

#[test]
fn nothing_opens_without_a_proof() {
    let config = PlatformConfig::defaults();
    let mut s = EntrySession::new(paired(2));
    s.on_zone(0, &text("LeftFront"));
    s.on_zone(4, &text("LeftFront"));
    s.on_handle(Door::Row1Left, &on(), &config);
    assert_eq!(s.candidates(), Some(&vec![0, 4]));
    let expected = vec![[1u8; 16], [2u8; 16]];
    s.on_challenged(expected, 100);
    assert_eq!(s.candidates(), None);
    assert_eq!(s.deadline(), Some(250));
    // The answer of one device does not prove another.
    let second = text(&hex_text(&[2u8; 16]));
    assert!(s.on_response(0, &second, 110, &config).is_empty());
    assert!(s.on_response(1, &text("no"), 110, &config).is_empty());
    // Other inputs wait.
    s.on_lock_status(&text("UNLOCKED"));
    assert_eq!(s.deadline(), Some(250));
    let outputs = s.on_response(1, &second, 249, &config);
    assert_eq!(outputs.len(), 1);
    assert!(matches!(&outputs[0], Output::Lock { order }
        if order.command == LockCommand::UnlockDriver));
    assert!(s.awaits_reply());
    assert_eq!(s.on_reply(true).len(), 1);
    assert!(!s.awaits_reply());
    assert!(s.on_reply(true).is_empty());
}

#[test]
fn late_and_abandoned_attempts_open_nothing() {
    let config = PlatformConfig::defaults();
    let right = text(&hex_text(&[7u8; 16]));
    let mut s = EntrySession::new(paired(2));
    s.on_zone(1, &text("Trunk"));
    s.on_trunk_button(&on());
    s.on_challenged(vec![[7u8; 16]], 0);
    s.on_tick(149);
    assert_eq!(s.deadline(), Some(150));
    assert!(s.on_response(0, &right, 150, &config).is_empty());
    assert_eq!(s.deadline(), None);
    // A second press, whose challenge cannot be made.
    s.on_trunk_button(&off());
    s.on_trunk_button(&on());
    s.give_up();
    assert!(s.on_response(0, &right, 200, &config).is_empty());
    // A third one that is answered in time.
    s.on_trunk_button(&off());
    s.on_trunk_button(&on());
    s.on_challenged(vec![[7u8; 16]], 300);
    assert_eq!(s.on_response(0, &right, 301, &config).len(), 3);
    assert!(!s.awaits_reply());
}

#[test]
fn rejected_unlock_is_silent() {
    let config = PlatformConfig::defaults();
    let mut s = EntrySession::new(paired(2));
    s.on_zone(0, &text("LeftFront"));
    s.on_handle(Door::Row1Left, &on(), &config);
    s.on_challenged(vec![[3u8; 16]], 0);
    let right = text(&hex_text(&[3u8; 16]));
    assert_eq!(s.on_response(0, &right, 10, &config).len(), 1);
    assert!(s.on_reply(false).is_empty());
}

#[test]
fn held_handle_counts_once() {
    let mut e = Entry::new();
    e.inject(LEFT_HANDLE, on());
    assert!(!e.challenged());
    // A device comes while the handle is held: nothing until it is pulled anew.
    e.inject(FOB_1_ZONE, text("LeftFront"));
    e.inject(LEFT_HANDLE, on());
    assert!(!e.challenged());
    e.inject(LEFT_HANDLE, off());
    e.inject(LEFT_HANDLE, on());
    assert_eq!(e.last_command(), Some(text("unlock_driver")));
}

#[test]
fn held_trunk_button_counts_once() {
    let mut e = Entry::new();
    e.inject(FOB_1_ZONE, text("Trunk"));
    e.inject(TRUNK_BUTTON, on());
    e.inject(TRUNK_BUTTON, on());
    assert_eq!(e.rig.count("Body.Trunk.OpenCmd", &on()), 1);
    e.inject(TRUNK_BUTTON, off());
    e.inject(TRUNK_BUTTON, on());
    assert_eq!(e.rig.count("Body.Trunk.OpenCmd", &on()), 2);
}

#[test]
fn rand_nonce_is_unique_across_calls() {
    let n1 = rand_nonce().unwrap();
    let n2 = rand_nonce().unwrap();
    let n3 = rand_nonce().unwrap();
    assert_ne!(n1, [0u8; 16]);
    assert_ne!(n1, n2);
    assert_ne!(n2, n3);
    assert_ne!(n1, n3);
}

#[test]
fn test_secrets_match_plant_default_format() {
    let s = default_secret(b'F', 1);
    assert_eq!(s[0], b'F');
    assert_eq!(s[1], 1);
    assert_eq!(s[2], 70u8.wrapping_mul(17).wrapping_add(33u8));
}

#[test]
fn locked_trunk_button_with_fob_in_trunk_zone_opens_trunk() {
    let mut e = Entry::new();
    e.inject("Cabin.LockStatus", text("LOCKED"));
    e.inject(FOB_1_ZONE, text("Trunk"));
    e.rig.clear();
    e.inject(TRUNK_BUTTON, on());
    assert!(e.trunk_open_was_pulsed());
    assert_eq!(e.rig.latest("Cabin.LockStatus"), None);
}

#[test]
fn locked_trunk_button_with_fob_at_driver_door_does_not_open_trunk() {
    let mut e = Entry::new();
    e.inject("Cabin.LockStatus", text("LOCKED"));
    e.inject(FOB_1_ZONE, text("LeftFront"));
    e.rig.clear();
    e.inject(TRUNK_BUTTON, on());
    assert!(!e.trunk_open_was_pulsed());
}

#[test]
fn locked_trunk_button_with_no_paired_fob_does_not_open_trunk() {
    let mut e = Entry::new();
    e.inject("Cabin.LockStatus", text("LOCKED"));
    e.rig.clear();
    e.inject(TRUNK_BUTTON, on());
    assert!(!e.trunk_open_was_pulsed());
}

#[test]
fn unlocked_trunk_button_press_is_ignored_by_passive_entry() {
    let mut e = Entry::new();
    e.inject("Cabin.LockStatus", text("UNLOCKED"));
    e.inject(FOB_1_ZONE, text("Trunk"));
    e.rig.clear();
    e.inject(TRUNK_BUTTON, on());
    assert!(!e.challenged());
    assert!(!e.trunk_open_was_pulsed());
}

#[test]
fn double_locked_trunk_button_with_fob_in_trunk_zone_opens_trunk() {
    let mut e = Entry::new();
    e.inject("Cabin.LockStatus", text("DOUBLE_LOCKED"));
    e.inject(FOB_1_ZONE, text("Trunk"));
    e.rig.clear();
    e.inject(TRUNK_BUTTON, on());
    assert!(e.trunk_open_was_pulsed());
}

#[test]
fn is_cabin_locked_classifier() {
    assert!(is_cabin_locked("LOCKED"));
    assert!(is_cabin_locked("DOUBLE_LOCKED"));
    assert!(!is_cabin_locked("UNLOCKED"));
    assert!(!is_cabin_locked("DRIVER_UNLOCKED"));
    assert!(!is_cabin_locked(""));
}

#[test]
fn wrong_or_late_response_does_not_verify() {
    let secret = default_secret(b'F', 1);
    let other = default_secret(b'F', 2);
    let right = text(&hex_text(&secret));
    assert!(response_verifies(&right, &secret, 0, response_deadline(0)));
    assert!(!response_verifies(&right, &other, 0, response_deadline(0)));
    assert_eq!(response_deadline(1_000), 1_150);
    assert!(response_verifies(&right, &secret, 1_149, 1_150));
    assert!(!response_verifies(&right, &secret, 1_150, 1_150));
}

#[test]
fn first_proof_in_time_decides() {
    let devices = paired(0);
    let expected = vec![devices[1].secret, devices[3].secret];
    let trial = Trial::new(vec![1, 3], expected, 1_000);
    assert_eq!(trial.deadline(), 1_150);
    let right = text(&hex_text(&devices[3].secret));
    assert_eq!(trial.on_response(0, &right, 1_010), Verdict::Waiting);
    assert_eq!(trial.on_response(0, &off(), 1_020), Verdict::Waiting);
    assert_eq!(trial.on_response(1, &right, 1_030), Verdict::Proven(3));
    assert_eq!(trial.on_response(1, &right, 1_150), Verdict::TimedOut);
    assert_eq!(trial.on_tick(1_149), Verdict::Waiting);
    assert_eq!(trial.on_tick(1_150), Verdict::TimedOut);
}

#[test]
fn challenge_carries_the_nonce_on_both_channels() {
    let mut nonce = [0u8; 16];
    nonce[0] = 0x0a;
    nonce[15] = 0xff;
    let mut rig = Rig::new();
    rig.perform(challenge(&nonce));
    let hex = text("0a0000000000000000000000000000ff");
    assert!(rig.has(PEPS_LF_CHALLENGE, &hex));
    assert!(rig.has(PEPS_BLE_CHALLENGE, &hex));
    assert_eq!(rig.history.len(), 2);
}

#[test]
fn second_pull_with_the_same_device_in_the_window_unlocks_all() {
    let config = PlatformConfig::defaults();
    let mut entry = PassiveEntry::new(paired(2));
    let fob_1 = entry.devices()[0].clone();
    let fob_2 = entry.devices()[1].clone();
    assert_eq!(
        entry.unlock_command(Door::Row1Left, &fob_1, 0, &config),
        LockCommand::UnlockDriver
    );
    let _ = entry.on_unlock_reply(LockCommand::UnlockDriver, &fob_1, 0, true);
    assert_eq!(
        entry.unlock_command(Door::Row1Left, &fob_1, 2_999, &config),
        LockCommand::UnlockAll
    );
    assert_eq!(
        entry.unlock_command(Door::Row1Left, &fob_1, 3_000, &config),
        LockCommand::UnlockDriver
    );
    assert_eq!(
        entry.unlock_command(Door::Row1Left, &fob_2, 1_000, &config),
        LockCommand::UnlockDriver
    );
}

#[test]
fn rejected_unlock_is_silent_and_keeps_stage_one() {
    let config = PlatformConfig::defaults();
    let mut entry = PassiveEntry::new(paired(0));
    let fob = entry.devices()[0].clone();
    assert!(entry
        .on_unlock_reply(LockCommand::UnlockDriver, &fob, 0, false)
        .is_empty());
    assert_eq!(
        entry.unlock_command(Door::Row1Left, &fob, 1, &config),
        LockCommand::UnlockDriver
    );
}

// ---- NFC entry ----------------------------------------------------------------

struct Nfc {
    rig: Rig,
    entry: NfcEntry,
}

impl Nfc {
    fn with_status(status: &str) -> Nfc {
        let mut entry = NfcEntry::new();
        entry.on_lock_status(&text(status));
        Nfc {
            rig: Rig::new(),
            entry,
        }
    }

    fn inject(&mut self, signal: &str, position: &str) {
        for i in 0..2 {
            if NFC_CARD_SIGNALS[i] == signal {
                self.tap(NfcKind::Card, i, position);
            }
            if BLE_PHONE_SIGNALS[i] == signal {
                self.tap(NfcKind::Phone, i, position);
            }
        }
    }

    fn tap(&mut self, kind: NfcKind, i: usize, position: &str) {
        let now = self.rig.now;
        match self.entry.on_tap(kind, i, &text(position), now) {
            Tap::Nothing => {}
            Tap::Unlock(order) => {
                self.rig.lock(order);
                self.rig.perform(on_lock_reply(true, UNLOCK_FEEDBACK));
                if let Some(status) = self.rig.latest("Cabin.LockStatus") {
                    self.entry.on_lock_status(&status);
                }
            }
            Tap::Start(outputs) => self.rig.perform(outputs),
        }
    }

    fn unlock_was_dispatched(&self) -> bool {
        self.rig
            .has("Body.Doors.CentralLock.Command", &text("unlock_all"))
            || self
                .rig
                .has("Body.Doors.CentralLock.Command", &text("unlock_driver"))
    }

    fn feedback_was_published(&self) -> bool {
        self.rig
            .has("Body.Doors.CentralLock.FeedbackRequest", &text("unlock"))
    }

    fn bypass_was_published(&self) -> bool {
        self.rig.has("Body.PEPS.NfcAuthBypass", &on())
    }

    fn start_press_was_fired(&self) -> bool {
        self.rig.has("Body.Switches.StartStop.IsPressed", &on())
    }
}

const CARD_1: &str = "Body.PEPS.Plant.NfcCard.1.Position";
const CARD_2: &str = "Body.PEPS.Plant.NfcCard.2.Position";
const PHONE_1_TAP: &str = "Body.PEPS.Plant.BlePhone.1.NfcTap";

#[test]
fn card_tap_at_driver_handle_unlocks() {
    let mut n = Nfc::with_status("LOCKED");
    n.inject(CARD_1, "DriverHandle");
    assert!(n.unlock_was_dispatched());
    assert!(n.feedback_was_published());
}

#[test]
fn card_tap_at_push_button_does_not_unlock() {
    let mut n = Nfc::with_status("LOCKED");
    n.inject(CARD_1, "PushButton");
    assert!(!n.unlock_was_dispatched());
}

#[test]
fn card_tap_at_push_button_pulses_start_press_and_bypass() {
    let mut n = Nfc::with_status("LOCKED");
    n.inject(CARD_1, "PushButton");
    assert!(n.bypass_was_published());
    assert!(n.start_press_was_fired());
    assert!(!n.unlock_was_dispatched());
}

#[test]
fn phone_nfc_tap_at_push_button_pulses_start_press_and_bypass() {
    let mut n = Nfc::with_status("LOCKED");
    n.inject(PHONE_1_TAP, "PushButton");
    assert!(n.bypass_was_published());
    assert!(n.start_press_was_fired());
    assert!(!n.unlock_was_dispatched());
}

#[test]
fn start_press_and_bypass_end() {
    let mut n = Nfc::with_status("LOCKED");
    n.rig.now = 1_000;
    n.inject(CARD_1, "PushButton");
    assert_eq!(n.entry.deadline(), Some(1_050));
    assert!(n.entry.on_tick(1_049).is_empty());
    let released = n.entry.on_tick(1_050);
    n.rig.perform(released);
    assert_eq!(n.rig.latest(START_STOP), Some(off()));
    assert_eq!(n.rig.latest(NFC_AUTH_BYPASS), Some(on()));
    assert_eq!(n.entry.deadline(), Some(4_000));
    let ended = n.entry.on_tick(4_000);
    n.rig.perform(ended);
    assert_eq!(n.rig.latest(NFC_AUTH_BYPASS), Some(off()));
    assert_eq!(n.entry.deadline(), None);
}

#[test]
fn card_redundant_position_does_not_re_unlock() {
    let mut n = Nfc::with_status("LOCKED");
    n.inject(CARD_1, "DriverHandle");
    n.rig.clear();
    n.inject(CARD_1, "DriverHandle");
    assert!(!n.unlock_was_dispatched());
}

#[test]
fn card_remove_then_re_tap_fires_again() {
    let mut n = Nfc::with_status("LOCKED");
    n.inject(CARD_1, "DriverHandle");
    n.inject(CARD_1, "NotPresent");
    n.entry.on_lock_status(&text("LOCKED"));
    n.rig.clear();
    n.inject(CARD_1, "DriverHandle");
    assert!(n.unlock_was_dispatched());
}

#[test]
fn card_tap_when_already_unlocked_is_noop() {
    let mut n = Nfc::with_status("UNLOCKED");
    n.inject(CARD_1, "DriverHandle");
    assert!(!n.unlock_was_dispatched());
}

#[test]
fn card_tap_when_driver_unlocked_still_escalates() {
    let mut n = Nfc::with_status("DRIVER_UNLOCKED");
    n.inject(CARD_1, "DriverHandle");
    assert!(n.unlock_was_dispatched());
}

#[test]
fn second_card_taps_independently() {
    let mut n = Nfc::with_status("LOCKED");
    n.inject(CARD_2, "DriverHandle");
    assert!(n.unlock_was_dispatched());
}

#[test]
fn phone_nfc_tap_at_driver_handle_unlocks() {
    let mut n = Nfc::with_status("LOCKED");
    n.inject(PHONE_1_TAP, "DriverHandle");
    assert!(n.unlock_was_dispatched());
}

#[test]
fn phone_nfc_tap_at_push_button_does_not_unlock() {
    let mut n = Nfc::with_status("LOCKED");
    n.inject(PHONE_1_TAP, "PushButton");
    assert!(!n.unlock_was_dispatched());
}

#[test]
fn phone_ble_zone_changes_do_not_trigger_nfc_unlock() {
    let mut n = Nfc::with_status("LOCKED");
    n.inject("Body.PEPS.Plant.BlePhone.1.Zone", "LeftFront");
    assert!(!n.unlock_was_dispatched());
    n.inject("Body.PEPS.Plant.BlePhone.1.Zone", "Cabin");
    assert!(!n.unlock_was_dispatched());
}

#[test]
fn phone_tap_when_already_unlocked_is_noop() {
    let mut n = Nfc::with_status("UNLOCKED");
    n.inject(PHONE_1_TAP, "DriverHandle");
    assert!(!n.unlock_was_dispatched());
}

#[test]
fn phone_redundant_nfc_tap_does_not_re_unlock() {
    let mut n = Nfc::with_status("LOCKED");
    n.inject(PHONE_1_TAP, "DriverHandle");
    n.rig.clear();
    n.inject(PHONE_1_TAP, "DriverHandle");
    assert!(!n.unlock_was_dispatched());
}

#[test]
fn each_arrival_at_the_handle_unlocks_once() {
    let mut e = NfcEntry::new();
    let mut unlocked = 0;
    let mut tap = |kind, i, at: &str| {
        if let Tap::Unlock(_) = e.on_tap(kind, i, &text(at), 0) {
            unlocked += 1;
        }
        unlocked
    };
    assert_eq!(tap(NfcKind::Card, 0, "DriverHandle"), 1);
    assert_eq!(tap(NfcKind::Card, 0, "DriverHandle"), 1);
    assert_eq!(tap(NfcKind::Phone, 0, "DriverHandle"), 2);
    assert_eq!(tap(NfcKind::Card, 0, "PushButton"), 2);
    assert_eq!(tap(NfcKind::Card, 0, "DriverHandle"), 3);
    assert_eq!(tap(NfcKind::Card, 0, "NotPresent"), 3);
    assert_eq!(tap(NfcKind::Card, 1, "NotPresent"), 3);
    assert_eq!(tap(NfcKind::Card, 0, "DriverHandle"), 4);
}

// ---- Key search ---------------------------------------------------------------

/// The key-search arbiter, whose antennas take the time that they need.
struct Keys {
    arbiter: KeySearchArbiter,
    now: u64,
}

impl Keys {
    fn new() -> Keys {
        Keys {
            arbiter: KeySearchArbiter::new(),
            now: 0,
        }
    }

    fn place(&mut self, slot: u8, zone: &str) {
        self.arbiter.on_placed(slot, &text(zone));
    }

    fn place_paired(&mut self, slot: u8, zone: &str) {
        self.place(slot, zone);
        self.arbiter.on_paired(slot, &on());
    }

    fn search(
        &mut self,
        antennas: AntennaSet,
        mode: SearchMode,
        coalescing: Coalescing,
    ) -> KeySearchResult {
        match self.arbiter.begin(&antennas, mode, coalescing, self.now) {
            SearchStep::Cached(result) => result,
            SearchStep::Fire {
                airtimes,
                keys_found,
            } => {
                let took: u64 = airtimes.iter().sum();
                self.now += took;
                self.arbiter
                    .finish(antennas, mode, keys_found, took, self.now)
                    .0
            }
        }
    }
}

#[test]
fn phones_are_always_paired() {
    assert_eq!(
        fob_paired_signal(0),
        Some("Vehicle.Simulation.KeyFob.1.Paired")
    );
    assert_eq!(fob_paired_signal(4), None);
    assert_eq!(fob_paired_signal(5), None);
    let mut k = Keys::new();
    for slot in 0..6 {
        k.arbiter.on_paired(slot, &off());
        k.place(slot, "LeftFront");
    }
    let r = k.search(
        AntennaSet::AllApproach,
        SearchMode::Authenticated,
        Coalescing::Disallowed,
    );
    let found: Vec<(u8, i8)> = r.keys_found.iter().map(|f| (f.slot, f.rssi)).collect();
    assert_eq!(found, vec![(4, -55), (5, -55)]);
}

#[test]
fn empty_when_no_fobs() {
    let mut k = Keys::new();
    let r = k.search(
        AntennaSet::AllApproach,
        SearchMode::Presence,
        Coalescing::Disallowed,
    );
    assert!(r.keys_found.is_empty());
}

#[test]
fn presence_finds_fob_in_approach() {
    let mut k = Keys::new();
    k.place(0, "Approach");
    let r = k.search(
        AntennaSet::AllApproach,
        SearchMode::Presence,
        Coalescing::Disallowed,
    );
    assert_eq!(r.keys_found.len(), 1);
    assert_eq!(r.keys_found[0].slot, 0);
    assert_eq!(r.keys_found[0].zone, Zone::Approach);
}

#[test]
fn cabin_search_only_returns_cabin_fobs() {
    let mut k = Keys::new();
    k.place(0, "Approach");
    k.place(1, "Cabin");
    k.place(2, "Trunk");
    let r = k.search(
        AntennaSet::Cabin,
        SearchMode::Authenticated,
        Coalescing::Disallowed,
    );
    assert_eq!(r.keys_found.len(), 1);
    assert_eq!(r.keys_found[0].slot, 1);
}

#[test]
fn single_handle_returns_only_that_door() {
    let mut k = Keys::new();
    k.place(0, "LeftFront");
    k.place(1, "RightFront");
    let r = k.search(
        AntennaSet::SingleHandle(DoorRef {
            row: 1,
            side: Side::Left,
        }),
        SearchMode::Authenticated,
        Coalescing::Disallowed,
    );
    assert_eq!(r.keys_found.len(), 1);
    assert_eq!(r.keys_found[0].slot, 0);
}

#[test]
fn trunk_inside_vs_outside() {
    let mut k = Keys::new();
    k.place(0, "TrunkInside");
    k.place(1, "Trunk");
    let inside = k.search(
        AntennaSet::TrunkInside,
        SearchMode::Authenticated,
        Coalescing::Disallowed,
    );
    let outside = k.search(
        AntennaSet::TrunkOutside,
        SearchMode::Authenticated,
        Coalescing::Disallowed,
    );
    assert_eq!(inside.keys_found.len(), 1);
    assert_eq!(inside.keys_found[0].slot, 0);
    assert_eq!(outside.keys_found.len(), 1);
    assert_eq!(outside.keys_found[0].slot, 1);
}

#[test]
fn sequence_runs_all_legs_and_combines() {
    let mut k = Keys::new();
    k.place(0, "TrunkInside");
    k.place(1, "Trunk");
    let r = k.search(
        AntennaSet::Sequence(vec![
            (AntennaSet::TrunkInside, SearchMode::Authenticated),
            (AntennaSet::TrunkOutside, SearchMode::Authenticated),
        ]),
        SearchMode::Authenticated,
        Coalescing::Disallowed,
    );
    assert_eq!(r.keys_found.len(), 2);
    let slots: Vec<u8> = r.keys_found.iter().map(|f| f.slot).collect();
    assert!(slots.contains(&0));
    assert!(slots.contains(&1));
}

#[test]
fn presence_latency_is_50ms_for_approach() {
    let mut k = Keys::new();
    let r = k.search(
        AntennaSet::AllApproach,
        SearchMode::Presence,
        Coalescing::Disallowed,
    );
    assert_eq!(r.took, 50);
    assert_eq!(latency(&AntennaSet::AllApproach, SearchMode::Presence), 50);
}

#[test]
fn authenticated_handle_latency_is_100ms() {
    let mut k = Keys::new();
    let r = k.search(
        AntennaSet::SingleHandle(DoorRef {
            row: 1,
            side: Side::Left,
        }),
        SearchMode::Authenticated,
        Coalescing::Disallowed,
    );
    assert_eq!(r.took, 100);
}

#[test]
fn coalescing_returns_cached_result_within_window() {
    let mut k = Keys::new();
    k.place(0, "Approach");
    let _ = k.search(
        AntennaSet::AllApproach,
        SearchMode::Presence,
        Coalescing::Allowed,
    );
    let start = k.now;
    let again = k.search(
        AntennaSet::AllApproach,
        SearchMode::Presence,
        Coalescing::Allowed,
    );
    assert_eq!(k.now, start);
    assert_eq!(again.keys_found.len(), 1);
    // Too old to be shared.
    k.now += 51;
    let before = k.now;
    let _ = k.search(
        AntennaSet::AllApproach,
        SearchMode::Presence,
        Coalescing::Allowed,
    );
    assert_eq!(k.now, before + 50);
}

#[test]
fn coalescing_disallowed_always_runs_fresh() {
    let mut k = Keys::new();
    k.place(0, "Approach");
    let _ = k.search(
        AntennaSet::AllApproach,
        SearchMode::Presence,
        Coalescing::Disallowed,
    );
    let start = k.now;
    let _ = k.search(
        AntennaSet::AllApproach,
        SearchMode::Presence,
        Coalescing::Disallowed,
    );
    assert_eq!(k.now - start, 50);
}

#[test]
fn requests_serialize() {
    let mut k = Keys::new();
    k.place(0, "Approach");
    for _ in 0..2 {
        let _ = k.search(
            AntennaSet::AllApproach,
            SearchMode::Presence,
            Coalescing::Disallowed,
        );
    }
    assert_eq!(k.now, 100);
}

#[test]
fn search_publishes_where_keys_were_seen() {
    let mut k = Keys::new();
    k.place(0, "Approach");
    let found = match k.arbiter.begin(
        &AntennaSet::AllApproach,
        SearchMode::Presence,
        Coalescing::Disallowed,
        0,
    ) {
        SearchStep::Fire { keys_found, .. } => keys_found,
        SearchStep::Cached(_) => panic!("nothing to share yet"),
    };
    let (_, outputs) = k.arbiter.finish(
        AntennaSet::AllApproach,
        SearchMode::Presence,
        found,
        50,
        50,
    );
    let mut rig = Rig::new();
    rig.perform(outputs);
    assert_eq!(
        rig.latest("Vehicle.Simulation.KeyFob.1.LastObservedZone"),
        Some(text("Approach"))
    );
}

// ---- Keypad lock --------------------------------------------------------------

struct Pads {
    rig: Rig,
    keys: Keys,
    pads: KeypadLock,
}

const TICK_FOR_LOCK: u64 = 900;

impl Pads {
    fn bare() -> Pads {
        Pads {
            rig: Rig::new(),
            keys: Keys::new(),
            pads: KeypadLock::new(),
        }
    }

    fn new() -> Pads {
        let mut p = Pads::bare();
        p.keys.place_paired(0, "Approach");
        p
    }

    fn left(&mut self, val: SignalValue) {
        let now = self.rig.now;
        self.pads.on_left_pad(&val, now);
    }

    fn right(&mut self, val: SignalValue) {
        let now = self.rig.now;
        self.pads.on_right_pad(&val, now);
    }

    fn sleep(&mut self, ms: u64) {
        self.rig.now += ms;
        if self.pads.on_tick(self.rig.now) {
            let (antennas, mode, coalescing) = KeypadLock::search();
            let result = self.keys.search(antennas, mode, coalescing);
            self.rig.perform(KeypadLock::on_search(Some(&result)));
        }
    }

    fn locked(&self) -> bool {
        self.rig
            .has("Body.Doors.CentralLock.Command", &text("lock_all"))
    }

    fn commanded(&self) -> bool {
        self.rig.mentions("Body.Doors.CentralLock.Command")
    }

    fn feedback(&self, kind: &str) -> bool {
        self.rig
            .has("Body.Doors.CentralLock.FeedbackRequest", &text(kind))
    }
}

#[test]
fn left_pad_held_500ms_locks() {
    let mut p = Pads::new();
    p.left(on());
    p.sleep(TICK_FOR_LOCK);
    assert!(p.locked());
}

#[test]
fn right_pad_held_500ms_locks() {
    let mut p = Pads::new();
    p.right(on());
    p.sleep(TICK_FOR_LOCK);
    assert!(p.locked());
}

#[test]
fn release_before_debounce_cancels_lock() {
    let mut p = Pads::new();
    p.left(on());
    p.sleep(200);
    p.left(off());
    p.sleep(600);
    assert!(!p.commanded());
}

#[test]
fn lock_feedback_published_with_lock() {
    let mut p = Pads::new();
    p.left(on());
    p.sleep(TICK_FOR_LOCK);
    assert!(p.feedback("lock"));
}

#[test]
fn does_not_refire_without_new_press() {
    let mut p = Pads::new();
    p.left(on());
    p.sleep(TICK_FOR_LOCK);
    let count = p
        .rig
        .count("Body.Doors.CentralLock.Command", &text("lock_all"));
    p.sleep(1_000);
    assert_eq!(
        p.rig
            .count("Body.Doors.CentralLock.Command", &text("lock_all")),
        count
    );
}

#[test]
fn no_device_anywhere_denies_lock() {
    let mut p = Pads::bare();
    p.left(on());
    p.sleep(TICK_FOR_LOCK);
    assert!(!p.commanded());
    assert!(p.feedback("lock_denied"));
}

#[test]
fn fob_in_cabin_only_denies_lock() {
    let mut p = Pads::bare();
    p.keys.place_paired(0, "Cabin");
    p.left(on());
    p.sleep(TICK_FOR_LOCK);
    assert!(!p.commanded());
}

#[test]
fn fob_split_cabin_and_approach_locks() {
    let mut p = Pads::bare();
    p.keys.place_paired(0, "Cabin");
    p.keys.place_paired(1, "Approach");
    p.left(on());
    p.sleep(TICK_FOR_LOCK);
    assert!(p.locked());
}

#[test]
fn phone_in_driver_door_zone_passes_gate() {
    let mut p = Pads::bare();
    // The phones come after the fobs.
    p.keys.place_paired(4, "LeftFront");
    p.right(on());
    p.sleep(TICK_FOR_LOCK);
    assert!(p.locked());
}

#[test]
fn stale_last_observed_zone_does_not_fool_gate() {
    let mut p = Pads::bare();
    p.keys.place_paired(0, "LeftFront");
    let _ = p.keys.search(
        AntennaSet::AllApproach,
        SearchMode::Presence,
        Coalescing::Disallowed,
    );
    p.keys.place_paired(0, "Cabin");
    p.left(on());
    p.sleep(TICK_FOR_LOCK);
    assert!(!p.commanded());
    assert!(p.feedback("lock_denied"));
}

#[test]
fn failed_search_denies_lock() {
    let mut rig = Rig::new();
    rig.perform(KeypadLock::on_search(None));
    assert!(rig.has(
        "Body.Doors.CentralLock.FeedbackRequest",
        &text("lock_denied")
    ));
    assert!(!rig.mentions("Body.Doors.CentralLock.Command"));
}

#[test]
fn zones_inside_and_out_of_reach_are_not_outside_the_cabin() {
    assert!(is_outside_cabin(Zone::Approach));
    assert!(is_outside_cabin(Zone::RightFront));
    assert!(!is_outside_cabin(Zone::Cabin));
    assert!(!is_outside_cabin(Zone::TrunkInside));
    assert!(!is_outside_cabin(Zone::OutOfRange));
}

// ---- Trunk buttons ------------------------------------------------------------

fn switch_trunk(rig: &mut Rig, val: SignalValue) {
    rig.perform(CabinTrunkRelease::new().on_switch(&val));
}

#[test]
fn press_pulses_trunk_open() {
    let mut rig = Rig::new();
    switch_trunk(&mut rig, on());
    assert!(rig.has("Body.Trunk.OpenCmd", &on()));
}

#[test]
fn cabin_trunk_release_falling_edge_is_ignored() {
    let mut rig = Rig::new();
    switch_trunk(&mut rig, off());
    assert!(!rig.has("Body.Trunk.OpenCmd", &on()));
}

#[test]
fn held_cabin_switch_counts_once() {
    let (mut rig, mut release) = (Rig::new(), CabinTrunkRelease::new());
    for val in [on(), on(), off(), on()] {
        rig.perform(release.on_switch(&val));
    }
    assert_eq!(rig.count("Body.Trunk.OpenCmd", &on()), 2);
    assert_eq!(rig.latest("Body.Trunk.OpenCmd"), Some(off()));
}

#[test]
fn valet_active_suppresses_open() {
    let mut rig = Rig::new();
    rig.set_gate(Domain::Trunk, "Cabin.ValetMode.IsActive", &on());
    rig.clear();
    switch_trunk(&mut rig, on());
    assert!(!rig.has("Body.Trunk.OpenCmd", &on()));
}

#[test]
fn press_does_not_fire_external_flash_feedback() {
    let mut rig = Rig::new();
    switch_trunk(&mut rig, on());
    assert!(!rig.has(
        "Body.Doors.CentralLock.FeedbackRequest",
        &text("trunk_unlock")
    ));
}

#[test]
fn no_lock_state_check() {
    // The lock state is no input of the release.
    let mut rig = Rig::new();
    switch_trunk(&mut rig, on());
    assert!(rig.has("Body.Trunk.OpenCmd", &on()));
}

struct Trunk {
    rig: Rig,
    keys: Keys,
    button: ExteriorTrunkButton,
}

impl Trunk {
    fn new() -> Trunk {
        Trunk {
            rig: Rig::new(),
            keys: Keys::new(),
            button: ExteriorTrunkButton::new(),
        }
    }

    fn with_status(status: &str) -> Trunk {
        let mut t = Trunk::new();
        t.button.on_lock_status(&text(status));
        t
    }

    fn valet(&mut self) {
        self.button.on_valet(&on());
        self.rig
            .set_gate(Domain::Trunk, "Cabin.ValetMode.IsActive", &on());
        self.rig.clear();
    }

    fn inject(&mut self, signal: &str, val: SignalValue) {
        assert_eq!(signal, BUTTON);
        match self.button.on_press(&val) {
            Press::Ignored => {}
            Press::Open(outputs) => self.rig.perform(outputs),
            Press::Search => {
                let (antennas, mode, coalescing) = ExteriorTrunkButton::search();
                let result = self.keys.search(antennas, mode, coalescing);
                self.rig
                    .perform(ExteriorTrunkButton::on_search(Some(&result)));
            }
        }
    }

    fn was_pulsed(&self) -> bool {
        self.rig.has("Body.Trunk.OpenCmd", &on())
    }
}

#[test]
fn unlocked_press_opens_trunk_directly() {
    let mut t = Trunk::with_status("UNLOCKED");
    t.inject(BUTTON, on());
    assert!(t.was_pulsed());
    assert!(!t.rig.mentions("Cabin.LockStatus"));
}

#[test]
fn driver_unlocked_press_opens_trunk_directly() {
    let mut t = Trunk::with_status("DRIVER_UNLOCKED");
    t.inject(BUTTON, on());
    assert!(t.was_pulsed());
}

#[test]
fn valet_active_unlocked_press_does_not_open_trunk() {
    let mut t = Trunk::with_status("UNLOCKED");
    t.valet();
    t.inject(BUTTON, on());
    assert!(!t.was_pulsed());
}

#[test]
fn exterior_trunk_button_falling_edge_is_ignored() {
    let mut t = Trunk::with_status("UNLOCKED");
    t.inject(BUTTON, off());
    assert!(!t.was_pulsed());
}

#[test]
fn locked_press_with_fob_at_trunk_authenticates_and_opens() {
    let mut t = Trunk::with_status("LOCKED");
    t.keys.place(0, "Trunk");
    t.inject(BUTTON, on());
    assert!(t.was_pulsed());
    assert!(!t.rig.mentions("Cabin.LockStatus"));
}

#[test]
fn locked_press_without_key_does_not_open_trunk() {
    let mut t = Trunk::with_status("LOCKED");
    t.inject(BUTTON, on());
    assert!(!t.was_pulsed());
}

#[test]
fn locked_press_with_fob_at_driver_door_does_not_open_trunk() {
    let mut t = Trunk::with_status("LOCKED");
    t.keys.place(0, "LeftFront");
    t.inject(BUTTON, on());
    assert!(!t.was_pulsed());
}

#[test]
fn double_locked_press_with_fob_at_trunk_authenticates_and_opens() {
    let mut t = Trunk::with_status("DOUBLE_LOCKED");
    t.keys.place(0, "Trunk");
    t.inject(BUTTON, on());
    assert!(t.was_pulsed());
}

#[test]
fn locked_press_with_unpaired_fob_does_not_open_trunk() {
    let mut t = Trunk::with_status("LOCKED");
    t.keys.arbiter.on_paired(0, &off());
    t.keys.place(0, "Trunk");
    t.inject(BUTTON, on());
    assert!(!t.was_pulsed());
}

#[test]
fn valet_active_locked_press_is_silently_denied() {
    let mut t = Trunk::with_status("LOCKED");
    t.valet();
    t.keys.place(0, "Trunk");
    t.inject(BUTTON, on());
    assert!(!t.was_pulsed());
}

#[test]
fn missing_lock_status_at_boot_uses_auth_path() {
    let mut t = Trunk::new();
    t.inject(BUTTON, on());
    assert!(!t.was_pulsed());
    assert!(matches!(ExteriorTrunkButton::new().on_press(&on()), Press::Search));
}

#[test]
fn held_exterior_button_counts_once() {
    let mut t = Trunk::with_status("UNLOCKED");
    t.inject(BUTTON, on());
    t.inject(BUTTON, on());
    assert_eq!(t.rig.count("Body.Trunk.OpenCmd", &on()), 1);
    t.inject(BUTTON, off());
    t.inject(BUTTON, on());
    assert_eq!(t.rig.count("Body.Trunk.OpenCmd", &on()), 2);
}

// ---- Lost key -----------------------------------------------------------------

struct Lost {
    rig: Rig,
    keys: Keys,
    scan: LostPkScan,
}

impl Lost {
    fn new() -> Lost {
        let scan = LostPkScan::new();
        let mut rig = Rig::new();
        rig.perform(scan.boot());
        Lost {
            rig,
            keys: Keys::new(),
            scan,
        }
    }

    fn open(&mut self, i: usize, open: bool) {
        if self.scan.on_door(i, &SignalValue::Bool(open)) {
            let (antennas, mode, coalescing) = LostPkScan::search();
            let result = self.keys.search(antennas, mode, coalescing);
            let outputs = self.scan.on_search(Some(&result));
            self.rig.perform(outputs);
        }
    }

    fn ignition(&mut self, state: &str) {
        let outputs = self.scan.on_ignition(&text(state));
        self.rig.perform(outputs);
    }

    fn warning(&self) -> Option<SignalValue> {
        self.rig.latest(LOST_KEY_WARNING)
    }
}

#[test]
fn boots_with_warning_false() {
    let l = Lost::new();
    assert_eq!(l.warning(), Some(off()));
}

#[test]
fn ignition_off_door_close_does_not_scan_or_warn() {
    let mut l = Lost::new();
    l.open(0, true);
    l.open(0, false);
    assert_eq!(l.warning(), Some(off()));
    assert_eq!(l.keys.now, 0);
}

#[test]
fn ignition_live_door_close_with_no_key_raises_warning() {
    let mut l = Lost::new();
    l.ignition("ON");
    l.open(0, true);
    l.open(0, false);
    assert_eq!(l.warning(), Some(on()));
}

#[test]
fn ignition_live_door_close_with_cabin_key_no_warning() {
    let mut l = Lost::new();
    l.keys.place(0, "Cabin");
    l.ignition("ON");
    l.open(0, true);
    l.open(0, false);
    assert_eq!(l.warning(), Some(off()));
}

#[test]
fn warning_clears_when_key_reappears_on_next_cycle() {
    let mut l = Lost::new();
    l.ignition("ON");
    l.open(0, true);
    l.open(0, false);
    assert_eq!(l.warning(), Some(on()));
    l.keys.place(0, "Cabin");
    l.open(0, true);
    l.open(0, false);
    assert_eq!(l.warning(), Some(off()));
}

#[test]
fn warning_clears_on_ignition_off() {
    let mut l = Lost::new();
    l.ignition("ON");
    l.open(0, true);
    l.open(0, false);
    assert_eq!(l.warning(), Some(on()));
    l.ignition("OFF");
    assert_eq!(l.warning(), Some(off()));
}

#[test]
fn partial_close_while_ignition_live_does_not_scan() {
    let mut l = Lost::new();
    l.ignition("ON");
    l.keys.place(0, "Cabin");
    l.open(0, true);
    l.open(1, true);
    l.open(0, false);
    assert_eq!(l.warning(), Some(off()));
    assert_eq!(l.keys.now, 0);
}

struct Warned {
    rig: Rig,
    warning: KeyLostWarning,
}

impl Warned {
    /// Parked, doors open, no key, ignition off.
    fn new() -> Warned {
        let mut w = Warned {
            rig: Rig::new(),
            warning: KeyLostWarning::new(),
        };
        w.power("OFF");
        w.keys(0);
        w.trunk(off());
        for i in 0..4 {
            w.door(i, on());
        }
        w
    }

    fn power(&mut self, state: &str) {
        let outputs = self.warning.on_power(&text(state), self.rig.now);
        self.rig.perform(outputs);
    }

    fn keys(&mut self, n: u8) {
        let outputs = self.warning.on_keys(&SignalValue::Uint8(n), self.rig.now);
        self.rig.perform(outputs);
    }

    fn trunk(&mut self, val: SignalValue) {
        let outputs = self.warning.on_trunk(&val, self.rig.now);
        self.rig.perform(outputs);
    }

    fn door(&mut self, i: usize, val: SignalValue) {
        let outputs = self.warning.on_door(i, &val, self.rig.now);
        self.rig.perform(outputs);
    }

    fn close_up(&mut self) {
        for i in 0..4 {
            self.door(i, off());
        }
    }

    fn settle(&mut self, ms: u64) {
        self.rig.now += ms;
        let outputs = self.warning.on_tick(self.rig.now);
        self.rig.perform(outputs);
    }

    fn flag(&self) -> Option<SignalValue> {
        self.rig.latest(KEY_LOST_WARNING_OUT)
    }

    fn chime(&self) -> Option<SignalValue> {
        self.rig.latest(CHIME)
    }
}

#[test]
fn close_up_with_no_key_and_ignition_on_fires() {
    let mut w = Warned::new();
    w.power("ON");
    w.settle(1);
    for i in 0..3 {
        w.door(i, off());
    }
    w.settle(1);
    assert_eq!(w.flag(), None);
    w.door(3, off());
    w.settle(1);
    assert_eq!(w.flag(), Some(on()));
    assert_eq!(w.chime(), Some(on()));
    w.settle(WARNING_DURATION_MS + 50);
    assert_eq!(w.flag(), Some(off()));
    assert_eq!(w.chime(), Some(off()));
}

#[test]
fn close_up_with_ignition_off_does_not_fire() {
    let mut w = Warned::new();
    w.close_up();
    w.settle(1);
    assert!(!w.rig.mentions(KEY_LOST_WARNING_OUT));
}

#[test]
fn trunk_open_inhibits_trigger() {
    let mut w = Warned::new();
    w.power("ON");
    w.trunk(on());
    w.close_up();
    w.settle(1);
    assert!(!w.rig.mentions(KEY_LOST_WARNING_OUT));
    w.trunk(off());
    w.settle(1);
    assert_eq!(w.flag(), Some(on()));
}

#[test]
fn key_present_inhibits_trigger() {
    let mut w = Warned::new();
    w.power("ON");
    w.keys(1);
    w.close_up();
    w.settle(1);
    assert!(!w.rig.mentions(KEY_LOST_WARNING_OUT));
}

#[test]
fn recovery_before_timeout_clears_early() {
    let mut w = Warned::new();
    w.power("ON");
    w.close_up();
    w.settle(500);
    assert_eq!(w.flag(), Some(on()));
    w.keys(1);
    w.settle(1);
    assert_eq!(w.flag(), Some(off()));
    assert_eq!(w.chime(), Some(off()));
}

#[test]
fn door_opens_mid_warning_clears() {
    let mut w = Warned::new();
    w.power("ON");
    w.close_up();
    w.settle(500);
    assert_eq!(w.flag(), Some(on()));
    w.door(0, on());
    w.settle(1);
    assert_eq!(w.flag(), Some(off()));
}

#[test]
fn ignition_off_mid_warning_clears() {
    let mut w = Warned::new();
    w.power("ON");
    w.close_up();
    w.settle(500);
    assert_eq!(w.flag(), Some(on()));
    w.power("OFF");
    w.settle(1);
    assert_eq!(w.flag(), Some(off()));
}

#[test]
fn no_re_fire_while_latched() {
    let mut w = Warned::new();
    w.power("ON");
    w.close_up();
    w.settle(1);
    w.settle(WARNING_DURATION_MS + 50);
    w.rig.clear();
    w.keys(0);
    w.settle(1);
    assert_eq!(w.rig.count(KEY_LOST_WARNING_OUT, &on()), 0);
    w.door(0, on());
    w.settle(1);
    w.door(0, off());
    w.settle(1);
    assert_eq!(w.flag(), Some(on()));
}

// ---- Door trim buttons --------------------------------------------------------

struct Trim {
    rig: Rig,
    buttons: DoorTrimButton,
    config: PlatformConfig,
}

const LEFT_LOCK: &str = "Body.Switches.DoorTrim.Row1.Left.LockButton";
const RIGHT_LOCK: &str = "Body.Switches.DoorTrim.Row1.Right.LockButton";
const LEFT_UNLOCK: &str = "Body.Switches.DoorTrim.Row1.Left.UnlockButton";
const RIGHT_UNLOCK: &str = "Body.Switches.DoorTrim.Row1.Right.UnlockButton";

impl Trim {
    fn with_cals(vl: VehicleLineCal, two_stage: bool, side: DriverDoorSide) -> Trim {
        let mut config = PlatformConfig::with_vehicle_line(vl);
        let mut dealer = config.dealer_config();
        dealer.two_stage_unlock = two_stage;
        dealer.driver_door_side = side;
        config.update_dealer_config(dealer);
        Trim {
            rig: Rig::new(),
            buttons: DoorTrimButton::new(),
            config,
        }
    }

    fn slam_lock(protect: bool) -> Trim {
        let vl = VehicleLineCal {
            slam_lock_protect: protect,
            ..VehicleLineCal::default()
        };
        Trim::with_cals(vl, true, DriverDoorSide::Left)
    }

    fn new() -> Trim {
        Trim::with_cals(VehicleLineCal::default(), true, DriverDoorSide::Left)
    }

    fn inject(&mut self, signal: &str, val: SignalValue) {
        let (order, kind) = if LOCK_BUTTONS.contains(&signal) {
            let side = if signal == LOCK_BUTTONS[0] {
                SideLabel::Left
            } else {
                SideLabel::Right
            };
            let order = self.buttons.on_lock_button(side, &val, &self.config);
            (order, LOCK_FEEDBACK)
        } else if signal == LEFT_UNLOCK_BUTTON {
            let order = self
                .buttons
                .on_unlock_button(SideLabel::Left, &val, &self.config);
            (order, UNLOCK_FEEDBACK)
        } else {
            assert_eq!(signal, RIGHT_UNLOCK_BUTTON);
            let order = self
                .buttons
                .on_unlock_button(SideLabel::Right, &val, &self.config);
            (order, UNLOCK_FEEDBACK)
        };
        if let Some(order) = order {
            self.rig.lock(order);
            self.rig.perform(on_lock_reply(true, kind));
        }
    }

    fn commanded(&self, command: &str) -> bool {
        self.rig
            .has("Body.Doors.CentralLock.Command", &text(command))
    }

    fn requestor(&self) -> Option<SignalValue> {
        self.rig.latest("Cabin.LockStatus.LastRequestor")
    }
}

#[test]
fn driver_trim_lock_button_locks_all() {
    let mut t = Trim::new();
    t.inject(LEFT_LOCK, on());
    assert!(t.commanded("lock_all"));
    assert!(t
        .rig
        .has("Body.Doors.CentralLock.FeedbackRequest", &text("lock")));
}

#[test]
fn passenger_trim_lock_button_locks_all() {
    let mut t = Trim::new();
    t.inject(RIGHT_LOCK, on());
    assert!(t.commanded("lock_all"));
}

#[test]
fn lhd_driver_trim_unlock_two_stage_on_dispatches_unlock_driver() {
    let mut t = Trim::new();
    t.inject(LEFT_UNLOCK, on());
    assert!(t.commanded("unlock_driver"));
    assert!(t
        .rig
        .has("Body.Doors.CentralLock.FeedbackRequest", &text("unlock")));
}

#[test]
fn lhd_driver_trim_unlock_two_stage_off_dispatches_unlock_all() {
    let mut t = Trim::with_cals(VehicleLineCal::default(), false, DriverDoorSide::Left);
    t.inject(LEFT_UNLOCK, on());
    assert!(t.commanded("unlock_all"));
}

#[test]
fn lhd_passenger_trim_unlock_always_unlock_all() {
    for two_stage in [true, false] {
        let mut t = Trim::with_cals(VehicleLineCal::default(), two_stage, DriverDoorSide::Left);
        t.inject(RIGHT_UNLOCK, on());
        assert!(t.commanded("unlock_all"));
    }
}

#[test]
fn rhd_driver_trim_unlock_two_stage_on_dispatches_unlock_driver() {
    let mut t = Trim::with_cals(VehicleLineCal::default(), true, DriverDoorSide::Right);
    t.inject(RIGHT_UNLOCK, on());
    assert!(t.commanded("unlock_driver"));
}

#[test]
fn rhd_passenger_trim_unlock_always_unlock_all() {
    let mut t = Trim::with_cals(VehicleLineCal::default(), true, DriverDoorSide::Right);
    t.inject(LEFT_UNLOCK, on());
    assert!(t.commanded("unlock_all"));
}

#[test]
fn driver_trim_unlock_in_driver_unlocked_state_escalates_to_unlock_all() {
    let mut t = Trim::new();
    t.buttons.on_lock_status(&text("DRIVER_UNLOCKED"));
    t.inject(LEFT_UNLOCK, on());
    assert!(t.commanded("unlock_all"));
}

#[test]
fn driver_trim_unlock_first_press_still_stage_one_in_locked_state() {
    let mut t = Trim::new();
    t.buttons.on_lock_status(&text("LOCKED"));
    t.inject(LEFT_UNLOCK, on());
    assert!(t.commanded("unlock_driver"));
}

#[test]
fn passenger_trim_unlock_in_driver_unlocked_state_still_unlock_all() {
    let mut t = Trim::new();
    t.buttons.on_lock_status(&text("DRIVER_UNLOCKED"));
    t.inject(RIGHT_UNLOCK, on());
    assert!(t.commanded("unlock_all"));
}

#[test]
fn trim_presses_suppressed_under_double_lock() {
    for driver_side in [DriverDoorSide::Left, DriverDoorSide::Right] {
        for signal in [LEFT_LOCK, RIGHT_LOCK, LEFT_UNLOCK, RIGHT_UNLOCK] {
            let mut t = Trim::with_cals(VehicleLineCal::default(), true, driver_side);
            t.buttons.on_lock_status(&text("DOUBLE_LOCKED"));
            t.inject(signal, on());
            assert!(!t.rig.mentions("Body.Doors.CentralLock.Command"));
            assert!(!t.rig.mentions("Body.Doors.CentralLock.FeedbackRequest"));
        }
    }
}

#[test]
fn release_edge_is_a_noop() {
    let mut t = Trim::new();
    t.inject(LEFT_LOCK, off());
    assert!(!t.rig.mentions("Body.Doors.CentralLock.Command"));
}

#[test]
fn held_trim_button_counts_once() {
    let feedback = "Body.Doors.CentralLock.FeedbackRequest";
    let mut t = Trim::new();
    t.inject(LEFT_LOCK, on());
    t.inject(LEFT_LOCK, on());
    assert_eq!(t.rig.count(feedback, &text("lock")), 1);
    // The other side is a button of its own.
    t.inject(RIGHT_LOCK, on());
    assert_eq!(t.rig.count(feedback, &text("lock")), 2);
    t.inject(LEFT_LOCK, off());
    t.inject(LEFT_LOCK, on());
    assert_eq!(t.rig.count(feedback, &text("lock")), 3);
    t.inject(LEFT_UNLOCK, on());
    t.inject(LEFT_UNLOCK, on());
    assert_eq!(t.rig.count(feedback, &text("unlock")), 1);
}

#[test]
fn last_requestor_is_door_trim_button() {
    let mut t = Trim::new();
    t.inject(LEFT_LOCK, on());
    assert_eq!(t.requestor(), Some(text("DoorTrimButton")));
}

#[test]
fn slam_lock_off_open_door_dispatches_as_slam_lock() {
    let mut t = Trim::slam_lock(false);
    t.buttons.on_door(0, &on());
    t.inject(LEFT_LOCK, on());
    assert_eq!(t.requestor(), Some(text("SlamLock")));
    assert_eq!(t.rig.latest("Cabin.LockStatus"), Some(text("LOCKED")));
}

#[test]
fn slam_lock_on_open_door_dispatches_as_door_trim_button() {
    let mut t = Trim::slam_lock(true);
    t.buttons.on_door(0, &on());
    t.inject(LEFT_LOCK, on());
    assert_eq!(t.requestor(), Some(text("DoorTrimButton")));
}

#[test]
fn closed_doors_always_dispatch_as_door_trim_button() {
    for protect in [false, true] {
        let mut t = Trim::slam_lock(protect);
        t.inject(LEFT_LOCK, on());
        assert_eq!(t.requestor(), Some(text("DoorTrimButton")));
    }
}

#[test]
fn rejected_lock_request_gives_no_feedback() {
    assert!(on_lock_reply(false, LOCK_FEEDBACK).is_empty());
}

#[test]
fn hex_pairs_read_back() {
    let mut bytes = [0u8; 16];
    bytes[0] = 0x5c;
    let hex = hex_text(&bytes);
    let mut chars = hex.chars();
    let hi = chars.next().unwrap();
    let lo = chars.next().unwrap();
    assert_eq!((hi, lo), ('5', 'c'));
    assert_eq!(read_pair(hi, lo), Some(0x5c));
    assert_eq!(read_pair('g', '0'), None);
}
