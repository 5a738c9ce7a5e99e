//! Four tiers of configuration: constants of the platform, calibrations of the
//! vehicle line, calibrations of the variant, and parameters that a dealer can
//! change at run time.

use vstd::prelude::*;

use crate::clock;
use crate::signal_bus::same_text;

verus! {

/// Wire format magic number of the inter-processor protocol.
pub const IPC_MAGIC: u32 = 0xBCC0_1A00;

/// Schema version of the inter-processor protocol.
pub const IPC_VERSION: u8 = 1;

/// Maximum number of doors on the platform.
pub const MAX_DOORS: usize = 4;

/// Crash lockout of the door-lock arbiter, in milliseconds. After a crash unlock
/// no request is accepted for this long.
pub const CRASH_LOCKOUT_MS: u64 = 10_000;

/// Worst-case actuation time of the lock motor, in milliseconds. A guard only:
/// the acknowledgement is the real completion signal.
pub const LOCK_MOTOR_TIMEOUT_MS: u64 = 2_000;

/// Priority levels of the actuator arbiters.
pub const PRIORITY_LOW: u8 = 1;

pub const PRIORITY_MEDIUM: u8 = 2;

pub const PRIORITY_HIGH: u8 = 3;

/// Calibration parameters common to an entire vehicle line.
#[derive(Debug, Clone, Copy, PartialEq, Eq)]
pub struct VehicleLineCal {
    /// Time from an unlock to the automatic relock, in seconds.
    pub auto_relock_timeout_secs: u64,
    /// How long the LF antennas are driven after a capacitive touch, in milliseconds.
    pub peps_lf_window_ms: u64,
    /// How long the welcome lights stay on, in seconds.
    pub welcome_light_duration_secs: u64,
    /// Brightness of the daytime running lights, in percent.
    pub drl_brightness_pct: u8,
    /// Number of indicator flashes on a lock confirmation.
    pub lock_feedback_blink_count: u8,
    /// Period of one such flash, on and off together, in milliseconds.
    pub lock_feedback_blink_period_ms: u64,
    /// How long the application processor stays alive for pending work, in seconds.
    pub shutdown_grace_secs: u64,
    /// Ambient light below which the surroundings count as dark, in lux.
    pub auto_headlamp_lux_threshold: u16,
    /// A lock press on the door trim with a door open is undone.
    pub slam_lock_protect: bool,
    /// The rear outside handles have capacitive sensors.
    pub peps_rear_capacitive_handles: bool,
}

impl VehicleLineCal {
    /// The default calibrations.
    pub open spec fn standard() -> VehicleLineCal {
        VehicleLineCal {
            auto_relock_timeout_secs: 45,
            peps_lf_window_ms: 3000,
            welcome_light_duration_secs: 30,
            drl_brightness_pct: 100,
            lock_feedback_blink_count: 3,
            lock_feedback_blink_period_ms: 400,
            shutdown_grace_secs: 30,
            auto_headlamp_lux_threshold: 200,
            slam_lock_protect: true,
            peps_rear_capacitive_handles: false,
        }
    }
}

impl Default for VehicleLineCal {
    fn default() -> (r: VehicleLineCal)
        ensures
            r == VehicleLineCal::standard(),
    {
        VehicleLineCal {
            auto_relock_timeout_secs: 45,
            peps_lf_window_ms: 3000,
            welcome_light_duration_secs: 30,
            drl_brightness_pct: 100,
            lock_feedback_blink_count: 3,
            lock_feedback_blink_period_ms: 400,
            shutdown_grace_secs: 30,
            auto_headlamp_lux_threshold: 200,
            slam_lock_protect: true,
            peps_rear_capacitive_handles: false,
        }
    }
}

/// Welcome light pattern.
#[derive(Debug, Clone, Copy, PartialEq, Eq, Structural)]
pub enum WelcomeLightPattern {
    /// Simple on/off.
    Simple,
    /// Sequential sweep.
    Sequential,
    /// No welcome lights.
    Disabled,
}

impl Default for WelcomeLightPattern {
    fn default() -> (r: WelcomeLightPattern)
        ensures
            r == WelcomeLightPattern::Simple,
    {
        WelcomeLightPattern::Simple
    }
}

/// Which doors a variant has, and whether they can be taken off. A removed door
/// is neither open nor closed: it is absent.
#[derive(Debug, Clone, Copy, PartialEq, Eq)]
pub struct DoorConfig {
    pub row1_left: bool,
    pub row1_right: bool,
    pub row2_left: bool,
    pub row2_right: bool,
    /// The doors are removable.
    pub removable: bool,
}

impl DoorConfig {
    /// The default doors: four, none removable.
    pub open spec fn standard() -> DoorConfig {
        DoorConfig {
            row1_left: true,
            row1_right: true,
            row2_left: true,
            row2_right: true,
            removable: false,
        }
    }
}

impl Default for DoorConfig {
    fn default() -> (r: DoorConfig)
        ensures
            r == DoorConfig::standard(),
    {
        DoorConfig {
            row1_left: true,
            row1_right: true,
            row2_left: true,
            row2_right: true,
            removable: false,
        }
    }
}

/// The characters of each of a list of strings.
pub open spec fn texts(list: Seq<&'static str>) -> Seq<Seq<char>> {
    list.map_values(|s: &'static str| s@)
}

/// A list of one item if it is there, else an empty list.
pub open spec fn if_present(there: bool, item: Seq<char>) -> Seq<Seq<char>> {
    if there {
        seq![item]
    } else {
        Seq::empty()
    }
}

/// The path of a signal of the door with the name `door`.
pub open spec fn door_path(door: Seq<char>, leaf: Seq<char>) -> Seq<char> {
    "Body.Doors."@ + door + leaf
}

impl DoorConfig {
    /// The names of the doors that are present, front to rear and left to right.
    pub open spec fn present(self) -> Seq<Seq<char>> {
        if_present(self.row1_left, "Row1.Left"@) + if_present(self.row1_right, "Row1.Right"@)
            + if_present(self.row2_left, "Row2.Left"@) + if_present(self.row2_right, "Row2.Right"@)
    }

    /// The paths of one signal of each door that is present.
    pub open spec fn paths(self, leaf: Seq<char>) -> Seq<Seq<char>> {
        self.present().map_values(|d: Seq<char>| door_path(d, leaf))
    }

    /// Two-door configuration (coupe).
    pub fn two_door() -> (r: DoorConfig)
        ensures
            r == (DoorConfig {
                row1_left: true,
                row1_right: true,
                row2_left: false,
                row2_right: false,
                removable: false,
            }),
    {
        DoorConfig {
            row1_left: true,
            row1_right: true,
            row2_left: false,
            row2_right: false,
            removable: false,
        }
    }

    /// Four removable doors.
    pub fn four_door_removable() -> (r: DoorConfig)
        ensures
            r == (DoorConfig {
                row1_left: true,
                row1_right: true,
                row2_left: true,
                row2_right: true,
                removable: true,
            }),
    {
        DoorConfig {
            row1_left: true,
            row1_right: true,
            row2_left: true,
            row2_right: true,
            removable: true,
        }
    }

    fn pick(
        &self,
        row1_left: &'static str,
        row1_right: &'static str,
        row2_left: &'static str,
        row2_right: &'static str,
    ) -> (r: Vec<&'static str>)
        ensures
            texts(r@) == if_present(self.row1_left, row1_left@) + if_present(
                self.row1_right,
                row1_right@,
            ) + if_present(self.row2_left, row2_left@) + if_present(self.row2_right, row2_right@),
    {
        let mut doors: Vec<&'static str> = Vec::with_capacity(MAX_DOORS);
        if self.row1_left {
            doors.push(row1_left);
        }
        assert(texts(doors@) =~= if_present(self.row1_left, row1_left@));
        if self.row1_right {
            doors.push(row1_right);
        }
        assert(texts(doors@) =~= if_present(self.row1_left, row1_left@) + if_present(
            self.row1_right,
            row1_right@,
        ));
        if self.row2_left {
            doors.push(row2_left);
        }
        assert(texts(doors@) =~= if_present(self.row1_left, row1_left@) + if_present(
            self.row1_right,
            row1_right@,
        ) + if_present(self.row2_left, row2_left@));
        if self.row2_right {
            doors.push(row2_right);
        }
        doors
    }

    proof fn lemma_paths(self, leaf: Seq<char>)
        ensures
            self.paths(leaf) == if_present(self.row1_left, door_path("Row1.Left"@, leaf))
                + if_present(self.row1_right, door_path("Row1.Right"@, leaf)) + if_present(
                self.row2_left,
                door_path("Row2.Left"@, leaf),
            ) + if_present(self.row2_right, door_path("Row2.Right"@, leaf)),
    {
        assert(self.paths(leaf) =~= if_present(self.row1_left, door_path("Row1.Left"@, leaf))
            + if_present(self.row1_right, door_path("Row1.Right"@, leaf)) + if_present(
            self.row2_left,
            door_path("Row2.Left"@, leaf),
        ) + if_present(self.row2_right, door_path("Row2.Right"@, leaf)));
    }

    /// The names of the doors that are present in this variant.
    pub fn present_doors(&self) -> (r: Vec<&'static str>)
        ensures
            texts(r@) == self.present(),
    {
        self.pick("Row1.Left", "Row1.Right", "Row2.Left", "Row2.Right")
    }

    /// Full paths of the lock state signals of the doors that are present.
    pub fn lock_signals(&self) -> (r: Vec<&'static str>)
        ensures
            texts(r@) == self.paths(".IsLocked"@),
    {
        proof {
            self.lemma_paths(".IsLocked"@);
            reveal_strlit("Body.Doors.");
            reveal_strlit("Row1.Left");
            reveal_strlit("Row1.Right");
            reveal_strlit("Row2.Left");
            reveal_strlit("Row2.Right");
            reveal_strlit(".IsLocked");
            reveal_strlit("Body.Doors.Row1.Left.IsLocked");
            reveal_strlit("Body.Doors.Row1.Right.IsLocked");
            reveal_strlit("Body.Doors.Row2.Left.IsLocked");
            reveal_strlit("Body.Doors.Row2.Right.IsLocked");
            assert("Body.Doors.Row1.Left.IsLocked"@ =~= door_path("Row1.Left"@, ".IsLocked"@));
            assert("Body.Doors.Row1.Right.IsLocked"@ =~= door_path("Row1.Right"@, ".IsLocked"@));
            assert("Body.Doors.Row2.Left.IsLocked"@ =~= door_path("Row2.Left"@, ".IsLocked"@));
            assert("Body.Doors.Row2.Right.IsLocked"@ =~= door_path("Row2.Right"@, ".IsLocked"@));
        }
        self.pick(
            "Body.Doors.Row1.Left.IsLocked",
            "Body.Doors.Row1.Right.IsLocked",
            "Body.Doors.Row2.Left.IsLocked",
            "Body.Doors.Row2.Right.IsLocked",
        )
    }

    /// Full paths of the open state signals of the doors that are present.
    pub fn open_signals(&self) -> (r: Vec<&'static str>)
        ensures
            texts(r@) == self.paths(".IsOpen"@),
    {
        proof {
            self.lemma_paths(".IsOpen"@);
            reveal_strlit("Body.Doors.");
            reveal_strlit("Row1.Left");
            reveal_strlit("Row1.Right");
            reveal_strlit("Row2.Left");
            reveal_strlit("Row2.Right");
            reveal_strlit(".IsOpen");
            reveal_strlit("Body.Doors.Row1.Left.IsOpen");
            reveal_strlit("Body.Doors.Row1.Right.IsOpen");
            reveal_strlit("Body.Doors.Row2.Left.IsOpen");
            reveal_strlit("Body.Doors.Row2.Right.IsOpen");
            assert("Body.Doors.Row1.Left.IsOpen"@ =~= door_path("Row1.Left"@, ".IsOpen"@));
            assert("Body.Doors.Row1.Right.IsOpen"@ =~= door_path("Row1.Right"@, ".IsOpen"@));
            assert("Body.Doors.Row2.Left.IsOpen"@ =~= door_path("Row2.Left"@, ".IsOpen"@));
            assert("Body.Doors.Row2.Right.IsOpen"@ =~= door_path("Row2.Right"@, ".IsOpen"@));
        }
        self.pick(
            "Body.Doors.Row1.Left.IsOpen",
            "Body.Doors.Row1.Right.IsOpen",
            "Body.Doors.Row2.Left.IsOpen",
            "Body.Doors.Row2.Right.IsOpen",
        )
    }

    /// Full paths of the removal signals of the doors that are present. There are
    /// none where the doors are not removable.
    pub fn removed_signals(&self) -> (r: Vec<&'static str>)
        ensures
            texts(r@) == if self.removable {
                self.paths(".IsRemoved"@)
            } else {
                Seq::empty()
            },
    {
        if !self.removable {
            let none: Vec<&'static str> = Vec::new();
            assert(texts(none@) =~= Seq::<Seq<char>>::empty());
            return none;
        }
        proof {
            self.lemma_paths(".IsRemoved"@);
            reveal_strlit("Body.Doors.");
            reveal_strlit("Row1.Left");
            reveal_strlit("Row1.Right");
            reveal_strlit("Row2.Left");
            reveal_strlit("Row2.Right");
            reveal_strlit(".IsRemoved");
            reveal_strlit("Body.Doors.Row1.Left.IsRemoved");
            reveal_strlit("Body.Doors.Row1.Right.IsRemoved");
            reveal_strlit("Body.Doors.Row2.Left.IsRemoved");
            reveal_strlit("Body.Doors.Row2.Right.IsRemoved");
            assert("Body.Doors.Row1.Left.IsRemoved"@ =~= door_path("Row1.Left"@, ".IsRemoved"@));
            assert("Body.Doors.Row1.Right.IsRemoved"@ =~= door_path("Row1.Right"@, ".IsRemoved"@));
            assert("Body.Doors.Row2.Left.IsRemoved"@ =~= door_path("Row2.Left"@, ".IsRemoved"@));
            assert("Body.Doors.Row2.Right.IsRemoved"@ =~= door_path("Row2.Right"@, ".IsRemoved"@));
        }
        self.pick(
            "Body.Doors.Row1.Left.IsRemoved",
            "Body.Doors.Row1.Right.IsRemoved",
            "Body.Doors.Row2.Left.IsRemoved",
            "Body.Doors.Row2.Right.IsRemoved",
        )
    }
}

/// Calibration parameters specific to a vehicle variant or trim level.
#[derive(Debug, Clone, Copy, PartialEq, Eq)]
pub struct VariantCal {
    /// Speed above which the doors lock by themselves, in km/h.
    pub auto_lock_speed_kmh: u16,
    /// Double-lock is available.
    pub double_lock_enabled: bool,
    /// NFC card and phone unlock is available.
    pub nfc_enabled: bool,
    /// The BLE digital key is available.
    pub ble_key_enabled: bool,
    /// Remote lock and unlock by phone is available.
    pub remote_lock_enabled: bool,
    pub welcome_light_pattern: WelcomeLightPattern,
    /// Doors of this variant.
    pub doors: DoorConfig,
}

impl VariantCal {
    /// The default calibrations.
    pub open spec fn standard() -> VariantCal {
        VariantCal {
            auto_lock_speed_kmh: 20,
            double_lock_enabled: false,
            nfc_enabled: false,
            ble_key_enabled: false,
            remote_lock_enabled: false,
            welcome_light_pattern: WelcomeLightPattern::Simple,
            doors: DoorConfig::standard(),
        }
    }
}

impl Default for VariantCal {
    fn default() -> (r: VariantCal)
        ensures
            r == VariantCal::standard(),
    {
        VariantCal {
            auto_lock_speed_kmh: 20,
            double_lock_enabled: false,
            nfc_enabled: false,
            ble_key_enabled: false,
            remote_lock_enabled: false,
            welcome_light_pattern: WelcomeLightPattern::Simple,
            doors: DoorConfig::default(),
        }
    }
}

/// Unlock behaviour on the approach of a key.
#[derive(Debug, Clone, Copy, PartialEq, Eq, Structural)]
pub enum ApproachUnlockMode {
    /// Unlock the driver door only on first approach; a second pull unlocks all.
    DriverOnly,
    /// Unlock all doors on approach.
    All,
}

impl Default for ApproachUnlockMode {
    fn default() -> (r: ApproachUnlockMode)
        ensures
            r == ApproachUnlockMode::DriverOnly,
    {
        ApproachUnlockMode::DriverOnly
    }
}

/// Side of the driver door.
#[derive(Debug, Clone, Copy, PartialEq, Eq, Structural)]
pub enum DriverDoorSide {
    Left,
    Right,
}

/// When the side mirrors fold.
#[derive(Debug, Clone, Copy, PartialEq, Eq, Structural)]
pub enum MirrorFoldMode {
    /// On a switch press only.
    Manual,
    /// On a switch press and on lock transitions.
    Auto,
    /// Never: the trim has no fold motor.
    Off,
}

/// Parameters that a dealer can change by diagnostic writes. Each of the first
/// five has a data identifier of its own.
#[derive(Debug, Clone, Copy, PartialEq, Eq)]
pub struct DealerConfig {
    /// Auto-relock enabled (0xF190).
    pub auto_relock_enabled: bool,
    /// Horn chirp on lock confirmation (0xF191).
    pub horn_chirp_on_lock: bool,
    /// How long the interior lights stay on after a door closes, in seconds (0xF192).
    pub courtesy_light_timeout_secs: u64,
    /// Longest remote start, in minutes (0xF193).
    pub remote_start_max_minutes: u64,
    /// Approach unlock mode (0xF194).
    pub approach_unlock_mode: ApproachUnlockMode,
    /// The first unlock opens the driver door only.
    pub two_stage_unlock: bool,
    pub driver_door_side: DriverDoorSide,
    pub mirror_fold_mode: MirrorFoldMode,
}

impl DealerConfig {
    /// The default parameters.
    pub open spec fn standard() -> DealerConfig {
        DealerConfig {
            auto_relock_enabled: true,
            horn_chirp_on_lock: true,
            courtesy_light_timeout_secs: 30,
            remote_start_max_minutes: 10,
            approach_unlock_mode: ApproachUnlockMode::DriverOnly,
            two_stage_unlock: true,
            driver_door_side: DriverDoorSide::Left,
            mirror_fold_mode: MirrorFoldMode::Manual,
        }
    }
}

impl Default for DealerConfig {
    fn default() -> (r: DealerConfig)
        ensures
            r == DealerConfig::standard(),
    {
        DealerConfig {
            auto_relock_enabled: true,
            horn_chirp_on_lock: true,
            courtesy_light_timeout_secs: 30,
            remote_start_max_minutes: 10,
            approach_unlock_mode: ApproachUnlockMode::DriverOnly,
            two_stage_unlock: true,
            driver_door_side: DriverDoorSide::Left,
            mirror_fold_mode: MirrorFoldMode::Manual,
        }
    }
}

pub const DID_AUTO_RELOCK: u16 = 0xF190;

pub const DID_HORN_CHIRP: u16 = 0xF191;

pub const DID_COURTESY_TIMEOUT: u16 = 0xF192;

pub const DID_REMOTE_START_MAX: u16 = 0xF193;

pub const DID_APPROACH_UNLOCK: u16 = 0xF194;

impl DealerConfig {
    /// The configuration after a write of `value` to the data identifier `did`.
    /// A write to an unknown identifier, or one that is too short, changes nothing.
    pub open spec fn written(self, did: u16, value: Seq<u8>) -> DealerConfig {
        if did == DID_AUTO_RELOCK && value.len() >= 1 {
            DealerConfig { auto_relock_enabled: value[0] != 0, ..self }
        } else if did == DID_HORN_CHIRP && value.len() >= 1 {
            DealerConfig { horn_chirp_on_lock: value[0] != 0, ..self }
        } else if did == DID_COURTESY_TIMEOUT && value.len() >= 2 {
            DealerConfig { courtesy_light_timeout_secs: (value[0] * 256 + value[1]) as u64, ..self }
        } else if did == DID_REMOTE_START_MAX && value.len() >= 1 {
            DealerConfig { remote_start_max_minutes: value[0] as u64, ..self }
        } else if did == DID_APPROACH_UNLOCK && value.len() >= 1 {
            DealerConfig {
                approach_unlock_mode: if value[0] == 0 {
                    ApproachUnlockMode::DriverOnly
                } else {
                    ApproachUnlockMode::All
                },
                ..self
            }
        } else {
            self
        }
    }

    /// The configuration after a diagnostic write of one parameter.
    pub fn with_did(self, did: u16, value: &[u8]) -> (r: DealerConfig)
        ensures
            r == self.written(did, value@),
    {
        let mut config = self;
        if did == DID_AUTO_RELOCK {
            if value.len() >= 1 {
                config.auto_relock_enabled = value[0] != 0;
            }
        } else if did == DID_HORN_CHIRP {
            if value.len() >= 1 {
                config.horn_chirp_on_lock = value[0] != 0;
            }
        } else if did == DID_COURTESY_TIMEOUT {
            if value.len() >= 2 {
                config.courtesy_light_timeout_secs = (value[0] as u64) * 256 + value[1] as u64;
            }
        } else if did == DID_REMOTE_START_MAX {
            if value.len() >= 1 {
                config.remote_start_max_minutes = value[0] as u64;
            }
        } else if did == DID_APPROACH_UNLOCK {
            if value.len() >= 1 {
                config.approach_unlock_mode = if value[0] == 0 {
                    ApproachUnlockMode::DriverOnly
                } else {
                    ApproachUnlockMode::All
                };
            }
        }
        config
    }
}

/// What came of reading a calibration file.
#[derive(Debug)]
pub enum Loaded<T> {
    /// There is no such file.
    Missing,
    /// The file could not be read.
    Unreadable,
    /// The file is not a valid calibration.
    Malformed,
    Parsed(T),
}

/// The calibration that was loaded, or the defaults where there is none.
pub fn load_json_or_default<T: Default>(loaded: Loaded<T>) -> (r: T)
    ensures
        match loaded {
            Loaded::Parsed(cal) => r == cal,
            _ => call_ensures(T::default, (), r),
        },
{
    match loaded {
        Loaded::Parsed(cal) => cal,
        _ => T::default(),
    }
}

/// Merged view of all tiers.
#[derive(Debug, Clone, Copy, PartialEq, Eq)]
pub struct PlatformConfig {
    pub vehicle_line: VehicleLineCal,
    pub variant: VariantCal,
    pub dealer: DealerConfig,
}

impl PlatformConfig {
    /// The configuration that the two calibration files give, with the dealer
    /// parameters at their defaults. No file given reads as a missing file.
    pub fn load_from(
        vehicle_line: Option<Loaded<VehicleLineCal>>,
        variant: Option<Loaded<VariantCal>>,
    ) -> (r: PlatformConfig)
        ensures
            match vehicle_line {
                Some(Loaded::Parsed(cal)) => r.vehicle_line == cal,
                _ => r.vehicle_line == VehicleLineCal::standard(),
            },
            match variant {
                Some(Loaded::Parsed(cal)) => r.variant == cal,
                _ => r.variant == VariantCal::standard(),
            },
            r.dealer == DealerConfig::standard(),
    {
        let vehicle_line = match vehicle_line {
            Some(loaded) => load_json_or_default(loaded),
            None => VehicleLineCal::default(),
        };
        let variant = match variant {
            Some(loaded) => load_json_or_default(loaded),
            None => VariantCal::default(),
        };
        PlatformConfig { vehicle_line, variant, dealer: DealerConfig::default() }
    }

    /// All defaults.
    pub fn defaults() -> (r: PlatformConfig)
        ensures
            r.vehicle_line == VehicleLineCal::standard(),
            r.variant == VariantCal::standard(),
            r.dealer == DealerConfig::standard(),
    {
        Self::load_from(None, None)
    }

    /// All defaults but for the calibrations of the vehicle line.
    pub fn with_vehicle_line(vehicle_line: VehicleLineCal) -> (r: PlatformConfig)
        ensures
            r.vehicle_line == vehicle_line,
            r.variant == VariantCal::standard(),
            r.dealer == DealerConfig::standard(),
    {
        Self::load_from(Some(Loaded::Parsed(vehicle_line)), None)
    }

    /// Auto-relock timeout in milliseconds.
    pub fn auto_relock_timeout(&self) -> (r: u64)
        ensures
            r == clock::millis_of_secs(self.vehicle_line.auto_relock_timeout_secs),
    {
        clock::millis(self.vehicle_line.auto_relock_timeout_secs)
    }

    /// Lock feedback blink period in milliseconds.
    pub fn lock_feedback_blink_period(&self) -> (r: u64)
        ensures
            r == self.vehicle_line.lock_feedback_blink_period_ms,
    {
        self.vehicle_line.lock_feedback_blink_period_ms
    }

    /// Shutdown grace period in milliseconds.
    pub fn shutdown_grace(&self) -> (r: u64)
        ensures
            r == clock::millis_of_secs(self.vehicle_line.shutdown_grace_secs),
    {
        clock::millis(self.vehicle_line.shutdown_grace_secs)
    }

    /// Whether a feature is enabled for this variant. A feature that the variant
    /// does not know is enabled.
    pub fn is_feature_enabled(&self, feature: &str) -> (r: bool)
        ensures
            r == if feature@ == "double_lock"@ {
                self.variant.double_lock_enabled
            } else if feature@ == "nfc"@ {
                self.variant.nfc_enabled
            } else if feature@ == "ble_key"@ {
                self.variant.ble_key_enabled
            } else if feature@ == "remote_lock"@ {
                self.variant.remote_lock_enabled
            } else {
                true
            },
    {
        if same_text(feature, "double_lock") {
            self.variant.double_lock_enabled
        } else if same_text(feature, "nfc") {
            self.variant.nfc_enabled
        } else if same_text(feature, "ble_key") {
            self.variant.ble_key_enabled
        } else if same_text(feature, "remote_lock") {
            self.variant.remote_lock_enabled
        } else {
            true
        }
    }

    /// Doors of this variant.
    pub fn doors(&self) -> (r: &DoorConfig)
        ensures
            *r == self.variant.doors,
    {
        &self.variant.doors
    }

    /// The dealer configuration in force.
    pub fn dealer_config(&self) -> (r: DealerConfig)
        ensures
            r == self.dealer,
    {
        self.dealer
    }

    /// Puts a new dealer configuration in force.
    pub fn update_dealer_config(&mut self, new_config: DealerConfig)
        ensures
            *final(self) == (PlatformConfig { dealer: new_config, ..*old(self) }),
    {
        self.dealer = new_config;
    }

    /// Puts a diagnostic write of one dealer parameter in force.
    pub fn update_dealer_did(&mut self, did: u16, value: &[u8])
        ensures
            *final(self) == (PlatformConfig {
                dealer: old(self).dealer.written(did, value@),
                ..*old(self)
            }),
    {
        let config = self.dealer.with_did(did, value);
        self.update_dealer_config(config);
    }
}

/// A diagnostic write changes at most the one parameter that its identifier
/// stands for.
pub proof fn law_did_write_is_local(config: DealerConfig, did: u16, value: Seq<u8>)
    ensures
        ({
            let new = config.written(did, value);
            &&& did != DID_AUTO_RELOCK ==> new.auto_relock_enabled == config.auto_relock_enabled
            &&& did != DID_HORN_CHIRP ==> new.horn_chirp_on_lock == config.horn_chirp_on_lock
            &&& did != DID_COURTESY_TIMEOUT ==> new.courtesy_light_timeout_secs
                == config.courtesy_light_timeout_secs
            &&& did != DID_REMOTE_START_MAX ==> new.remote_start_max_minutes
                == config.remote_start_max_minutes
            &&& did != DID_APPROACH_UNLOCK ==> new.approach_unlock_mode
                == config.approach_unlock_mode
            &&& new.two_stage_unlock == config.two_stage_unlock
            &&& new.driver_door_side == config.driver_door_side
            &&& new.mirror_fold_mode == config.mirror_fold_mode
        }),
{
}

/// Of two writes to one identifier, both long enough, the last one stands.
pub proof fn law_last_did_write_stands(
    config: DealerConfig,
    did: u16,
    first: Seq<u8>,
    second: Seq<u8>,
)
    requires
        second.len() >= 2,
    ensures
        config.written(did, first).written(did, second) == config.written(did, second),
{
}

/// The door signal lists name one signal per door that is present, in the same
/// order.
pub proof fn law_one_signal_per_present_door(doors: DoorConfig, leaf: Seq<char>, i: int)
    requires
        0 <= i < doors.present().len(),
    ensures
        doors.paths(leaf).len() == doors.present().len(),
        doors.paths(leaf)[i] == door_path(doors.present()[i], leaf),
{
}

/// What a diagnostic write means: a flag is set by any byte but zero, the light
/// timeout is two bytes in seconds, the high one first, the remote start one byte
/// in minutes, and the approach mode is the driver door for zero and all doors for
/// any other byte. Bytes past those are ignored, and a value that is too short
/// changes nothing.
pub proof fn law_did_write_takes_effect(config: DealerConfig, value: Seq<u8>)
    ensures
        value.len() >= 1 ==> {
            &&& config.written(0xF190, value).auto_relock_enabled == (value[0] != 0)
            &&& config.written(0xF191, value).horn_chirp_on_lock == (value[0] != 0)
            &&& config.written(0xF193, value).remote_start_max_minutes == value[0]
            &&& (config.written(0xF194, value).approach_unlock_mode is DriverOnly) == (value[0]
                == 0)
        },
        value.len() >= 2 ==> config.written(0xF192, value).courtesy_light_timeout_secs == 256
            * value[0] + value[1],
        value.len() < 2 ==> config.written(0xF192, value) == config,
        forall|did: u16| value.len() == 0 ==> #[trigger] config.written(did, value) == config,
        forall|did: u16|
            !(0xF190 <= did <= 0xF194) ==> #[trigger] config.written(did, value) == config,
{
}

/// A door is named exactly when the variant has it, and no door twice: front
/// before rear, and left before right.
pub proof fn law_present_doors(doors: DoorConfig)
    ensures
        doors.present().contains("Row1.Left"@) <==> doors.row1_left,
        doors.present().contains("Row1.Right"@) <==> doors.row1_right,
        doors.present().contains("Row2.Left"@) <==> doors.row2_left,
        doors.present().contains("Row2.Right"@) <==> doors.row2_right,
        doors.present().no_duplicates(),
        doors.present().len() == (if doors.row1_left {
            1int
        } else {
            0
        }) + (if doors.row1_right {
            1int
        } else {
            0
        }) + (if doors.row2_left {
            1int
        } else {
            0
        }) + (if doors.row2_right {
            1int
        } else {
            0
        }),
        doors.row1_left ==> doors.present()[0] == "Row1.Left"@,
        doors.row2_right ==> doors.present().last() == "Row2.Right"@,
        doors.row1_right ==> doors.present()[if doors.row1_left {
            1
        } else {
            0
        }] == "Row1.Right"@,
{
    reveal_strlit("Row1.Left");
    reveal_strlit("Row1.Right");
    reveal_strlit("Row2.Left");
    reveal_strlit("Row2.Right");
    assert("Row1.Left"@.len() == 9 && "Row1.Right"@.len() == 10);
    assert("Row2.Left"@.len() == 9 && "Row2.Right"@.len() == 10);
    assert("Row1.Left"@[3] == '1' && "Row2.Left"@[3] == '2');
    assert("Row1.Right"@[3] == '1' && "Row2.Right"@[3] == '2');
    let all = doors.present();
    let a = if_present(doors.row1_left, "Row1.Left"@);
    let b = if_present(doors.row1_right, "Row1.Right"@);
    let c = if_present(doors.row2_left, "Row2.Left"@);
    let d = if_present(doors.row2_right, "Row2.Right"@);
    if doors.row1_left {
        assert(all[0] == "Row1.Left"@);
    }
    if doors.row1_right {
        assert(all[a.len() as int] == "Row1.Right"@);
    }
    if doors.row2_left {
        assert(all[(a + b).len() as int] == "Row2.Left"@);
    }
    if doors.row2_right {
        assert(all[(a + b + c).len() as int] == "Row2.Right"@);
    }
}

/// Of the features that a variant can lack, each is enabled by its own switch, and
/// a feature that the variant does not know is enabled.
pub proof fn law_features_have_their_own_switch(
    config: PlatformConfig,
    double_lock: bool,
    nfc: bool,
    ble_key: bool,
    remote_lock: bool,
    other: &str,
    r: bool,
)
    requires
        call_ensures(PlatformConfig::is_feature_enabled, (&config, "double_lock"), double_lock),
        call_ensures(PlatformConfig::is_feature_enabled, (&config, "nfc"), nfc),
        call_ensures(PlatformConfig::is_feature_enabled, (&config, "ble_key"), ble_key),
        call_ensures(PlatformConfig::is_feature_enabled, (&config, "remote_lock"), remote_lock),
        call_ensures(PlatformConfig::is_feature_enabled, (&config, other), r),
        other@ != "double_lock"@,
        other@ != "nfc"@,
        other@ != "ble_key"@,
        other@ != "remote_lock"@,
    ensures
        double_lock == config.variant.double_lock_enabled,
        nfc == config.variant.nfc_enabled,
        ble_key == config.variant.ble_key_enabled,
        remote_lock == config.variant.remote_lock_enabled,
        r,
{
    reveal_strlit("double_lock");
    reveal_strlit("nfc");
    reveal_strlit("ble_key");
    reveal_strlit("remote_lock");
    assert("double_lock"@[0] == 'd' && "nfc"@[0] == 'n' && "ble_key"@[0] == 'b'
        && "remote_lock"@[0] == 'r');
}

/// Each tier is loaded on its own: what a file holds is taken as it is, whatever
/// becomes of the other file, and a file that is missing, cannot be read or is
/// malformed leaves the same configuration as no file at all.
pub proof fn law_tiers_load_independently(
    line: VehicleLineCal,
    variant: VariantCal,
    bad_line: Option<Loaded<VehicleLineCal>>,
    bad_variant: Option<Loaded<VariantCal>>,
    both: PlatformConfig,
    line_only: PlatformConfig,
    variant_only: PlatformConfig,
    neither: PlatformConfig,
    plain: PlatformConfig,
)
    requires
        !(bad_line matches Some(Loaded::Parsed(_))),
        !(bad_variant matches Some(Loaded::Parsed(_))),
        call_ensures(
            PlatformConfig::load_from,
            (Some(Loaded::Parsed(line)), Some(Loaded::Parsed(variant))),
            both,
        ),
        call_ensures(
            PlatformConfig::load_from,
            (Some(Loaded::Parsed(line)), bad_variant),
            line_only,
        ),
        call_ensures(
            PlatformConfig::load_from,
            (bad_line, Some(Loaded::Parsed(variant))),
            variant_only,
        ),
        call_ensures(PlatformConfig::load_from, (bad_line, bad_variant), neither),
        call_ensures(PlatformConfig::defaults, (), plain),
    ensures
        both.vehicle_line == line && both.variant == variant,
        line_only.vehicle_line == line && line_only.variant == plain.variant,
        variant_only.variant == variant && variant_only.vehicle_line == plain.vehicle_line,
        neither == plain,
        both.dealer == plain.dealer && line_only.dealer == plain.dealer && variant_only.dealer
            == plain.dealer,
{
}

/// The default relock timeout of a vehicle line is the one that holds where no
/// configuration is at hand, and a loaded one is what the features take, in
/// milliseconds.
pub proof fn law_timeouts_in_milliseconds(
    config: PlatformConfig,
    plain: PlatformConfig,
    relock: u64,
    plain_relock: u64,
    grace: u64,
)
    requires
        call_ensures(PlatformConfig::defaults, (), plain),
        call_ensures(PlatformConfig::auto_relock_timeout, (&config,), relock),
        call_ensures(PlatformConfig::auto_relock_timeout, (&plain,), plain_relock),
        call_ensures(PlatformConfig::shutdown_grace, (&config,), grace),
        config.vehicle_line.auto_relock_timeout_secs < 0x10_0000_0000,
        config.vehicle_line.shutdown_grace_secs < 0x10_0000_0000,
    ensures
        relock == 1000 * config.vehicle_line.auto_relock_timeout_secs,
        grace == 1000 * config.vehicle_line.shutdown_grace_secs,
        plain_relock == crate::features::auto_relock::DEFAULT_RELOCK_TIMEOUT_MS,
{
}

} // verus!
