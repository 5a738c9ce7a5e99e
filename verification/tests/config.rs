use std::path::Path;

use vss_bridge::config::{
    load_json_or_default, ApproachUnlockMode, DealerConfig, DoorConfig, DriverDoorSide, Loaded,
    MirrorFoldMode, PlatformConfig, VariantCal, VehicleLineCal,
};

#[test]
fn defaults_are_sensible() {
    let vl = VehicleLineCal::default();
    assert_eq!(vl.auto_relock_timeout_secs, 45);
    assert_eq!(vl.lock_feedback_blink_count, 3);
    assert_eq!(vl.shutdown_grace_secs, 30);

    let vc = VariantCal::default();
    assert_eq!(vc.auto_lock_speed_kmh, 20);
    assert!(!vc.double_lock_enabled);
    assert!(!vc.nfc_enabled);
    assert!(vc.doors.row2_left);
    assert!(!vc.doors.removable);

    let dc = DealerConfig::default();
    assert!(dc.auto_relock_enabled);
    assert!(dc.horn_chirp_on_lock);
    assert_eq!(dc.approach_unlock_mode, ApproachUnlockMode::DriverOnly);
}

#[test]
fn door_config_non_removable_has_no_removed_signals() {
    let dc = DoorConfig::default();
    assert!(!dc.removable);
    assert!(dc.removed_signals().is_empty());
}

#[test]
fn platform_config_defaults() {
    let cfg = PlatformConfig::defaults();
    assert_eq!(cfg.auto_relock_timeout(), 45_000);
    assert!(cfg.is_feature_enabled("double_lock") == false);
    assert!(cfg.is_feature_enabled("unknown_feature") == true);
    assert!(cfg.dealer_config().auto_relock_enabled);
}

#[test]
fn dealer_config_update() {
    let mut cfg = PlatformConfig::defaults();
    assert!(cfg.dealer_config().auto_relock_enabled);

    let mut new_dc = cfg.dealer_config();
    new_dc.auto_relock_enabled = false;
    new_dc.horn_chirp_on_lock = false;
    cfg.update_dealer_config(new_dc);

    assert!(!cfg.dealer_config().auto_relock_enabled);
    assert!(!cfg.dealer_config().horn_chirp_on_lock);
}

#[test]
fn dealer_did_update() {
    let mut cfg = PlatformConfig::defaults();

    // Disable auto-relock via DID 0xF190
    cfg.update_dealer_did(0xF190, &[0x00]);
    assert!(!cfg.dealer_config().auto_relock_enabled);

    // Re-enable
    cfg.update_dealer_did(0xF190, &[0x01]);
    assert!(cfg.dealer_config().auto_relock_enabled);

    // Set approach unlock to ALL via DID 0xF194
    cfg.update_dealer_did(0xF194, &[0x01]);
    assert_eq!(
        cfg.dealer_config().approach_unlock_mode,
        ApproachUnlockMode::All
    );

    // Unknown DID: nothing happens
    let before = cfg.dealer_config();
    cfg.update_dealer_did(0xFFFF, &[0x42]);
    assert_eq!(cfg.dealer_config(), before);
}

#[test]
fn missing_file_returns_defaults() {
    let path = Path::new("/nonexistent/path/vehicle_line.json");
    let loaded: Loaded<VehicleLineCal> = if path.exists() {
        Loaded::Unreadable
    } else {
        Loaded::Missing
    };
    let vl = load_json_or_default::<VehicleLineCal>(loaded);
    assert_eq!(vl.auto_relock_timeout_secs, 45);
}

#[test]
fn parsed_calibration_is_kept() {
    let cal = VehicleLineCal {
        auto_relock_timeout_secs: 30,
        ..VehicleLineCal::default()
    };
    let cfg = PlatformConfig::load_from(Some(Loaded::Parsed(cal)), None);
    assert_eq!(cfg.auto_relock_timeout(), 30_000);
    assert_eq!(cfg.variant, VariantCal::default());
    for broken in [Loaded::Missing, Loaded::Unreadable, Loaded::Malformed] {
        let cfg = PlatformConfig::load_from(Some(broken), None);
        assert_eq!(cfg.vehicle_line, VehicleLineCal::default());
    }
}

#[test]
fn timeouts_saturate() {
    let cal = VehicleLineCal {
        auto_relock_timeout_secs: u64::MAX,
        shutdown_grace_secs: 7,
        ..VehicleLineCal::default()
    };
    let cfg = PlatformConfig::with_vehicle_line(cal);
    assert_eq!(cfg.auto_relock_timeout(), u64::MAX);
    assert_eq!(cfg.shutdown_grace(), 7_000);
    assert_eq!(cfg.lock_feedback_blink_period(), 400);
}

#[test]
fn coupe_has_two_doors() {
    let doors = DoorConfig::two_door();
    assert_eq!(doors.present_doors(), vec!["Row1.Left", "Row1.Right"]);
    assert_eq!(
        doors.lock_signals(),
        vec![
            "Body.Doors.Row1.Left.IsLocked",
            "Body.Doors.Row1.Right.IsLocked",
        ]
    );
    assert_eq!(
        doors.open_signals(),
        vec!["Body.Doors.Row1.Left.IsOpen", "Body.Doors.Row1.Right.IsOpen"]
    );
}

#[test]
fn removable_doors_have_removed_signals() {
    let doors = DoorConfig::four_door_removable();
    assert_eq!(doors.present_doors().len(), 4);
    assert_eq!(
        doors.removed_signals(),
        vec![
            "Body.Doors.Row1.Left.IsRemoved",
            "Body.Doors.Row1.Right.IsRemoved",
            "Body.Doors.Row2.Left.IsRemoved",
            "Body.Doors.Row2.Right.IsRemoved",
        ]
    );
}

#[test]
fn last_did_write_stands_and_is_local() {
    let first = DealerConfig::default().with_did(0xF191, &[0x00]);
    assert!(!first.horn_chirp_on_lock);
    assert!(first.auto_relock_enabled);
    let second = first.with_did(0xF191, &[0x01]);
    assert!(second.horn_chirp_on_lock);
    assert_eq!(second, DealerConfig::default());
}

#[test]
fn empty_did_write_is_ignored() {
    let dc = DealerConfig::default().with_did(0xF190, &[]);
    assert_eq!(dc, DealerConfig::default());
}

#[test]
fn entry_defaults() {
    let dc = DealerConfig::default();
    assert!(dc.two_stage_unlock);
    assert_eq!(dc.driver_door_side, DriverDoorSide::Left);
    assert_eq!(dc.mirror_fold_mode, MirrorFoldMode::Manual);
    let vl = VehicleLineCal::default();
    assert_eq!(vl.auto_headlamp_lux_threshold, 200);
    assert!(vl.slam_lock_protect);
    assert!(!vl.peps_rear_capacitive_handles);
}

#[test]
fn numeric_did_writes() {
    let dc = DealerConfig::default()
        .with_did(0xF192, &[0x01, 0x2C])
        .with_did(0xF193, &[0x0F]);
    assert_eq!(dc.courtesy_light_timeout_secs, 300);
    assert_eq!(dc.remote_start_max_minutes, 15);
    // One byte is too short for the timeout.
    assert_eq!(dc.with_did(0xF192, &[0x05]).courtesy_light_timeout_secs, 300);
}
