//! Door-trim buttons: locking and unlocking from inside, at the front doors. Each
//! press counts once, however long the button is held.
//!
//! Both directions work without authentication and whatever the alarm does, so
//! that occupants can always get out. Only a double-locked vehicle ignores the
//! buttons, as its interior linkage is disconnected.

use vstd::prelude::*;

use crate::arbiter::door_lock::{
    STATUS_DOUBLE_LOCKED, STATUS_DRIVER_UNLOCKED, STATUS_UNLOCKED,
};
use crate::config::{DriverDoorSide, PlatformConfig};
use crate::features::doors;
use crate::features::doors::{any_set, no_flags};
use crate::ipc_message::{FeatureId, SignalValue, Value};
use crate::signal_bus::{same_text, DoorLockRequest, LockCommand, VssPath};

verus! {

/// Lock buttons.
pub const LOCK_BUTTONS: [VssPath; 2] = [
    "Body.Switches.DoorTrim.Row1.Left.LockButton",
    "Body.Switches.DoorTrim.Row1.Right.LockButton",
];

/// Unlock button of the left front door.
pub const LEFT_UNLOCK_BUTTON: VssPath = "Body.Switches.DoorTrim.Row1.Left.UnlockButton";

/// Unlock button of the right front door.
pub const RIGHT_UNLOCK_BUTTON: VssPath = "Body.Switches.DoorTrim.Row1.Right.UnlockButton";

/// Open-state signals of the doors.
pub const DOOR_OPEN_SIGNALS: [VssPath; 4] = [
    "Body.Doors.Row1.Left.IsOpen",
    "Body.Doors.Row1.Right.IsOpen",
    "Body.Doors.Row2.Left.IsOpen",
    "Body.Doors.Row2.Right.IsOpen",
];

/// Feedback that follows an accepted lock request.
pub const LOCK_FEEDBACK: &'static str = "lock";

/// Feedback that follows an accepted unlock request.
pub const UNLOCK_FEEDBACK: &'static str = "unlock";

/// Side of a button.
#[derive(Debug, Clone, Copy, PartialEq, Eq, Structural)]
pub enum SideLabel {
    Left,
    Right,
}

/// Which buttons of one side are pressed.
#[derive(Debug, Clone, Copy, PartialEq, Eq, Structural)]
pub struct Buttons {
    pub lock: bool,
    pub unlock: bool,
}

/// State of the feature.
#[verifier::ext_equal]
pub struct TrimState {
    /// The cabin lock status seen last.
    pub status: Seq<char>,
    /// Which doors are open.
    pub open: Seq<bool>,
    /// The buttons on the left.
    pub left: Buttons,
    /// The buttons on the right.
    pub right: Buttons,
}

impl SideLabel {
    /// The side is that of the driver door.
    pub open spec fn driver(self, config: PlatformConfig) -> bool {
        match config.dealer.driver_door_side {
            DriverDoorSide::Left => self == SideLabel::Left,
            DriverDoorSide::Right => self == SideLabel::Right,
        }
    }
}

impl TrimState {
    /// The state at start-up.
    pub open spec fn initial() -> TrimState {
        TrimState {
            status: STATUS_UNLOCKED@,
            open: doors::none_set(),
            left: Buttons { lock: false, unlock: false },
            right: Buttons { lock: false, unlock: false },
        }
    }

    /// The buttons on a side.
    pub open spec fn buttons(self, side: SideLabel) -> Buttons {
        match side {
            SideLabel::Left => self.left,
            SideLabel::Right => self.right,
        }
    }

    /// The state with other readings of the buttons on a side.
    pub open spec fn with_buttons(self, side: SideLabel, buttons: Buttons) -> TrimState {
        match side {
            SideLabel::Left => TrimState { left: buttons, ..self },
            SideLabel::Right => TrimState { right: buttons, ..self },
        }
    }

    /// The state after a value of the cabin lock status. Only texts count.
    pub open spec fn after_status(self, v: Value) -> TrimState {
        match v {
            Value::Text(s) => TrimState { status: s, ..self },
            _ => self,
        }
    }

    /// The state after a value of the door at position `i`. Only flags count.
    pub open spec fn after_door(self, i: int, v: Value) -> TrimState {
        match v.flag() {
            Some(b) => TrimState { open: self.open.update(i, b), ..self },
            None => self,
        }
    }

    /// What a press of a lock button asks of the door-lock arbiter.
    pub open spec fn lock_order(self, config: PlatformConfig) -> Option<DoorLockRequest> {
        if self.status != STATUS_DOUBLE_LOCKED@ {
            Some(
                DoorLockRequest {
                    command: LockCommand::LockAll,
                    feature_id: if doors::any(self.open)
                        && !config.vehicle_line.slam_lock_protect {
                        FeatureId::SlamLock
                    } else {
                        FeatureId::DoorTrimButton
                    },
                },
            )
        } else {
            None
        }
    }

    /// The command of an unlock button.
    pub open spec fn unlock_command(self, side: SideLabel, config: PlatformConfig) -> Option<
        LockCommand,
    > {
        if self.status == STATUS_DOUBLE_LOCKED@ {
            None
        } else if self.status != STATUS_DRIVER_UNLOCKED@ && side.driver(config)
            && config.dealer.two_stage_unlock {
            Some(LockCommand::UnlockDriver)
        } else {
            Some(LockCommand::UnlockAll)
        }
    }

    /// What a press of an unlock button asks of the door-lock arbiter.
    pub open spec fn unlock_order(self, side: SideLabel, config: PlatformConfig) -> Option<
        DoorLockRequest,
    > {
        match self.unlock_command(side, config) {
            Some(command) => Some(
                DoorLockRequest { command, feature_id: FeatureId::DoorTrimButton },
            ),
            None => None,
        }
    }

    /// The state after a value of the lock button on a side, and what it asks of
    /// the door-lock arbiter. Only a change to `true` is a press.
    pub open spec fn after_lock(self, side: SideLabel, v: Value, config: PlatformConfig) -> (
        TrimState,
        Option<DoorLockRequest>,
    ) {
        let was = self.buttons(side);
        (
            self.with_buttons(side, Buttons { lock: v == Value::Bool(true), ..was }),
            if v == Value::Bool(true) && !was.lock {
                self.lock_order(config)
            } else {
                None
            },
        )
    }

    /// The state after a value of the unlock button on a side, and what it asks of
    /// the door-lock arbiter. Only a change to `true` is a press.
    pub open spec fn after_unlock(self, side: SideLabel, v: Value, config: PlatformConfig) -> (
        TrimState,
        Option<DoorLockRequest>,
    ) {
        let was = self.buttons(side);
        (
            self.with_buttons(side, Buttons { unlock: v == Value::Bool(true), ..was }),
            if v == Value::Bool(true) && !was.unlock {
                self.unlock_order(side, config)
            } else {
                None
            },
        )
    }
}

/// The door-trim feature.
pub struct DoorTrimButton {
    lock_status: String,
    door_open: [bool; 4],
    left: Buttons,
    right: Buttons,
}

impl View for DoorTrimButton {
    type V = TrimState;

    closed spec fn view(&self) -> TrimState {
        TrimState {
            status: self.lock_status@,
            open: self.door_open@,
            left: self.left,
            right: self.right,
        }
    }
}

impl DoorTrimButton {
    /// The feature in an unlocked vehicle with all doors closed and no button
    /// pressed.
    pub fn new() -> (r: DoorTrimButton)
        ensures
            r@ == TrimState::initial(),
    {
        DoorTrimButton {
            lock_status: STATUS_UNLOCKED.to_owned(),
            door_open: no_flags(),
            left: Buttons { lock: false, unlock: false },
            right: Buttons { lock: false, unlock: false },
        }
    }

    fn set_buttons(&mut self, side: SideLabel, buttons: Buttons)
        ensures
            final(self)@ == old(self)@.with_buttons(side, buttons),
    {
        match side {
            SideLabel::Left => {
                self.left = buttons;
            },
            SideLabel::Right => {
                self.right = buttons;
            },
        }
    }

    fn buttons(&self, side: SideLabel) -> (r: Buttons)
        ensures
            r == self@.buttons(side),
    {
        match side {
            SideLabel::Left => self.left,
            SideLabel::Right => self.right,
        }
    }

    /// Takes a value of the cabin lock status.
    pub fn on_lock_status(&mut self, val: &SignalValue)
        ensures
            final(self)@ == old(self)@.after_status(val@),
    {
        if let SignalValue::String(s) = val {
            self.lock_status = s.clone();
        }
    }

    /// Takes a value of the open-state signal at position `i`. Only flags count.
    pub fn on_door(&mut self, i: usize, val: &SignalValue)
        requires
            i < 4,
        ensures
            final(self)@ == old(self)@.after_door(i as int, val@),
    {
        let ghost before = self@;
        if let Some(b) = val.as_bool() {
            self.door_open[i] = b;
            assert(self@ =~= (TrimState { open: before.open.update(i as int, b), ..before }));
        }
    }

    /// Takes a value of the lock button on `side`. An accepted request is to be
    /// followed by lock feedback.
    pub fn on_lock_button(
        &mut self,
        side: SideLabel,
        val: &SignalValue,
        config: &PlatformConfig,
    ) -> (r: Option<DoorLockRequest>)
        ensures
            (final(self)@, r) == old(self)@.after_lock(side, val@, *config),
    {
        let was = self.buttons(side);
        let now = val.is_true();
        self.set_buttons(side, Buttons { lock: now, unlock: was.unlock });
        if !now || was.lock || same_text(self.lock_status.as_str(), STATUS_DOUBLE_LOCKED) {
            return None;
        }
        let feature_id = if any_set(&self.door_open) && !config.vehicle_line.slam_lock_protect {
            FeatureId::SlamLock
        } else {
            FeatureId::DoorTrimButton
        };
        Some(DoorLockRequest { command: LockCommand::LockAll, feature_id })
    }

    /// The command of the unlock button on `side`.
    pub fn unlock_command_for(&self, side: SideLabel, config: &PlatformConfig) -> (r: Option<
        LockCommand,
    >)
        ensures
            r == self@.unlock_command(side, *config),
    {
        let status = self.lock_status.as_str();
        if same_text(status, STATUS_DOUBLE_LOCKED) {
            return None;
        }
        if same_text(status, STATUS_DRIVER_UNLOCKED) {
            return Some(LockCommand::UnlockAll);
        }
        let pressed_side_is_driver = match config.dealer.driver_door_side {
            DriverDoorSide::Left => side == SideLabel::Left,
            DriverDoorSide::Right => side == SideLabel::Right,
        };
        if pressed_side_is_driver && config.dealer.two_stage_unlock {
            Some(LockCommand::UnlockDriver)
        } else {
            Some(LockCommand::UnlockAll)
        }
    }

    /// Takes a value of the unlock button on `side`. An accepted request is to be
    /// followed by unlock feedback.
    pub fn on_unlock_button(
        &mut self,
        side: SideLabel,
        val: &SignalValue,
        config: &PlatformConfig,
    ) -> (r: Option<DoorLockRequest>)
        ensures
            (final(self)@, r) == old(self)@.after_unlock(side, val@, *config),
    {
        let was = self.buttons(side);
        let now = val.is_true();
        self.set_buttons(side, Buttons { lock: was.lock, unlock: now });
        if !now || was.unlock {
            return None;
        }
        match self.unlock_command_for(side, config) {
            Some(command) => Some(
                DoorLockRequest { command, feature_id: FeatureId::DoorTrimButton },
            ),
            None => None,
        }
    }
}

/// A double-locked vehicle ignores every button.
pub proof fn law_double_lock_ignores_buttons(
    s: TrimState,
    side: SideLabel,
    v: Value,
    config: PlatformConfig,
)
    requires
        s.status == STATUS_DOUBLE_LOCKED@,
    ensures
        s.after_lock(side, v, config).1 is None,
        s.after_unlock(side, v, config).1 is None,
{
}

/// A press counts once: a button that stays pressed asks for nothing more, and
/// neither does letting it go. Once let go, it can be pressed again.
pub proof fn law_one_request_per_press(
    s: TrimState,
    side: SideLabel,
    v: Value,
    config: PlatformConfig,
)
    ensures
        s.buttons(side).lock || v != Value::Bool(true) ==> s.after_lock(side, v, config).1 is None,
        s.buttons(side).unlock || v != Value::Bool(true) ==> s.after_unlock(side, v, config).1
            is None,
        ({
            let locked = s.after_lock(side, v, config).0;
            let unlocked = s.after_unlock(side, v, config).0;
            &&& locked.after_lock(side, v, config).1 is None
            &&& unlocked.after_unlock(side, v, config).1 is None
            &&& v != Value::Bool(true) ==> locked.after_lock(side, Value::Bool(true), config).1
                == s.lock_order(config)
            &&& v != Value::Bool(true) ==> unlocked.after_unlock(
                side,
                Value::Bool(true),
                config,
            ).1 == s.unlock_order(side, config)
        }),
{
}

/// The four buttons are independent: a value of one leaves the readings of the
/// others alone.
pub proof fn law_buttons_are_independent(
    s: TrimState,
    side: SideLabel,
    other: SideLabel,
    v: Value,
    config: PlatformConfig,
)
    ensures
        s.after_lock(side, v, config).0.buttons(other).unlock == s.buttons(other).unlock,
        s.after_unlock(side, v, config).0.buttons(other).lock == s.buttons(other).lock,
        side != other ==> s.after_lock(side, v, config).0.buttons(other) == s.buttons(other)
            && s.after_unlock(side, v, config).0.buttons(other) == s.buttons(other),
{
}

/// In every other state a press of an unlock button leads to a request that
/// unlocks the driver door at least: occupants can always get out.
pub proof fn law_occupants_can_get_out(s: TrimState, side: SideLabel, config: PlatformConfig)
    requires
        s.status != STATUS_DOUBLE_LOCKED@,
        !s.buttons(side).unlock,
    ensures
        s.after_unlock(side, Value::Bool(true), config).1 matches Some(order) && (order.command
            == LockCommand::UnlockAll || order.command == LockCommand::UnlockDriver && side.driver(
            config,
        )),
{
}

/// The passenger side unlocks all doors, whatever the two-stage setting, and so
/// does either side once the driver door is unlocked.
pub proof fn law_passenger_side_unlocks_all(
    s: TrimState,
    side: SideLabel,
    config: PlatformConfig,
)
    requires
        s.status != STATUS_DOUBLE_LOCKED@,
        !side.driver(config) || s.status == STATUS_DRIVER_UNLOCKED@,
    ensures
        s.unlock_command(side, config) == Some(LockCommand::UnlockAll),
{
}

/// A lock press counts as a slam lock exactly when a door is open on a vehicle
/// line without slam-lock protection.
pub proof fn law_slam_lock_needs_open_door(s: TrimState, side: SideLabel, config: PlatformConfig)
    requires
        s.status != STATUS_DOUBLE_LOCKED@,
        !s.buttons(side).lock,
    ensures
        s.after_lock(side, Value::Bool(true), config).1 matches Some(order) && order.command
            == LockCommand::LockAll && (order.feature_id == FeatureId::SlamLock <==> doors::any(
            s.open,
        ) && !config.vehicle_line.slam_lock_protect),
{
}

} // verus!
