//! What the switch and button features make of their history: over every run,
//! what they ask for is fixed by what they saw last of each input.

use vstd::prelude::*;

use crate::arbiter::door_lock::FEEDBACK_REQUEST;
use crate::arbiter::tables::TRUNK_OPEN_CMD;
use crate::config::{DriverDoorSide, MirrorFoldMode, PlatformConfig};
use crate::features::cabin_trunk_release::CabinTrunkRelease;
use crate::features::child_lock;
use crate::features::child_lock::ChildLock;
use crate::features::door_trim_button::{DoorTrimButton, SideLabel, TrimState};
use crate::features::doors;
use crate::features::double_lock_release::DoubleLockRelease;
use crate::features::exterior_trunk_button::{ButtonState, ExteriorTrunkButton, PressEffect};
use crate::features::mirror_adjust;
use crate::features::mirror_adjust::{AdjustState, MirrorAdjust};
use crate::features::mirror_fold;
use crate::features::mirror_fold::{FoldEvent, FoldState, MirrorFold};
use crate::history;
use crate::ipc_message::{FeatureId, Priority, Value};
use crate::signal_bus::{Domain, DoorLockRequest, Effect, LockCommand, Output};

verus! {

/// Something that happens to the exterior trunk button.
pub enum TrunkEvent {
    /// Value of the cabin lock status.
    Status(Value),
    /// Value of valet mode.
    Valet(Value),
    /// Value of the button.
    Button(Value),
}

/// The exterior trunk button after a run of events.
pub open spec fn trunk_run(s: ButtonState, events: Seq<TrunkEvent>) -> ButtonState
    decreases events.len(),
{
    if events.len() == 0 {
        s
    } else {
        let t = trunk_run(s, events.drop_last());
        match events.last() {
            TrunkEvent::Status(v) => t.after_status(v),
            TrunkEvent::Valet(v) => t.after_valet(v),
            TrunkEvent::Button(v) => t.after(v).0,
        }
    }
}

/// Reads off an event the text of the lock status.
pub open spec fn trunk_status() -> spec_fn(TrunkEvent) -> Option<Seq<char>> {
    |e: TrunkEvent|
        match e {
            TrunkEvent::Status(Value::Text(t)) => Some(t),
            _ => None,
        }
}

/// Reads off an event whether valet mode is active.
pub open spec fn trunk_valet() -> spec_fn(TrunkEvent) -> Option<bool> {
    |e: TrunkEvent|
        match e {
            TrunkEvent::Valet(Value::Bool(b)) => Some(b),
            _ => None,
        }
}

/// Reads off an event whether the button is pressed.
pub open spec fn trunk_button() -> spec_fn(TrunkEvent) -> Option<bool> {
    |e: TrunkEvent|
        match e {
            TrunkEvent::Button(v) => Some(v == Value::Bool(true)),
            _ => None,
        }
}

proof fn lemma_trunk(button: ExteriorTrunkButton, events: Seq<TrunkEvent>)
    requires
        call_ensures(ExteriorTrunkButton::new, (), button),
    ensures
        ({
            let t = trunk_run(button@, events);
            &&& t.status == history::latest_or(events, trunk_status(), "LOCKED"@)
            &&& t.valet == history::latest_or(events, trunk_valet(), false)
            &&& t.pressed == history::latest_or(events, trunk_button(), false)
        }),
    decreases events.len(),
{
    if events.len() > 0 {
        lemma_trunk(button, events.drop_last());
    }
}

/// Over every run a value of the exterior button counts exactly when the button
/// was not seen pressed last and valet mode was not seen active last. It opens the
/// trunk at once if the latest lock status is unlocked, fully or at the driver
/// door, and asks for a search with any other, before the first one too.
pub proof fn law_trunk_button_follows_latest_inputs(
    button: ExteriorTrunkButton,
    events: Seq<TrunkEvent>,
    v: Value,
)
    requires
        call_ensures(ExteriorTrunkButton::new, (), button),
    ensures
        ({
            let status = history::latest(events, trunk_status());
            trunk_run(button@, events).after(v).1 == if v != Value::Bool(true) || history::latest(
                events,
                trunk_button(),
            ) == Some(true) || history::latest(events, trunk_valet()) == Some(true) {
                PressEffect::Ignored
            } else if status == Some("UNLOCKED"@) || status == Some("DRIVER_UNLOCKED"@) {
                PressEffect::Open(
                    seq![
                        Effect::claim(
                            Domain::Trunk,
                            TRUNK_OPEN_CMD,
                            Value::Bool(true),
                            Priority::Medium,
                            FeatureId::ExteriorTrunkButton,
                        ),
                        Effect::release(
                            Domain::Trunk,
                            TRUNK_OPEN_CMD,
                            FeatureId::ExteriorTrunkButton,
                        ),
                        Effect::publish(FEEDBACK_REQUEST, Value::Text("trunk_unlock"@)),
                    ],
                )
            } else {
                PressEffect::Search
            }
        }),
{
    lemma_trunk(button, events);
    reveal_strlit("LOCKED");
    reveal_strlit("UNLOCKED");
    reveal_strlit("DRIVER_UNLOCKED");
    assert("LOCKED"@.len() == 6 && "UNLOCKED"@.len() == 8 && "DRIVER_UNLOCKED"@.len() == 15);
}

/// The cabin release after a run of values of its switch.
pub open spec fn release_run(s: CabinTrunkRelease, values: Seq<Value>) -> CabinTrunkRelease
    decreases values.len(),
{
    if values.len() == 0 {
        s
    } else {
        release_run(s, values.drop_last()).after(values.last()).0
    }
}

/// Over every run a value of the cabin switch opens the trunk, by a pulse at
/// medium priority, exactly when it is a press and the value before was none.
pub proof fn law_cabin_release_counts_presses(
    s: CabinTrunkRelease,
    values: Seq<Value>,
    v: Value,
)
    requires
        call_ensures(CabinTrunkRelease::new, (), s),
    ensures
        release_run(s, values).after(v).1 == if v == Value::Bool(true) && (values.len() == 0
            || values.last() != Value::Bool(true)) {
            seq![
                Effect::claim(
                    Domain::Trunk,
                    TRUNK_OPEN_CMD,
                    Value::Bool(true),
                    Priority::Medium,
                    FeatureId::CabinTrunkRelease,
                ),
                Effect::release(Domain::Trunk, TRUNK_OPEN_CMD, FeatureId::CabinTrunkRelease),
            ]
        } else {
            Seq::empty()
        },
{
}

/// The double-lock release after a run of values of the power state.
pub open spec fn power_run(s: DoubleLockRelease, values: Seq<Value>) -> DoubleLockRelease
    decreases values.len(),
{
    if values.len() == 0 {
        s
    } else {
        power_run(s, values.drop_last()).after(values.last()).0
    }
}

/// Reads off a value of the power state whether the vehicle is off. Some values
/// say neither.
pub open spec fn off_seen() -> spec_fn(Value) -> Option<bool> {
    |v: Value|
        if v == Value::Text("OFF"@) || v == Value::Text("ACC"@) || v == Value::Text("LOCK"@) {
            Some(true)
        } else if v == Value::Text("ON"@) || v == Value::Text("START"@) {
            Some(false)
        } else {
            None
        }
}

/// Over every run a value of the power state clears the double lock exactly when
/// it switches the vehicle on and the vehicle was seen off last, or was never seen
/// before. Nothing else is ever asked for.
pub proof fn law_double_lock_is_cleared_on_switch_on(
    s: DoubleLockRelease,
    values: Seq<Value>,
    v: Value,
)
    requires
        call_ensures(DoubleLockRelease::new, (), s),
    ensures
        power_run(s, values).after(v).1 == if (v == Value::Text("ON"@) || v == Value::Text(
            "START"@,
        )) && history::latest_or(values, off_seen(), true) {
            seq![Effect::lock(LockCommand::ReleaseDouble, FeatureId::DoubleLockRelease)]
        } else {
            Seq::empty()
        },
{
    lemma_power(s, values);
    crate::features::power::law_on_and_off_exclude_each_other(v);
}

proof fn lemma_power(s: DoubleLockRelease, values: Seq<Value>)
    requires
        call_ensures(DoubleLockRelease::new, (), s),
    ensures
        power_run(s, values).last_was_off == history::latest_or(values, off_seen(), true),
    decreases values.len(),
{
    if values.len() > 0 {
        lemma_power(s, values.drop_last());
        crate::features::power::law_on_and_off_exclude_each_other(values.last());
    }
}

/// Something that happens to the door-trim buttons.
pub enum TrimEvent {
    Status(Value),
    /// Value of the door at a position.
    Door(int, Value),
    Lock(SideLabel, Value, PlatformConfig),
    Unlock(SideLabel, Value, PlatformConfig),
}

/// The door-trim buttons after a run of events. Only the four doors count.
pub open spec fn trim_run(s: TrimState, events: Seq<TrimEvent>) -> TrimState
    decreases events.len(),
{
    if events.len() == 0 {
        s
    } else {
        let t = trim_run(s, events.drop_last());
        match events.last() {
            TrimEvent::Status(v) => t.after_status(v),
            TrimEvent::Door(i, v) => if 0 <= i < 4 {
                t.after_door(i, v)
            } else {
                t
            },
            TrimEvent::Lock(side, v, config) => t.after_lock(side, v, config).0,
            TrimEvent::Unlock(side, v, config) => t.after_unlock(side, v, config).0,
        }
    }
}

/// Reads off an event the text of the lock status.
pub open spec fn trim_status() -> spec_fn(TrimEvent) -> Option<Seq<char>> {
    |e: TrimEvent|
        match e {
            TrimEvent::Status(Value::Text(t)) => Some(t),
            _ => None,
        }
}

/// Reads off an event whether the door at a position is open.
pub open spec fn trim_door(at: int) -> spec_fn(TrimEvent) -> Option<bool> {
    |e: TrimEvent|
        match e {
            TrimEvent::Door(i, Value::Bool(b)) => if i == at {
                Some(b)
            } else {
                None
            },
            _ => None,
        }
}

/// Reads off an event whether the lock button of a side is pressed.
pub open spec fn trim_lock(of: SideLabel) -> spec_fn(TrimEvent) -> Option<bool> {
    |e: TrimEvent|
        match e {
            TrimEvent::Lock(side, v, _) => if side == of {
                Some(v == Value::Bool(true))
            } else {
                None
            },
            _ => None,
        }
}

/// Reads off an event whether the unlock button of a side is pressed.
pub open spec fn trim_unlock(of: SideLabel) -> spec_fn(TrimEvent) -> Option<bool> {
    |e: TrimEvent|
        match e {
            TrimEvent::Unlock(side, v, _) => if side == of {
                Some(v == Value::Bool(true))
            } else {
                None
            },
            _ => None,
        }
}

/// Some door was seen open last.
pub open spec fn trim_any_open(events: Seq<TrimEvent>) -> bool {
    exists|i: int| 0 <= i < 4 && #[trigger] history::latest(events, trim_door(i)) == Some(true)
}

proof fn lemma_trim(trim: DoorTrimButton, events: Seq<TrimEvent>, side: SideLabel)
    requires
        call_ensures(DoorTrimButton::new, (), trim),
    ensures
        ({
            let t = trim_run(trim@, events);
            &&& t.open.len() == 4
            &&& t.status == history::latest_or(events, trim_status(), "UNLOCKED"@)
            &&& t.buttons(side).lock == history::latest_or(events, trim_lock(side), false)
            &&& t.buttons(side).unlock == history::latest_or(events, trim_unlock(side), false)
            &&& forall|i: int|
                0 <= i < 4 ==> #[trigger] t.open[i] == history::latest_or(
                    events,
                    trim_door(i),
                    false,
                )
        }),
    decreases events.len(),
{
    if events.len() > 0 {
        lemma_trim(trim, events.drop_last(), side);
        let t = trim_run(trim@, events.drop_last());
        let u = trim_run(trim@, events);
        assert forall|i: int| 0 <= i < 4 implies #[trigger] u.open[i] == history::latest_or(
            events,
            trim_door(i),
            false,
        ) by {
            assert(t.open[i] == history::latest_or(events.drop_last(), trim_door(i), false));
        }
    }
}

/// Over every run a lock button asks to lock all doors exactly when it is pressed,
/// was not seen pressed last, and the latest status is not double locked. The
/// request is one of a slam lock exactly when a door was seen open last on a
/// vehicle line without slam-lock protection.
pub proof fn law_trim_lock_follows_latest_inputs(
    trim: DoorTrimButton,
    events: Seq<TrimEvent>,
    side: SideLabel,
    v: Value,
    config: PlatformConfig,
)
    requires
        call_ensures(DoorTrimButton::new, (), trim),
    ensures
        trim_run(trim@, events).after_lock(side, v, config).1 == if v == Value::Bool(true)
            && history::latest(events, trim_lock(side)) != Some(true) && history::latest(
            events,
            trim_status(),
        ) != Some("DOUBLE_LOCKED"@) {
            Some(
                DoorLockRequest {
                    command: LockCommand::LockAll,
                    feature_id: if trim_any_open(events)
                        && !config.vehicle_line.slam_lock_protect {
                        FeatureId::SlamLock
                    } else {
                        FeatureId::DoorTrimButton
                    },
                },
            )
        } else {
            None
        },
{
    lemma_trim(trim, events, side);
    let t = trim_run(trim@, events);
    reveal_strlit("UNLOCKED");
    reveal_strlit("DOUBLE_LOCKED");
    assert("UNLOCKED"@.len() == 8 && "DOUBLE_LOCKED"@.len() == 13);
    assert(doors::any(t.open) == trim_any_open(events)) by {
        if doors::any(t.open) {
            let i = choose|i: int| 0 <= i < t.open.len() && #[trigger] t.open[i];
            assert(history::latest(events, trim_door(i)) == Some(true));
        }
        if trim_any_open(events) {
            let i = choose|i: int|
                0 <= i < 4 && #[trigger] history::latest(events, trim_door(i)) == Some(true);
            assert(t.open[i]);
        }
    }
}

/// Over every run an unlock button asks for something exactly when it is pressed,
/// was not seen pressed last, and the latest status is not double locked. It asks
/// for the driver door only on the side of the driver, with two-stage unlocking,
/// and unless the driver door was seen unlocked last. Else it asks for all doors.
pub proof fn law_trim_unlock_follows_latest_inputs(
    trim: DoorTrimButton,
    events: Seq<TrimEvent>,
    side: SideLabel,
    v: Value,
    config: PlatformConfig,
)
    requires
        call_ensures(DoorTrimButton::new, (), trim),
    ensures
        ({
            let status = history::latest(events, trim_status());
            let driver = match config.dealer.driver_door_side {
                DriverDoorSide::Left => side is Left,
                DriverDoorSide::Right => side is Right,
            };
            trim_run(trim@, events).after_unlock(side, v, config).1 == if v == Value::Bool(true)
                && history::latest(events, trim_unlock(side)) != Some(true) && status != Some(
                "DOUBLE_LOCKED"@,
            ) {
                Some(
                    DoorLockRequest {
                        command: if driver && config.dealer.two_stage_unlock && status != Some(
                            "DRIVER_UNLOCKED"@,
                        ) {
                            LockCommand::UnlockDriver
                        } else {
                            LockCommand::UnlockAll
                        },
                        feature_id: FeatureId::DoorTrimButton,
                    },
                )
            } else {
                None
            }
        }),
{
    lemma_trim(trim, events, side);
    reveal_strlit("UNLOCKED");
    reveal_strlit("DOUBLE_LOCKED");
    reveal_strlit("DRIVER_UNLOCKED");
    assert("UNLOCKED"@.len() == 8 && "DOUBLE_LOCKED"@.len() == 13);
    assert("DRIVER_UNLOCKED"@.len() == 15);
}

/// Something that happens to the child locks.
pub enum ChildEvent {
    Left(Value),
    Right(Value),
}

/// The child locks after a run of events.
pub open spec fn child_run(s: ChildLock, events: Seq<ChildEvent>) -> ChildLock
    decreases events.len(),
{
    if events.len() == 0 {
        s
    } else {
        let t = child_run(s, events.drop_last());
        match events.last() {
            ChildEvent::Left(v) => t.after_left(v).0,
            ChildEvent::Right(v) => t.after_right(v).0,
        }
    }
}

/// Reads off an event whether the push of a side is held.
pub open spec fn child_push(left: bool) -> spec_fn(ChildEvent) -> Option<bool> {
    |e: ChildEvent|
        match e {
            ChildEvent::Left(v) => if left {
                Some(v == Value::Bool(true))
            } else {
                None
            },
            ChildEvent::Right(v) => if left {
                None
            } else {
                Some(v == Value::Bool(true))
            },
        }
}

/// How many pushes of a side there were: changes from not held to held.
pub open spec fn pushes(left: bool, events: Seq<ChildEvent>) -> nat
    decreases events.len(),
{
    if events.len() == 0 {
        0
    } else {
        let before = events.drop_last();
        pushes(left, before) + if child_push(left)(events.last()) == Some(true)
            && !history::latest_or(before, child_push(left), false) {
            1nat
        } else {
            0nat
        }
    }
}

proof fn lemma_child(s: ChildLock, events: Seq<ChildEvent>)
    requires
        call_ensures(ChildLock::new, (), s),
    ensures
        ({
            let t = child_run(s, events);
            &&& t.left.latched == (pushes(true, events) % 2 == 1)
            &&& t.right.latched == (pushes(false, events) % 2 == 1)
            &&& t.left.pressed == history::latest_or(events, child_push(true), false)
            &&& t.right.pressed == history::latest_or(events, child_push(false), false)
        }),
    decreases events.len(),
{
    if events.len() > 0 {
        lemma_child(s, events.drop_last());
    }
}

/// Over every run the child lock of a side is on exactly when the pushes on that
/// side are odd in number. A push puts out the new state on the signal of its
/// side, and nothing else puts anything out.
pub proof fn law_child_lock_counts_pushes(s: ChildLock, events: Seq<ChildEvent>, v: Value)
    requires
        call_ensures(ChildLock::new, (), s),
    ensures
        child_run(s, events).left.latched == (pushes(true, events) % 2 == 1),
        child_run(s, events).right.latched == (pushes(false, events) % 2 == 1),
        child_run(s, events).after_left(v).1 == if v == Value::Bool(true) && history::latest(
            events,
            child_push(true),
        ) != Some(true) {
            seq![
                Effect::publish(child_lock::OUT_L, Value::Bool(pushes(true, events) % 2 == 0)),
            ]
        } else {
            Seq::empty()
        },
        child_run(s, events).after_right(v).1 == if v == Value::Bool(true) && history::latest(
            events,
            child_push(false),
        ) != Some(true) {
            seq![
                Effect::publish(child_lock::OUT_R, Value::Bool(pushes(false, events) % 2 == 0)),
            ]
        } else {
            Seq::empty()
        },
{
    lemma_child(s, events);
}

/// Something that happens to the mirror adjustment.
pub enum AdjustEvent {
    Select(Value),
    Direction(Value),
}

/// The mirror adjustment after a run of events, and the effects.
pub open spec fn adjust_run(s: AdjustState, events: Seq<AdjustEvent>) -> (AdjustState, Seq<Effect>)
    decreases events.len(),
{
    if events.len() == 0 {
        (s, Seq::empty())
    } else {
        let (t, before) = adjust_run(s, events.drop_last());
        let (u, last) = match events.last() {
            AdjustEvent::Select(v) => t.after_select(v),
            AdjustEvent::Direction(v) => t.after_direction(v),
        };
        (u, before + last)
    }
}

/// Reads off an event the text of the selection.
pub open spec fn select_seen() -> spec_fn(AdjustEvent) -> Option<Seq<char>> {
    |e: AdjustEvent|
        match e {
            AdjustEvent::Select(Value::Text(t)) => Some(t),
            _ => None,
        }
}

/// Reads off an event the text of the joystick.
pub open spec fn direction_seen() -> spec_fn(AdjustEvent) -> Option<Seq<char>> {
    |e: AdjustEvent|
        match e {
            AdjustEvent::Direction(Value::Text(t)) => Some(t),
            _ => None,
        }
}

/// The command that a history calls for at the mirror with this name: the latest
/// direction of the joystick if the mirror was selected last, none otherwise.
pub open spec fn command_due(mirror: Seq<char>, events: Seq<AdjustEvent>) -> Seq<char> {
    match history::latest(events, direction_seen()) {
        Some(d) => if history::latest(events, select_seen()) == Some(mirror) && (d == "UP"@ || d
            == "DOWN"@ || d == "LEFT"@ || d == "RIGHT"@) {
            d
        } else {
            "NONE"@
        },
        None => "NONE"@,
    }
}

proof fn lemma_adjust(adjust: MirrorAdjust, events: Seq<AdjustEvent>)
    requires
        call_ensures(MirrorAdjust::new, (), adjust),
    ensures
        adjust_run(adjust@, events).0.left() == command_due("LEFT"@, events),
        adjust_run(adjust@, events).0.right() == command_due("RIGHT"@, events),
        adjust_run(adjust@, events).0.direction == history::latest_or(
            events,
            direction_seen(),
            "NONE"@,
        ),
        ({
            let t = adjust_run(adjust@, events).0;
            &&& (t.select is Left) == (history::latest(events, select_seen()) == Some("LEFT"@))
            &&& (t.select is Right) == (history::latest(events, select_seen()) == Some("RIGHT"@))
        }),
    decreases events.len(),
{
    reveal_strlit("LEFT");
    reveal_strlit("RIGHT");
    assert("LEFT"@.len() == 4 && "RIGHT"@.len() == 5);
    if events.len() > 0 {
        lemma_adjust(adjust, events.drop_last());
    }
}

/// Over every run, from what is put out at start-up on, the command that stands
/// for each mirror is the one that the history calls for.
pub proof fn law_mirrors_follow_latest_inputs(adjust: MirrorAdjust, events: Seq<AdjustEvent>)
    requires
        call_ensures(MirrorAdjust::new, (), adjust),
    ensures
        ({
            let out = adjust@.commands() + adjust_run(adjust@, events).1;
            &&& history::shown(out, mirror_adjust::CMD_LEFT) == Some(
                Value::Text(command_due("LEFT"@, events)),
            )
            &&& history::shown(out, mirror_adjust::CMD_RIGHT) == Some(
                Value::Text(command_due("RIGHT"@, events)),
            )
        }),
    decreases events.len(),
{
    reveal_strlit("Body.Mirror.Left.AdjustCmd");
    reveal_strlit("Body.Mirror.Right.AdjustCmd");
    assert(mirror_adjust::CMD_LEFT@.len() != mirror_adjust::CMD_RIGHT@.len());
    lemma_adjust(adjust, events);
    let first = adjust@.commands();
    let left = history::published_on(mirror_adjust::CMD_LEFT@);
    let right = history::published_on(mirror_adjust::CMD_RIGHT@);
    if events.len() == 0 {
        assert(first + adjust_run(adjust@, events).1 =~= first);
        history::lemma_latest_of_few(first, left);
        history::lemma_latest_of_few(first, right);
    } else {
        let rest = events.drop_last();
        let (t, before) = adjust_run(adjust@, rest);
        law_mirrors_follow_latest_inputs(adjust, rest);
        lemma_adjust(adjust, rest);
        let last = match events.last() {
            AdjustEvent::Select(v) => t.after_select(v).1,
            AdjustEvent::Direction(v) => t.after_direction(v).1,
        };
        assert(first + adjust_run(adjust@, events).1 =~= (first + before) + last);
        history::lemma_latest_of_two(first + before, last, left);
        history::lemma_latest_of_two(first + before, last, right);
        history::lemma_latest_of_few(last, left);
        history::lemma_latest_of_few(last, right);
    }
}

/// The mirror fold after a run of events, each in a mode, and what was stored.
pub open spec fn fold_run(s: FoldState, events: Seq<(FoldEvent, MirrorFoldMode)>) -> (
    FoldState,
    Seq<bool>,
)
    decreases events.len(),
{
    if events.len() == 0 {
        (s, Seq::empty())
    } else {
        let (t, before) = fold_run(s, events.drop_last());
        let (u, saved, _) = t.after(events.last().0, events.last().1);
        (
            u,
            match saved {
                Some(b) => before.push(b),
                None => before,
            },
        )
    }
}

/// Reads off an event the text of the lock status.
pub open spec fn fold_status() -> spec_fn((FoldEvent, MirrorFoldMode)) -> Option<Seq<char>> {
    |e: (FoldEvent, MirrorFoldMode)|
        match e.0 {
            FoldEvent::LockStatus(Value::Text(t)) => Some(t),
            _ => None,
        }
}

/// Reads off an event whether the switch is pressed.
pub open spec fn fold_switch() -> spec_fn((FoldEvent, MirrorFoldMode)) -> Option<bool> {
    |e: (FoldEvent, MirrorFoldMode)|
        match e.0 {
            FoldEvent::Switch(v) => Some(v == Value::Bool(true)),
            _ => None,
        }
}

/// Reads off an event whether the left mirror is folded.
pub open spec fn fold_left() -> spec_fn((FoldEvent, MirrorFoldMode)) -> Option<bool> {
    |e: (FoldEvent, MirrorFoldMode)|
        match e.0 {
            FoldEvent::Left(Value::Bool(b)) => Some(b),
            _ => None,
        }
}

/// Reads off an event whether the right mirror is folded.
pub open spec fn fold_right() -> spec_fn((FoldEvent, MirrorFoldMode)) -> Option<bool> {
    |e: (FoldEvent, MirrorFoldMode)|
        match e.0 {
            FoldEvent::Right(Value::Bool(b)) => Some(b),
            _ => None,
        }
}

proof fn lemma_fold(
    fold: MirrorFold,
    stored: bool,
    events: Seq<(FoldEvent, MirrorFoldMode)>,
)
    requires
        call_ensures(MirrorFold::with_nvm, (stored,), fold),
    ensures
        ({
            let (t, saved) = fold_run(fold@, events);
            &&& t.status == history::latest_or(events, fold_status(), "UNLOCKED"@)
            &&& t.pressed == history::latest_or(events, fold_switch(), false)
            &&& t.left_folded == history::latest_or(events, fold_left(), false)
            &&& t.right_folded == history::latest_or(events, fold_right(), false)
            &&& t.last_cmd == if saved.len() == 0 {
                stored
            } else {
                saved.last()
            }
        }),
    decreases events.len(),
{
    if events.len() > 0 {
        lemma_fold(fold, stored, events.drop_last());
    }
}

/// The position that an event asks for after a history, if it asks for one: a
/// press the opposite of what was stored last, unless the mode is off, and in the
/// automatic mode a lock status that differs from the latest one folded for locked
/// and unfolded for unlocked.
pub open spec fn fold_target(
    stored: bool,
    events: Seq<(FoldEvent, MirrorFoldMode)>,
    event: FoldEvent,
    mode: MirrorFoldMode,
) -> Option<bool> {
    match event {
        FoldEvent::Switch(v) => if v == Value::Bool(true) && history::latest(
            events,
            fold_switch(),
        ) != Some(true) && mode !is Off {
            Some(!stored)
        } else {
            None
        },
        FoldEvent::LockStatus(Value::Text(t)) => if mode is Auto && t != history::latest_or(
            events,
            fold_status(),
            "UNLOCKED"@,
        ) {
            if t == "LOCKED"@ || t == "DOUBLE_LOCKED"@ {
                Some(true)
            } else if t == "UNLOCKED"@ || t == "DRIVER_UNLOCKED"@ {
                Some(false)
            } else {
                None
            }
        } else {
            None
        },
        _ => None,
    }
}

/// Over every run, from whatever direction was stored before the power cycle, an
/// event that asks for a position stores it, and commands exactly the mirrors that
/// were not seen there last, the left one first. Every other event stores and
/// commands nothing.
pub proof fn law_fold_follows_latest_inputs(
    fold: MirrorFold,
    first: bool,
    events: Seq<(FoldEvent, MirrorFoldMode)>,
    event: FoldEvent,
    mode: MirrorFoldMode,
)
    requires
        call_ensures(MirrorFold::with_nvm, (first,), fold),
    ensures
        ({
            let (t, saved) = fold_run(fold@, events);
            let stored = if saved.len() == 0 {
                first
            } else {
                saved.last()
            };
            let (_, save, out) = t.after(event, mode);
            let target = fold_target(stored, events, event, mode);
            &&& save == target
            &&& target is None ==> out == Seq::<Effect>::empty()
            &&& target matches Some(folded) ==> out == (if history::latest_or(
                events,
                fold_left(),
                false,
            ) != folded {
                seq![Effect::publish(mirror_fold::CMD_LEFT, Value::Bool(folded))]
            } else {
                Seq::empty()
            }) + (if history::latest_or(events, fold_right(), false) != folded {
                seq![Effect::publish(mirror_fold::CMD_RIGHT, Value::Bool(folded))]
            } else {
                Seq::empty()
            })
        }),
{
    lemma_fold(fold, first, events);
    let (t, saved) = fold_run(fold@, events);
    mirror_fold::law_auto_mode_follows_lock(t, t.status);
    reveal_strlit("LOCKED");
    reveal_strlit("DOUBLE_LOCKED");
    reveal_strlit("UNLOCKED");
    reveal_strlit("DRIVER_UNLOCKED");
    assert("LOCKED"@.len() == 6 && "DOUBLE_LOCKED"@.len() == 13);
    assert("UNLOCKED"@.len() == 8 && "DRIVER_UNLOCKED"@.len() == 15);
}

/// At start-up both child locks are shown off, and a press of the trunk button that
/// gets no result of its search opens nothing.
pub proof fn law_boot_and_missing_results(child: ChildLock, boot: Vec<Output>, r: Vec<Output>)
    requires
        call_ensures(ChildLock::boot, (&child,), boot),
        call_ensures(ExteriorTrunkButton::on_search, (None,), r),
    ensures
        history::shown(Effect::all(boot@), child_lock::OUT_L) == Some(Value::Bool(false)),
        history::shown(Effect::all(boot@), child_lock::OUT_R) == Some(Value::Bool(false)),
        r@.len() == 0,
{
    reveal_strlit("Body.Doors.Row2.Left.IsChildLockActive");
    reveal_strlit("Body.Doors.Row2.Right.IsChildLockActive");
    assert(child_lock::OUT_L@.len() != child_lock::OUT_R@.len());
    let out = Effect::all(boot@);
    history::lemma_latest_of_few(out, history::published_on(child_lock::OUT_L@));
    history::lemma_latest_of_few(out, history::published_on(child_lock::OUT_R@));
    assert(Effect::all(r@).len() == r@.len());
}

} // verus!
