//! Mirror fold: folds and unfolds the side mirrors by switch, and in automatic
//! mode with the lock status too.
//!
//! The direction commanded last survives power cycles. Only a mirror that is not
//! yet in the wanted position is commanded.

use vstd::prelude::*;

use crate::arbiter::door_lock::{
    STATUS_DOUBLE_LOCKED, STATUS_DRIVER_UNLOCKED, STATUS_LOCKED, STATUS_UNLOCKED,
};
use crate::config::MirrorFoldMode;
use crate::ipc_message::{SignalValue, Value};
use crate::signal_bus::{no_outputs, publish_bool, same_text, Effect, Output, VssPath};

verus! {

/// Fold switch.
pub const SWITCH_FOLD: VssPath = "Body.Switches.Mirror.Fold";

/// Position of the left mirror.
pub const FB_LEFT: VssPath = "Body.Mirror.Left.IsFolded";

/// Position of the right mirror.
pub const FB_RIGHT: VssPath = "Body.Mirror.Right.IsFolded";

/// Command to the left mirror.
pub const CMD_LEFT: VssPath = "Body.Mirror.Left.FoldCmd";

/// Command to the right mirror.
pub const CMD_RIGHT: VssPath = "Body.Mirror.Right.FoldCmd";

/// The position that a lock status asks for, if any: folded or not.
pub open spec fn target_for(status: Seq<char>) -> Option<bool> {
    if status == STATUS_LOCKED@ || status == STATUS_DOUBLE_LOCKED@ {
        Some(true)
    } else if status == STATUS_UNLOCKED@ || status == STATUS_DRIVER_UNLOCKED@ {
        Some(false)
    } else {
        None
    }
}

/// The position that a lock status asks for, if any: folded or not.
pub fn auto_target_for(status: &str) -> (r: Option<bool>)
    ensures
        r == target_for(status@),
{
    if same_text(status, STATUS_LOCKED) || same_text(status, STATUS_DOUBLE_LOCKED) {
        Some(true)
    } else if same_text(status, STATUS_UNLOCKED) || same_text(status, STATUS_DRIVER_UNLOCKED) {
        Some(false)
    } else {
        None
    }
}

/// What a trigger leads to.
#[derive(Debug)]
pub struct FoldAction {
    /// The direction to be stored, before anything is commanded.
    pub save: Option<bool>,
    pub outputs: Vec<Output>,
}

/// State of the feature.
#[verifier::ext_equal]
pub struct FoldState {
    /// The direction commanded last.
    pub last_cmd: bool,
    pub left_folded: bool,
    pub right_folded: bool,
    /// The cabin lock status seen last.
    pub status: Seq<char>,
    /// The switch is pressed.
    pub pressed: bool,
}

/// Something that happens to the feature.
pub enum FoldEvent {
    Switch(Value),
    LockStatus(Value),
    Left(Value),
    Right(Value),
}

impl FoldState {
    /// The state at start-up, with the direction that was stored.
    pub open spec fn initial(last_cmd: bool) -> FoldState {
        FoldState {
            last_cmd,
            left_folded: false,
            right_folded: false,
            status: STATUS_UNLOCKED@,
            pressed: false,
        }
    }

    /// The commands that bring both mirrors to the target.
    pub open spec fn commands(self, target: bool) -> Seq<Effect> {
        let left = Effect::publish(CMD_LEFT, Value::Bool(target));
        let right = Effect::publish(CMD_RIGHT, Value::Bool(target));
        if self.left_folded != target && self.right_folded != target {
            seq![left, right]
        } else if self.left_folded != target {
            seq![left]
        } else if self.right_folded != target {
            seq![right]
        } else {
            Seq::empty()
        }
    }

    /// The state, what is stored, and the commands, for a target: the target is
    /// stored whether or not a mirror has to move.
    pub open spec fn applied(self, target: bool) -> (FoldState, Option<bool>, Seq<Effect>) {
        (FoldState { last_cmd: target, ..self }, Some(target), self.commands(target))
    }

    /// The state, what is stored, and the commands, after an event.
    pub open spec fn after(self, event: FoldEvent, mode: MirrorFoldMode) -> (
        FoldState,
        Option<bool>,
        Seq<Effect>,
    ) {
        match event {
            FoldEvent::Switch(v) => {
                let s = FoldState { pressed: v == Value::Bool(true), ..self };
                if !self.pressed && s.pressed && mode != MirrorFoldMode::Off {
                    s.applied(!self.last_cmd)
                } else {
                    (s, None, Seq::empty())
                }
            },
            FoldEvent::LockStatus(v) => match v {
                Value::Text(t) => {
                    let s = FoldState { status: t, ..self };
                    if t != self.status && mode == MirrorFoldMode::Auto && target_for(t) is Some {
                        s.applied(target_for(t)->0)
                    } else {
                        (s, None, Seq::empty())
                    }
                },
                _ => (self, None, Seq::empty()),
            },
            FoldEvent::Left(v) => match v.flag() {
                Some(b) => (FoldState { left_folded: b, ..self }, None, Seq::empty()),
                None => (self, None, Seq::empty()),
            },
            FoldEvent::Right(v) => match v.flag() {
                Some(b) => (FoldState { right_folded: b, ..self }, None, Seq::empty()),
                None => (self, None, Seq::empty()),
            },
        }
    }
}

/// The mirror-fold feature.
pub struct MirrorFold {
    last_fold_cmd: bool,
    left_folded: bool,
    right_folded: bool,
    last_lock_status: String,
    last_switch_state: bool,
}

impl View for MirrorFold {
    type V = FoldState;

    closed spec fn view(&self) -> FoldState {
        FoldState {
            last_cmd: self.last_fold_cmd,
            left_folded: self.left_folded,
            right_folded: self.right_folded,
            status: self.last_lock_status@,
            pressed: self.last_switch_state,
        }
    }
}

impl MirrorFold {
    /// The feature with nothing stored.
    pub fn new() -> (r: MirrorFold)
        ensures
            r@ == FoldState::initial(false),
    {
        MirrorFold::with_nvm(false)
    }

    /// The feature with the direction that was stored.
    pub fn with_nvm(last_fold_cmd: bool) -> (r: MirrorFold)
        ensures
            r@ == FoldState::initial(last_fold_cmd),
    {
        MirrorFold {
            last_fold_cmd,
            left_folded: false,
            right_folded: false,
            last_lock_status: STATUS_UNLOCKED.to_owned(),
            last_switch_state: false,
        }
    }

    fn nothing() -> (r: FoldAction)
        ensures
            r.save is None,
            Effect::all(r.outputs@) == Seq::<Effect>::empty(),
    {
        FoldAction { save: None, outputs: no_outputs() }
    }

    fn apply_target(&mut self, target: bool) -> (r: FoldAction)
        ensures
            (final(self)@, r.save, Effect::all(r.outputs@)) == old(self)@.applied(target),
    {
        let ghost before = self@;
        let need_left = self.left_folded != target;
        let need_right = self.right_folded != target;
        let mut outputs: Vec<Output> = Vec::new();
        if need_left {
            outputs.push(publish_bool(CMD_LEFT, target));
        }
        if need_right {
            outputs.push(publish_bool(CMD_RIGHT, target));
        }
        assert(Effect::all(outputs@) =~= before.commands(target));
        self.last_fold_cmd = target;
        FoldAction { save: Some(target), outputs }
    }

    /// Takes a value of the switch: a press folds or unfolds, whichever was not
    /// commanded last.
    pub fn on_switch(&mut self, val: &SignalValue, mode: MirrorFoldMode) -> (r: FoldAction)
        ensures
            (final(self)@, r.save, Effect::all(r.outputs@)) == old(self)@.after(
                FoldEvent::Switch(val@),
                mode,
            ),
    {
        let new_state = val.is_true();
        let rising = !self.last_switch_state && new_state;
        self.last_switch_state = new_state;
        if !rising || mode == MirrorFoldMode::Off {
            return MirrorFold::nothing();
        }
        let target = !self.last_fold_cmd;
        self.apply_target(target)
    }

    /// Takes a value of the cabin lock status.
    pub fn on_lock_status(&mut self, val: &SignalValue, mode: MirrorFoldMode) -> (r: FoldAction)
        ensures
            (final(self)@, r.save, Effect::all(r.outputs@)) == old(self)@.after(
                FoldEvent::LockStatus(val@),
                mode,
            ),
    {
        let new_status = match val {
            SignalValue::String(s) => s,
            _ => {
                return MirrorFold::nothing();
            },
        };
        let same = same_text(self.last_lock_status.as_str(), new_status.as_str());
        self.last_lock_status = new_status.clone();
        if same || mode != MirrorFoldMode::Auto {
            return MirrorFold::nothing();
        }
        match auto_target_for(new_status.as_str()) {
            Some(target) => self.apply_target(target),
            None => MirrorFold::nothing(),
        }
    }

    /// Takes a value of the position of the left mirror.
    pub fn on_left_folded(&mut self, val: &SignalValue)
        ensures
            forall|mode: MirrorFoldMode|
                final(self)@ == (#[trigger] old(self)@.after(FoldEvent::Left(val@), mode)).0,
    {
        if let Some(b) = val.as_bool() {
            self.left_folded = b;
        }
    }

    /// Takes a value of the position of the right mirror.
    pub fn on_right_folded(&mut self, val: &SignalValue)
        ensures
            forall|mode: MirrorFoldMode|
                final(self)@ == (#[trigger] old(self)@.after(FoldEvent::Right(val@), mode)).0,
    {
        if let Some(b) = val.as_bool() {
            self.right_folded = b;
        }
    }
}

/// In the off mode nothing is ever commanded or stored.
pub proof fn law_off_mode_is_inert(s: FoldState, event: FoldEvent)
    ensures
        s.after(event, MirrorFoldMode::Off).1 is None,
        s.after(event, MirrorFoldMode::Off).2 == Seq::<Effect>::empty(),
{
}

/// In the manual mode the lock status commands nothing.
pub proof fn law_manual_mode_ignores_lock(s: FoldState, v: Value)
    ensures
        s.after(FoldEvent::LockStatus(v), MirrorFoldMode::Manual).1 is None,
        s.after(FoldEvent::LockStatus(v), MirrorFoldMode::Manual).2 == Seq::<Effect>::empty(),
{
}

/// Each press turns the direction around: two presses, with a release between,
/// come back to the first.
pub proof fn law_press_toggles(s: FoldState, release: Value, mode: MirrorFoldMode)
    requires
        !s.pressed,
        mode != MirrorFoldMode::Off,
        release != Value::Bool(true),
    ensures
        ({
            let once = s.after(FoldEvent::Switch(Value::Bool(true)), mode);
            let twice = once.0.after(FoldEvent::Switch(release), mode).0.after(
                FoldEvent::Switch(Value::Bool(true)),
                mode,
            );
            &&& once.1 == Some(!s.last_cmd)
            &&& twice.1 == Some(s.last_cmd)
            &&& twice.0.last_cmd == s.last_cmd
        }),
{
}

/// Holding the switch does nothing more.
pub proof fn law_hold_does_not_repeat(s: FoldState, v: Value, mode: MirrorFoldMode)
    requires
        s.pressed,
    ensures
        s.after(FoldEvent::Switch(v), mode).1 is None,
        s.after(FoldEvent::Switch(v), mode).2 == Seq::<Effect>::empty(),
{
}

/// Only a mirror that is not in the wanted position is commanded.
pub proof fn law_only_differing_sides_move(s: FoldState, target: bool)
    ensures
        s.commands(target).contains(Effect::publish(CMD_LEFT, Value::Bool(target)))
            <==> s.left_folded != target,
        s.commands(target).contains(Effect::publish(CMD_RIGHT, Value::Bool(target)))
            <==> s.right_folded != target,
        s.commands(target).len() <= 2,
{
    reveal_strlit("Body.Mirror.Left.FoldCmd");
    reveal_strlit("Body.Mirror.Right.FoldCmd");
    assert(CMD_LEFT@.len() != CMD_RIGHT@.len());
    let left = Effect::publish(CMD_LEFT, Value::Bool(target));
    let right = Effect::publish(CMD_RIGHT, Value::Bool(target));
    let all = s.commands(target);
    if s.left_folded != target {
        assert(all[0] == left);
    }
    if s.right_folded != target {
        assert(all[all.len() - 1] == right);
    }
}

/// In the automatic mode a change of the lock status folds the mirrors when the
/// vehicle is locked and unfolds them when it is unlocked. A repeated status does
/// nothing.
pub proof fn law_auto_mode_follows_lock(s: FoldState, status: Seq<char>)
    ensures
        ({
            let next = s.after(FoldEvent::LockStatus(Value::Text(status)), MirrorFoldMode::Auto);
            if status == s.status || target_for(status) is None {
                next.1 is None && next.2 == Seq::<Effect>::empty()
            } else {
                next.0.last_cmd == target_for(status)->0 && next.1 == target_for(status) && next.2
                    == s.commands(target_for(status)->0)
            }
        }),
        target_for(STATUS_LOCKED@) == Some(true),
        target_for(STATUS_DOUBLE_LOCKED@) == Some(true),
        target_for(STATUS_UNLOCKED@) == Some(false),
        target_for(STATUS_DRIVER_UNLOCKED@) == Some(false),
{
    reveal_strlit("LOCKED");
    reveal_strlit("DOUBLE_LOCKED");
    reveal_strlit("UNLOCKED");
    reveal_strlit("DRIVER_UNLOCKED");
    assert(STATUS_LOCKED@.len() == 6 && STATUS_DOUBLE_LOCKED@.len() == 13
        && STATUS_UNLOCKED@.len() == 8 && STATUS_DRIVER_UNLOCKED@.len() == 15);
}

/// The event is a trigger that is accepted in this mode: a press of the switch
/// unless the mode is off, and in the automatic mode a change to a lock status
/// that asks for a position.
pub open spec fn triggers(s: FoldState, event: FoldEvent, mode: MirrorFoldMode) -> bool {
    match event {
        FoldEvent::Switch(v) => v == Value::Bool(true) && !s.pressed && mode != MirrorFoldMode::Off,
        FoldEvent::LockStatus(Value::Text(t)) => mode == MirrorFoldMode::Auto && t != s.status
            && target_for(t) is Some,
        _ => false,
    }
}

/// Every trigger that is accepted stores its direction, whether or not that differs
/// from the one stored before, and nothing else stores or commands anything. So the
/// direction commanded last is always what was stored last, and survives a power
/// cycle.
pub proof fn law_every_trigger_is_stored(s: FoldState, event: FoldEvent, mode: MirrorFoldMode)
    ensures
        triggers(s, event, mode) ==> s.after(event, mode).1 == Some(s.after(event, mode).0.last_cmd),
        !triggers(s, event, mode) ==> s.after(event, mode).1 is None && s.after(event, mode).2
            == Seq::<Effect>::empty() && s.after(event, mode).0.last_cmd == s.last_cmd,
{
}

} // verus!
