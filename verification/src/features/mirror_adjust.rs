//! Mirror adjust: routes the joystick to the mirror that is selected.

use vstd::prelude::*;

use crate::ipc_message::{SignalValue, Value};
use crate::signal_bus::{no_outputs, publish_text, same_text, Effect, Output, VssPath};

verus! {

/// Which mirror is selected.
pub const SWITCH_SELECT: VssPath = "Body.Switches.Mirror.Select";

/// Direction of the joystick.
pub const SWITCH_DIRECTION: VssPath = "Body.Switches.Mirror.Direction";

/// Command to the left mirror.
pub const CMD_LEFT: VssPath = "Body.Mirror.Left.AdjustCmd";

/// Command to the right mirror.
pub const CMD_RIGHT: VssPath = "Body.Mirror.Right.AdjustCmd";

/// The mirror that is selected.
#[derive(Debug, Clone, Copy, PartialEq, Eq, Structural)]
pub enum Selected {
    Neither,
    Left,
    Right,
}

impl Selected {
    /// The mirror that a text selects.
    pub open spec fn named(s: Seq<char>) -> Selected {
        if s == "LEFT"@ {
            Selected::Left
        } else if s == "RIGHT"@ {
            Selected::Right
        } else {
            Selected::Neither
        }
    }

    /// The mirror that a text selects. Every other text selects none.
    pub fn from_str_value(s: &str) -> (r: Selected)
        ensures
            r == Selected::named(s@),
    {
        if same_text(s, "LEFT") {
            Selected::Left
        } else if same_text(s, "RIGHT") {
            Selected::Right
        } else {
            Selected::Neither
        }
    }
}

/// The direction that is commanded for a text of the joystick.
pub open spec fn direction_for(s: Seq<char>) -> Seq<char> {
    if s == "UP"@ || s == "DOWN"@ || s == "LEFT"@ || s == "RIGHT"@ {
        s
    } else {
        "NONE"@
    }
}

/// State of the feature.
pub struct AdjustState {
    pub select: Selected,
    pub direction: Seq<char>,
}

impl AdjustState {
    /// The state at start-up.
    pub open spec fn initial() -> AdjustState {
        AdjustState { select: Selected::Neither, direction: "NONE"@ }
    }

    /// The command to the left mirror.
    pub open spec fn left(self) -> Seq<char> {
        if self.select is Left {
            direction_for(self.direction)
        } else {
            "NONE"@
        }
    }

    /// The command to the right mirror.
    pub open spec fn right(self) -> Seq<char> {
        if self.select is Right {
            direction_for(self.direction)
        } else {
            "NONE"@
        }
    }

    /// The effects of commanding both mirrors.
    pub open spec fn commands(self) -> Seq<Effect> {
        seq![
            Effect::publish(CMD_LEFT, Value::Text(self.left())),
            Effect::publish(CMD_RIGHT, Value::Text(self.right())),
        ]
    }

    /// The state and the effects after a value of the selection.
    pub open spec fn after_select(self, v: Value) -> (AdjustState, Seq<Effect>) {
        match v {
            Value::Text(t) => if Selected::named(t) == self.select {
                (self, Seq::empty())
            } else {
                let s = AdjustState { select: Selected::named(t), ..self };
                (s, s.commands())
            },
            _ => (self, Seq::empty()),
        }
    }

    /// The state and the effects after a value of the joystick.
    pub open spec fn after_direction(self, v: Value) -> (AdjustState, Seq<Effect>) {
        match v {
            Value::Text(t) => if t == self.direction {
                (self, Seq::empty())
            } else {
                let s = AdjustState { direction: t, ..self };
                (s, s.commands())
            },
            _ => (self, Seq::empty()),
        }
    }
}

/// The mirror-adjust feature.
pub struct MirrorAdjust {
    select: Selected,
    direction: String,
}

impl View for MirrorAdjust {
    type V = AdjustState;

    closed spec fn view(&self) -> AdjustState {
        AdjustState { select: self.select, direction: self.direction@ }
    }
}

impl MirrorAdjust {
    /// The feature with no mirror selected and the joystick released.
    pub fn new() -> (r: MirrorAdjust)
        ensures
            r@ == AdjustState::initial(),
    {
        MirrorAdjust { select: Selected::Neither, direction: "NONE".to_owned() }
    }

    /// The commands to the left and to the right mirror.
    pub fn resolve(&self) -> (r: (&'static str, &'static str))
        ensures
            r.0@ == self@.left(),
            r.1@ == self@.right(),
    {
        let d = self.direction.as_str();
        let dir = if same_text(d, "UP") {
            "UP"
        } else if same_text(d, "DOWN") {
            "DOWN"
        } else if same_text(d, "LEFT") {
            "LEFT"
        } else if same_text(d, "RIGHT") {
            "RIGHT"
        } else {
            "NONE"
        };
        match self.select {
            Selected::Left => (dir, "NONE"),
            Selected::Right => ("NONE", dir),
            Selected::Neither => ("NONE", "NONE"),
        }
    }

    /// The commands to both mirrors: at start-up, and whenever an input changes.
    pub fn publish(&self) -> (r: Vec<Output>)
        ensures
            Effect::all(r@) == self@.commands(),
    {
        let (left, right) = self.resolve();
        let r = vec![publish_text(CMD_LEFT, left), publish_text(CMD_RIGHT, right)];
        assert(Effect::all(r@) =~= self@.commands());
        r
    }

    /// Takes a value of the selection.
    pub fn on_select(&mut self, val: &SignalValue) -> (r: Vec<Output>)
        ensures
            (final(self)@, Effect::all(r@)) == old(self)@.after_select(val@),
    {
        if let SignalValue::String(s) = val {
            let new_select = Selected::from_str_value(s.as_str());
            if new_select != self.select {
                self.select = new_select;
                return self.publish();
            }
        }
        no_outputs()
    }

    /// Takes a value of the joystick.
    pub fn on_direction(&mut self, val: &SignalValue) -> (r: Vec<Output>)
        ensures
            (final(self)@, Effect::all(r@)) == old(self)@.after_direction(val@),
    {
        if let SignalValue::String(s) = val {
            if !same_text(s.as_str(), self.direction.as_str()) {
                self.direction = s.clone();
                return self.publish();
            }
        }
        no_outputs()
    }
}

/// At most one mirror moves at a time, and none while none is selected or the
/// joystick is released.
pub proof fn law_one_mirror_at_a_time(s: AdjustState)
    ensures
        s.left() == "NONE"@ || s.right() == "NONE"@,
        s.select is Neither || s.direction == "NONE"@ ==> s.left() == "NONE"@ && s.right()
            == "NONE"@,
{
}

/// Changing the selection during a press releases the mirror that moved, and the
/// other one takes the direction over.
pub proof fn law_selection_moves_the_press(s: AdjustState)
    ensures
        s.select is Left ==> {
            let next = s.after_select(Value::Text("RIGHT"@)).0;
            next.left() == "NONE"@ && next.right() == s.left()
        },
        s.select is Right ==> {
            let next = s.after_select(Value::Text("LEFT"@)).0;
            next.right() == "NONE"@ && next.left() == s.right()
        },
{
    reveal_strlit("LEFT");
    reveal_strlit("RIGHT");
    assert("LEFT"@.len() != "RIGHT"@.len());
}

} // verus!
