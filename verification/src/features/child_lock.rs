//! Child lock: each push on the driver panel turns the child lock of a rear door
//! on or off.

use vstd::prelude::*;

use crate::ipc_message::{SignalValue, Value};
use crate::signal_bus::{no_outputs, publish_bool, Effect, Output, VssPath};

verus! {

/// Push for the left rear door.
pub const PRESS_L: VssPath = "Body.Switches.ChildLock.Row2.Left.IsPressed";

/// Push for the right rear door.
pub const PRESS_R: VssPath = "Body.Switches.ChildLock.Row2.Right.IsPressed";

/// Child lock of the left rear door.
pub const OUT_L: VssPath = "Body.Doors.Row2.Left.IsChildLockActive";

/// Child lock of the right rear door.
pub const OUT_R: VssPath = "Body.Doors.Row2.Right.IsChildLockActive";

/// Push and child lock of one door.
#[derive(Debug, Clone, Copy, PartialEq, Eq)]
pub struct ChildLatch {
    /// The child lock is on.
    pub latched: bool,
    /// The push is held.
    pub pressed: bool,
}

/// The child-lock feature.
#[derive(Debug, Clone, Copy, PartialEq, Eq)]
pub struct ChildLock {
    pub left: ChildLatch,
    pub right: ChildLatch,
}

impl ChildLatch {
    /// The value is the beginning of a push.
    pub open spec fn pushes(self, v: Value) -> bool {
        v == Value::Bool(true) && !self.pressed
    }

    /// The state after a value of the push.
    pub open spec fn after(self, v: Value) -> ChildLatch {
        ChildLatch {
            latched: if self.pushes(v) {
                !self.latched
            } else {
                self.latched
            },
            pressed: v == Value::Bool(true),
        }
    }

    /// The effects of a value of the push, on the output `out`.
    pub open spec fn effects(self, v: Value, out: &str) -> Seq<Effect> {
        if self.pushes(v) {
            seq![Effect::publish(out, Value::Bool(!self.latched))]
        } else {
            Seq::empty()
        }
    }

    fn on_press(&mut self, val: &SignalValue, out: VssPath) -> (r: Vec<Output>)
        ensures
            *final(self) == old(self).after(val@),
            Effect::all(r@) == old(self).effects(val@, out),
    {
        let now = val.is_true();
        let rising = now && !self.pressed;
        self.pressed = now;
        if rising {
            self.latched = !self.latched;
            let r = vec![publish_bool(out, self.latched)];
            assert(Effect::all(r@) =~= seq![Effect::publish(out, Value::Bool(self.latched))]);
            r
        } else {
            no_outputs()
        }
    }
}

impl ChildLock {
    /// The state and the effects after a value of the left push.
    pub open spec fn after_left(self, v: Value) -> (ChildLock, Seq<Effect>) {
        (ChildLock { left: self.left.after(v), ..self }, self.left.effects(v, OUT_L))
    }

    /// The state and the effects after a value of the right push.
    pub open spec fn after_right(self, v: Value) -> (ChildLock, Seq<Effect>) {
        (ChildLock { right: self.right.after(v), ..self }, self.right.effects(v, OUT_R))
    }

    /// The feature with both child locks off.
    pub fn new() -> (r: ChildLock)
        ensures
            r == (ChildLock {
                left: ChildLatch { latched: false, pressed: false },
                right: ChildLatch { latched: false, pressed: false },
            }),
    {
        ChildLock {
            left: ChildLatch { latched: false, pressed: false },
            right: ChildLatch { latched: false, pressed: false },
        }
    }

    /// The outputs at start-up: both child locks are off.
    pub fn boot(&self) -> (r: Vec<Output>)
        ensures
            Effect::all(r@) == seq![
                Effect::publish(OUT_L, Value::Bool(false)),
                Effect::publish(OUT_R, Value::Bool(false)),
            ],
    {
        let r = vec![publish_bool(OUT_L, false), publish_bool(OUT_R, false)];
        assert(Effect::all(r@) =~= seq![
            Effect::publish(OUT_L, Value::Bool(false)),
            Effect::publish(OUT_R, Value::Bool(false)),
        ]);
        r
    }

    /// Takes a value of the left push.
    pub fn on_left(&mut self, val: &SignalValue) -> (r: Vec<Output>)
        ensures
            (*final(self), Effect::all(r@)) == old(self).after_left(val@),
    {
        self.left.on_press(val, OUT_L)
    }

    /// Takes a value of the right push.
    pub fn on_right(&mut self, val: &SignalValue) -> (r: Vec<Output>)
        ensures
            (*final(self), Effect::all(r@)) == old(self).after_right(val@),
    {
        self.right.on_press(val, OUT_R)
    }
}

/// Two pushes, with a release between, bring the child lock back.
pub proof fn law_two_pushes_undo_each_other(s: ChildLatch, release: Value)
    requires
        !s.pressed,
        release != Value::Bool(true),
    ensures
        s.after(Value::Bool(true)).latched == !s.latched,
        s.after(Value::Bool(true)).after(release).after(Value::Bool(true)).after(release) == s,
{
}

/// Holding and releasing change nothing.
pub proof fn law_only_pushes_count(s: ChildLatch, v: Value, out: &str)
    requires
        s.pressed || v != Value::Bool(true),
    ensures
        s.after(v).latched == s.latched,
        s.effects(v, out) == Seq::<Effect>::empty(),
{
}

} // verus!
