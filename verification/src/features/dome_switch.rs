//! Dome switch: the three-position switch of the interior light.
//!
//! The switch is the resting intent of the user. It claims the lamp at low
//! priority, so that courtesy and alarm sequences take over and give way again.

use vstd::prelude::*;

use crate::arbiter::tables::DOME;
use crate::features::doors;
use crate::features::doors::{any_set, no_flags};
use crate::ipc_message::{FeatureId, Priority, SignalValue, Value};
use crate::signal_bus::{
    claim_bool, no_outputs, publish_text, Domain, Effect, Output, VssPath,
};

verus! {

/// Position of the switch.
pub const SWITCH: VssPath = "Cabin.Lights.Dome.SwitchPosition";

/// Open-state signals of the doors.
pub const DOOR_OPEN_SIGNALS: [VssPath; 4] = [
    "Body.Doors.Row1.Left.IsOpen",
    "Body.Doors.Row1.Right.IsOpen",
    "Body.Doors.Row2.Left.IsOpen",
    "Body.Doors.Row2.Right.IsOpen",
];

/// Position of the switch.
#[derive(Debug, Clone, Copy, PartialEq, Eq, Structural)]
pub enum Pos {
    /// The lamp is off.
    Off,
    /// The lamp is on while a door is open.
    Door,
    /// The lamp is on.
    On,
}

impl Pos {
    /// The position that a value names, if it names one.
    pub open spec fn named(v: Value) -> Option<Pos> {
        if v == Value::Text("OFF"@) {
            Some(Pos::Off)
        } else if v == Value::Text("DOOR"@) {
            Some(Pos::Door)
        } else if v == Value::Text("ON"@) {
            Some(Pos::On)
        } else {
            None
        }
    }

    /// The position that a value names, if it names one.
    pub fn parse(v: &SignalValue) -> (r: Option<Pos>)
        ensures
            r == Pos::named(v@),
    {
        if v.is_text("OFF") {
            Some(Pos::Off)
        } else if v.is_text("DOOR") {
            Some(Pos::Door)
        } else if v.is_text("ON") {
            Some(Pos::On)
        } else {
            None
        }
    }
}

/// State of the feature.
#[verifier::ext_equal]
pub struct DomeState {
    pub pos: Pos,
    /// Which doors are open.
    pub open: Seq<bool>,
    /// What was claimed last.
    pub claimed: Option<bool>,
}

impl DomeState {
    /// The state before start-up.
    pub open spec fn initial() -> DomeState {
        DomeState { pos: Pos::Off, open: doors::none_set(), claimed: None }
    }

    /// The lamp is wanted on.
    pub open spec fn want(self) -> bool {
        match self.pos {
            Pos::Off => false,
            Pos::Door => doors::any(self.open),
            Pos::On => true,
        }
    }

    /// The effect of claiming the lamp.
    pub open spec fn claim(on: bool) -> Effect {
        Effect::claim(
            Domain::Courtesy,
            DOME,
            Value::Bool(on),
            Priority::Low,
            FeatureId::DomeSwitch,
        )
    }

    /// The state and the effects once the claim is brought up to date.
    pub open spec fn resolved(self) -> (DomeState, Seq<Effect>) {
        if self.claimed == Some(self.want()) {
            (self, Seq::empty())
        } else {
            (
                DomeState { claimed: Some(self.want()), ..self },
                seq![DomeState::claim(self.want())],
            )
        }
    }

    /// The claim is what is wanted.
    pub open spec fn valid(self) -> bool {
        self.open.len() == 4 && self.claimed == Some(self.want())
    }

    /// The state and the effects at start-up. A switch without a value is set off.
    pub open spec fn booted(self, switch_known: bool) -> (DomeState, Seq<Effect>) {
        let (s, out) = self.resolved();
        (
            s,
            if switch_known {
                out
            } else {
                seq![Effect::publish(SWITCH, Value::Text("OFF"@))] + out
            },
        )
    }

    /// The state and the effects after a value of the switch.
    pub open spec fn after_switch(self, v: Value) -> (DomeState, Seq<Effect>) {
        match Pos::named(v) {
            Some(pos) => if pos == self.pos {
                (self, Seq::empty())
            } else {
                (DomeState { pos, ..self }).resolved()
            },
            None => (self, Seq::empty()),
        }
    }

    /// The state and the effects after a value of the door at position `i`.
    pub open spec fn after_door(self, i: int, v: Value) -> (DomeState, Seq<Effect>) {
        match v.flag() {
            Some(b) => {
                let s = DomeState { open: self.open.update(i, b), ..self };
                if b != self.open[i] && self.pos == Pos::Door {
                    s.resolved()
                } else {
                    (s, Seq::empty())
                }
            },
            None => (self, Seq::empty()),
        }
    }
}

/// The dome-switch feature.
pub struct DomeSwitch {
    pos: Pos,
    door_open: [bool; 4],
    last_claim: Option<bool>,
}

impl View for DomeSwitch {
    type V = DomeState;

    closed spec fn view(&self) -> DomeState {
        DomeState { pos: self.pos, open: self.door_open@, claimed: self.last_claim }
    }
}

impl DomeSwitch {
    /// The feature with the switch off and all doors closed.
    pub fn new() -> (r: DomeSwitch)
        ensures
            r@ == DomeState::initial(),
    {
        DomeSwitch { pos: Pos::Off, door_open: no_flags(), last_claim: None }
    }

    fn resolve(&mut self) -> (r: Vec<Output>)
        ensures
            (final(self)@, Effect::all(r@)) == old(self)@.resolved(),
    {
        let want = match self.pos {
            Pos::Off => false,
            Pos::Door => any_set(&self.door_open),
            Pos::On => true,
        };
        let same = match self.last_claim {
            Some(b) => b == want,
            None => false,
        };
        if same {
            return no_outputs();
        }
        self.last_claim = Some(want);
        let r = vec![
            claim_bool(Domain::Courtesy, DOME, want, Priority::Low, FeatureId::DomeSwitch),
        ];
        assert(Effect::all(r@) =~= seq![DomeState::claim(want)]);
        r
    }

    /// The outputs at start-up, given whether the switch has a value.
    pub fn boot(&mut self, switch_known: bool) -> (r: Vec<Output>)
        ensures
            (final(self)@, Effect::all(r@)) == old(self)@.booted(switch_known),
    {
        let mut claims = self.resolve();
        if switch_known {
            return claims;
        }
        let ghost out = Effect::all(claims@);
        let mut r = vec![publish_text(SWITCH, "OFF")];
        r.append(&mut claims);
        assert(Effect::all(r@) =~= seq![Effect::publish(SWITCH, Value::Text("OFF"@))] + out);
        r
    }

    /// Takes a value of the switch.
    pub fn on_switch(&mut self, val: &SignalValue) -> (r: Vec<Output>)
        ensures
            (final(self)@, Effect::all(r@)) == old(self)@.after_switch(val@),
    {
        if let Some(new_pos) = Pos::parse(val) {
            if new_pos != self.pos {
                self.pos = new_pos;
                return self.resolve();
            }
        }
        no_outputs()
    }

    /// Takes a value of the door at position `i`.
    pub fn on_door(&mut self, i: usize, val: &SignalValue) -> (r: Vec<Output>)
        requires
            i < 4,
        ensures
            (final(self)@, Effect::all(r@)) == old(self)@.after_door(i as int, val@),
    {
        let ghost before = self@;
        if let Some(b) = val.as_bool() {
            let changed = self.door_open[i] != b;
            self.door_open[i] = b;
            assert(self@ =~= (DomeState { open: before.open.update(i as int, b), ..before }));
            if changed && self.pos == Pos::Door {
                return self.resolve();
            }
        }
        no_outputs()
    }
}

/// From start-up on, the claim is what the switch and the doors want, whatever
/// happens.
pub proof fn law_claim_follows_switch(s: DomeState, v: Value, i: int, known: bool)
    requires
        0 <= i < 4,
    ensures
        s.open.len() == 4 ==> s.booted(known).0.valid(),
        s.valid() ==> s.after_switch(v).0.valid(),
        s.valid() ==> s.after_door(i, v).0.valid(),
{
    if s.valid() && v.flag() is Some {
        let next = s.open.update(i, v.flag()->0);
        if v.flag()->0 == s.open[i] {
            assert(next =~= s.open);
        }
    }
}

/// The lamp is claimed only when what is wanted changes.
pub proof fn law_claims_changes_only(s: DomeState, v: Value, i: int)
    requires
        s.valid(),
        0 <= i < 4,
    ensures
        s.after_switch(v).1 == if s.after_switch(v).0.want() != s.want() {
            seq![DomeState::claim(s.after_switch(v).0.want())]
        } else {
            Seq::empty()
        },
        s.after_door(i, v).1 == if s.after_door(i, v).0.want() != s.want() {
            seq![DomeState::claim(s.after_door(i, v).0.want())]
        } else {
            Seq::empty()
        },
{
    law_claim_follows_switch(s, v, i, true);
}

/// Off and on hold whatever the doors do.
pub proof fn law_forced_positions_ignore_doors(s: DomeState, i: int, v: Value)
    requires
        s.pos != Pos::Door,
    ensures
        s.after_door(i, v).0.want() == (s.pos == Pos::On),
        s.after_door(i, v).1 == Seq::<Effect>::empty(),
{
}

} // verus!
