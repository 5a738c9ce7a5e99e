//! Brake and reverse lamps: by pedal and by gear.
//!
//! Brake lamps work in every power state. Reverse lamps need the ignition.

use vstd::prelude::*;

use crate::features::power::is_power_on;
use crate::ipc_message::{SignalValue, Value};
use crate::signal_bus::{publish_bool, Effect, Output, VssPath};

verus! {

/// Position of the brake pedal, in percent.
pub const BRAKE_PEDAL: VssPath = "Chassis.Brake.PedalPosition";

/// Gear: negative in reverse.
pub const GEAR: VssPath = "Powertrain.Transmission.CurrentGear";

/// Brake lamps.
pub const BRAKE_OUT: VssPath = "Body.Lights.Brake.IsActive";

/// Reverse lamps.
pub const REVERSE_OUT: VssPath = "Body.Lights.Backup.IsActive";

/// The character is a decimal digit.
pub open spec fn is_digit(c: char) -> bool {
    '0' <= c <= '9'
}

/// The number that decimal digits stand for.
pub open spec fn number(digits: Seq<char>) -> int
    decreases digits.len(),
{
    if digits.len() == 0 {
        0
    } else {
        number(digits.drop_last()) * 10 + (digits.last() as int - '0' as int)
    }
}

/// The text is a negative number of sixty-four bits: a minus sign and decimal
/// digits.
pub open spec fn negative_number(t: Seq<char>) -> bool {
    &&& t.len() >= 2
    &&& t[0] == '-'
    &&& forall|i: int| 1 <= i < t.len() ==> is_digit(#[trigger] t[i])
    &&& 0 < number(t.skip(1)) <= 0x8000_0000_0000_0000
}

/// The value is a reverse gear: a negative number, or the text of one.
pub open spec fn reverse_gear(v: Value) -> bool {
    match v {
        Value::Int16(g) => g < 0,
        Value::Text(t) => negative_number(t),
        _ => false,
    }
}

/// The value is that of a pressed pedal.
pub open spec fn pressed_pedal(v: Value) -> bool {
    v matches Value::Uint8(p) && p > 0
}

/// True iff the brake pedal is pressed.
pub fn pedal_pressed(val: &SignalValue) -> (r: bool)
    ensures
        r == pressed_pedal(val@),
{
    match val {
        SignalValue::Uint8(p) => *p > 0,
        _ => false,
    }
}

fn is_negative_number(s: &str) -> (r: bool)
    ensures
        r == negative_number(s@),
{
    let n = s.unicode_len();
    if n < 2 || s.get_char(0) != '-' {
        return false;
    }
    let ghost digits = s@.skip(1);
    let mut value: u64 = 0;
    let mut too_large = false;
    let mut i: usize = 1;
    assert(digits.take(0) =~= Seq::<char>::empty());
    while i < n
        invariant
            1 <= i <= n,
            n == s@.len(),
            digits == s@.skip(1),
            forall|k: int| 1 <= k < i ==> is_digit(#[trigger] s@[k]),
            value <= 0x8000_0000_0000_0000,
            !too_large ==> value == number(digits.take(i - 1)),
            too_large ==> number(digits.take(i - 1)) > 0x8000_0000_0000_0000,
        decreases n - i,
    {
        let c = s.get_char(i);
        if c < '0' || c > '9' {
            return false;
        }
        let d: u64 = (c as u32 - 48) as u64;
        proof {
            let longer = digits.take(i as int);
            assert(longer.drop_last() =~= digits.take(i - 1));
            assert(longer.last() == c);
        }
        if !too_large {
            if value > 922337203685477580 || value * 10 + d > 0x8000_0000_0000_0000 {
                too_large = true;
            } else {
                value = value * 10 + d;
            }
        }
        i += 1;
    }
    assert(digits.take(digits.len() as int) =~= digits);
    !too_large && value > 0
}

/// True iff the value is a reverse gear. Forward gears and neutral are not.
pub fn is_reverse(val: &SignalValue) -> (r: bool)
    ensures
        r == reverse_gear(val@),
{
    match val {
        SignalValue::Int16(g) => *g < 0,
        SignalValue::String(s) => is_negative_number(s.as_str()),
        _ => false,
    }
}

/// The brake-and-reverse-lamps feature.
#[derive(Debug, Clone, Copy, PartialEq, Eq)]
pub struct BrakeReverseLamps {
    pub ignition_on: bool,
    pub brake_active: bool,
    pub in_reverse: bool,
}

/// Something that happens to the feature.
pub enum LampEvent {
    Power(Value),
    Pedal(Value),
    Gear(Value),
}

impl BrakeReverseLamps {
    /// The effects of publishing both lamps.
    pub open spec fn lamps(self) -> Seq<Effect> {
        seq![
            Effect::publish(BRAKE_OUT, Value::Bool(self.brake_active)),
            Effect::publish(REVERSE_OUT, Value::Bool(self.ignition_on && self.in_reverse)),
        ]
    }

    /// The state after an event.
    pub open spec fn after(self, event: LampEvent) -> BrakeReverseLamps {
        match event {
            LampEvent::Power(v) => BrakeReverseLamps { ignition_on: v.power_on(), ..self },
            LampEvent::Pedal(v) => BrakeReverseLamps { brake_active: pressed_pedal(v), ..self },
            LampEvent::Gear(v) => BrakeReverseLamps { in_reverse: reverse_gear(v), ..self },
        }
    }

    /// The feature with everything off.
    pub fn new() -> (r: BrakeReverseLamps)
        ensures
            r == (BrakeReverseLamps {
                ignition_on: false,
                brake_active: false,
                in_reverse: false,
            }),
    {
        BrakeReverseLamps { ignition_on: false, brake_active: false, in_reverse: false }
    }

    fn apply(&self) -> (r: Vec<Output>)
        ensures
            Effect::all(r@) == self.lamps(),
    {
        let r = vec![
            publish_bool(BRAKE_OUT, self.brake_active),
            publish_bool(REVERSE_OUT, self.ignition_on && self.in_reverse),
        ];
        assert(Effect::all(r@) =~= self.lamps());
        r
    }

    /// Takes a value of the power state.
    pub fn on_power(&mut self, val: &SignalValue) -> (r: Vec<Output>)
        ensures
            *final(self) == old(self).after(LampEvent::Power(val@)),
            Effect::all(r@) == final(self).lamps(),
    {
        self.ignition_on = is_power_on(val);
        self.apply()
    }

    /// Takes a value of the brake pedal.
    pub fn on_pedal(&mut self, val: &SignalValue) -> (r: Vec<Output>)
        ensures
            *final(self) == old(self).after(LampEvent::Pedal(val@)),
            Effect::all(r@) == final(self).lamps(),
    {
        self.brake_active = pedal_pressed(val);
        self.apply()
    }

    /// Takes a value of the gear.
    pub fn on_gear(&mut self, val: &SignalValue) -> (r: Vec<Output>)
        ensures
            *final(self) == old(self).after(LampEvent::Gear(val@)),
            Effect::all(r@) == final(self).lamps(),
    {
        self.in_reverse = is_reverse(val);
        self.apply()
    }
}

/// Brake lamps follow the pedal in every power state.
pub proof fn law_brake_needs_no_ignition(s: BrakeReverseLamps, power: Value, pedal: Value)
    ensures
        s.after(LampEvent::Power(power)).after(LampEvent::Pedal(pedal)).lamps()[0]
            == Effect::publish(BRAKE_OUT, Value::Bool(pressed_pedal(pedal))),
{
}

/// Reverse lamps are on only with the ignition, and then follow the gear.
pub proof fn law_reverse_needs_ignition(s: BrakeReverseLamps, power: Value, gear: Value)
    ensures
        s.after(LampEvent::Gear(gear)).after(LampEvent::Power(power)).lamps()[1]
            == Effect::publish(REVERSE_OUT, Value::Bool(power.power_on() && reverse_gear(gear))),
{
}

} // verus!
