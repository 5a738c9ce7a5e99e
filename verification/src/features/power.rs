//! Reading of the low-voltage power state.

use vstd::prelude::*;

use crate::ipc_message::{SignalValue, Value};
use crate::signal_bus::{same_text, VssPath};

verus! {

/// Power state of the low-voltage system.
pub const POWER_STATE: VssPath = "Vehicle.LowVoltageSystemState";

impl Value {
    /// The power state means that the vehicle is on.
    pub open spec fn power_on(self) -> bool {
        self == Value::Text("ON"@) || self == Value::Text("START"@)
    }

    /// The power state means that the vehicle is off, the accessory position
    /// included.
    pub open spec fn power_off(self) -> bool {
        self == Value::Text("OFF"@) || self == Value::Text("ACC"@) || self == Value::Text("LOCK"@)
    }
}

/// True iff the power state means that the vehicle is on.
pub fn is_power_on(val: &SignalValue) -> (r: bool)
    ensures
        r == val@.power_on(),
{
    val.is_text("ON") || val.is_text("START")
}

/// True iff the power state means that the vehicle is off.
pub fn is_power_off(val: &SignalValue) -> (r: bool)
    ensures
        r == val@.power_off(),
{
    val.is_text("OFF") || val.is_text("ACC") || val.is_text("LOCK")
}

/// True iff the power state, given as a text, is one of the on positions.
pub fn is_ign_on(s: &str) -> (r: bool)
    ensures
        r == Value::Text(s@).power_on(),
{
    same_text(s, "ON") || same_text(s, "START")
}

/// No power state is both on and off.
pub proof fn law_on_and_off_exclude_each_other(v: Value)
    ensures
        !(v.power_on() && v.power_off()),
{
    reveal_strlit("ON");
    reveal_strlit("START");
    reveal_strlit("OFF");
    reveal_strlit("ACC");
    reveal_strlit("LOCK");
    assert("ON"@.len() == 2 && "START"@.len() == 5);
    assert("OFF"@.len() == 3 && "ACC"@.len() == 3 && "LOCK"@.len() == 4);
}

} // verus!
