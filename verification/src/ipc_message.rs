//! Values, priorities and feature identities that travel over the signal bus.

use vstd::prelude::*;

use crate::config::{PRIORITY_HIGH, PRIORITY_LOW, PRIORITY_MEDIUM};
use crate::signal_bus::same_text;

verus! {

/// A value carried by a signal.
#[derive(Debug)]
pub enum SignalValue {
    Bool(bool),
    Uint8(u8),
    Uint16(u16),
    Int16(i16),
    String(String),
}

/// What a [`SignalValue`] stands for: a text is taken by its characters.
pub enum Value {
    Bool(bool),
    Uint8(u8),
    Uint16(u16),
    Int16(i16),
    Text(Seq<char>),
}

impl View for SignalValue {
    type V = Value;

    open spec fn view(&self) -> Value {
        match self {
            SignalValue::Bool(b) => Value::Bool(*b),
            SignalValue::Uint8(n) => Value::Uint8(*n),
            SignalValue::Uint16(n) => Value::Uint16(*n),
            SignalValue::Int16(n) => Value::Int16(*n),
            SignalValue::String(s) => Value::Text(s@),
        }
    }
}

impl Clone for SignalValue {
    fn clone(&self) -> (r: Self)
        ensures
            r@ == self@,
    {
        match self {
            SignalValue::Bool(b) => SignalValue::Bool(*b),
            SignalValue::Uint8(n) => SignalValue::Uint8(*n),
            SignalValue::Uint16(n) => SignalValue::Uint16(*n),
            SignalValue::Int16(n) => SignalValue::Int16(*n),
            SignalValue::String(s) => SignalValue::String(s.clone()),
        }
    }
}

impl vstd::std_specs::cmp::PartialEqSpecImpl for SignalValue {
    open spec fn obeys_eq_spec() -> bool {
        true
    }

    open spec fn eq_spec(&self, other: &Self) -> bool {
        self@ == other@
    }
}

impl PartialEq for SignalValue {
    fn eq(&self, other: &Self) -> (r: bool) {
        match (self, other) {
            (SignalValue::Bool(a), SignalValue::Bool(b)) => *a == *b,
            (SignalValue::Uint8(a), SignalValue::Uint8(b)) => *a == *b,
            (SignalValue::Uint16(a), SignalValue::Uint16(b)) => *a == *b,
            (SignalValue::Int16(a), SignalValue::Int16(b)) => *a == *b,
            (SignalValue::String(a), SignalValue::String(b)) => same_text(a.as_str(), b.as_str()),
            _ => false,
        }
    }
}

impl SignalValue {
    /// True iff this is the flag `true`. Every other value reads as not set.
    pub fn is_true(&self) -> (r: bool)
        ensures
            r == (self@ == Value::Bool(true)),
    {
        match self {
            SignalValue::Bool(b) => *b,
            _ => false,
        }
    }

    /// The flag carried, if the value is one.
    pub fn as_bool(&self) -> (r: Option<bool>)
        ensures
            r == self@.flag(),
    {
        match self {
            SignalValue::Bool(b) => Some(*b),
            _ => None,
        }
    }

    /// True iff this is the text `text`.
    pub fn is_text(&self, text: &str) -> (r: bool)
        ensures
            r == (self@ == Value::Text(text@)),
    {
        match self {
            SignalValue::String(s) => same_text(s.as_str(), text),
            _ => false,
        }
    }
}

impl Value {
    /// The flag that this value carries, if it is one.
    pub open spec fn flag(self) -> Option<bool> {
        match self {
            Value::Bool(b) => Some(b),
            _ => None,
        }
    }

    /// The off value of an actuator.
    pub open spec fn off() -> Value {
        Value::Bool(false)
    }
}

/// Priority of a claim on an actuator.
#[derive(Debug, Clone, Copy, PartialEq, Eq, Structural)]
pub enum Priority {
    Low,
    Medium,
    High,
}

impl Priority {
    /// Numeric level of this priority.
    pub open spec fn rank(self) -> u8 {
        match self {
            Priority::Low => PRIORITY_LOW,
            Priority::Medium => PRIORITY_MEDIUM,
            Priority::High => PRIORITY_HIGH,
        }
    }

    /// Numeric level of this priority: a higher level wins.
    pub fn level(self) -> (r: u8)
        ensures
            r == self.rank(),
    {
        match self {
            Priority::Low => PRIORITY_LOW,
            Priority::Medium => PRIORITY_MEDIUM,
            Priority::High => PRIORITY_HIGH,
        }
    }
}

/// Identity of a feature module.
#[derive(Debug, Clone, Copy, PartialEq, Eq, Structural)]
pub enum FeatureId {
    AutoHighBeam,
    AutoLock,
    AutoRelock,
    CabinTrunkRelease,
    CrashUnlock,
    DomeSwitch,
    DoorOpenAssist,
    DoorTrimButton,
    DoubleLockRelease,
    Drl,
    ExteriorTrunkButton,
    Farewell,
    FollowMeHome,
    Hazard,
    HighBeam,
    KeyfobPeps,
    KeyfobRke,
    KeypadLock,
    LockFeedback,
    LowBeam,
    ManualHorn,
    MirrorAdjust,
    MirrorFold,
    NfcCard,
    NfcPhone,
    PanicAlarm,
    PassiveEntry,
    PhoneApp,
    PhoneBle,
    SlamLock,
    ThumbPadLock,
    TurnIndicator,
    WalkAwayLock,
    Welcome,
}

impl FeatureId {
    /// The name of this feature on the bus.
    pub open spec fn bus_name(self) -> Seq<char> {
        match self {
            FeatureId::AutoHighBeam => "AutoHighBeam"@,
            FeatureId::AutoLock => "AutoLock"@,
            FeatureId::AutoRelock => "AutoRelock"@,
            FeatureId::CabinTrunkRelease => "CabinTrunkRelease"@,
            FeatureId::CrashUnlock => "CrashUnlock"@,
            FeatureId::DomeSwitch => "DomeSwitch"@,
            FeatureId::DoorOpenAssist => "DoorOpenAssist"@,
            FeatureId::DoorTrimButton => "DoorTrimButton"@,
            FeatureId::DoubleLockRelease => "DoubleLockRelease"@,
            FeatureId::Drl => "Drl"@,
            FeatureId::ExteriorTrunkButton => "ExteriorTrunkButton"@,
            FeatureId::Farewell => "Farewell"@,
            FeatureId::FollowMeHome => "FollowMeHome"@,
            FeatureId::Hazard => "Hazard"@,
            FeatureId::HighBeam => "HighBeam"@,
            FeatureId::KeyfobPeps => "KeyfobPeps"@,
            FeatureId::KeyfobRke => "KeyfobRke"@,
            FeatureId::KeypadLock => "KeypadLock"@,
            FeatureId::LockFeedback => "LockFeedback"@,
            FeatureId::LowBeam => "LowBeam"@,
            FeatureId::ManualHorn => "ManualHorn"@,
            FeatureId::MirrorAdjust => "MirrorAdjust"@,
            FeatureId::MirrorFold => "MirrorFold"@,
            FeatureId::NfcCard => "NfcCard"@,
            FeatureId::NfcPhone => "NfcPhone"@,
            FeatureId::PanicAlarm => "PanicAlarm"@,
            FeatureId::PassiveEntry => "PassiveEntry"@,
            FeatureId::PhoneApp => "PhoneApp"@,
            FeatureId::PhoneBle => "PhoneBle"@,
            FeatureId::SlamLock => "SlamLock"@,
            FeatureId::ThumbPadLock => "ThumbPadLock"@,
            FeatureId::TurnIndicator => "TurnIndicator"@,
            FeatureId::WalkAwayLock => "WalkAwayLock"@,
            FeatureId::Welcome => "Welcome"@,
        }
    }

    /// The name of this feature on the bus.
    pub fn name(self) -> (r: &'static str)
        ensures
            r@ == self.bus_name(),
    {
        match self {
            FeatureId::AutoHighBeam => "AutoHighBeam",
            FeatureId::AutoLock => "AutoLock",
            FeatureId::AutoRelock => "AutoRelock",
            FeatureId::CabinTrunkRelease => "CabinTrunkRelease",
            FeatureId::CrashUnlock => "CrashUnlock",
            FeatureId::DomeSwitch => "DomeSwitch",
            FeatureId::DoorOpenAssist => "DoorOpenAssist",
            FeatureId::DoorTrimButton => "DoorTrimButton",
            FeatureId::DoubleLockRelease => "DoubleLockRelease",
            FeatureId::Drl => "Drl",
            FeatureId::ExteriorTrunkButton => "ExteriorTrunkButton",
            FeatureId::Farewell => "Farewell",
            FeatureId::FollowMeHome => "FollowMeHome",
            FeatureId::Hazard => "Hazard",
            FeatureId::HighBeam => "HighBeam",
            FeatureId::KeyfobPeps => "KeyfobPeps",
            FeatureId::KeyfobRke => "KeyfobRke",
            FeatureId::KeypadLock => "KeypadLock",
            FeatureId::LockFeedback => "LockFeedback",
            FeatureId::LowBeam => "LowBeam",
            FeatureId::ManualHorn => "ManualHorn",
            FeatureId::MirrorAdjust => "MirrorAdjust",
            FeatureId::MirrorFold => "MirrorFold",
            FeatureId::NfcCard => "NfcCard",
            FeatureId::NfcPhone => "NfcPhone",
            FeatureId::PanicAlarm => "PanicAlarm",
            FeatureId::PassiveEntry => "PassiveEntry",
            FeatureId::PhoneApp => "PhoneApp",
            FeatureId::PhoneBle => "PhoneBle",
            FeatureId::SlamLock => "SlamLock",
            FeatureId::ThumbPadLock => "ThumbPadLock",
            FeatureId::TurnIndicator => "TurnIndicator",
            FeatureId::WalkAwayLock => "WalkAwayLock",
            FeatureId::Welcome => "Welcome",
        }
    }
}

/// High outranks medium, and medium outranks low.
pub proof fn law_priorities_are_ranked()
    ensures
        Priority::High.rank() > Priority::Medium.rank(),
        Priority::Medium.rank() > Priority::Low.rank(),
        Priority::Low.rank() > 0,
{
}

} // verus!
