//! Static priority tables of the actuator domains.

use vstd::prelude::*;

use crate::arbiter::domain;
use crate::arbiter::domain::{AllowEntry, DomainArbiter, Gate, Permission, PhysicalGate};
use crate::ipc_message::{FeatureId, Priority, SignalValue, Value};
use crate::signal_bus::VssPath;

verus! {

pub const LEFT_INDICATOR: VssPath = "Body.Lights.DirectionIndicator.Left.IsSignaling";

pub const RIGHT_INDICATOR: VssPath = "Body.Lights.DirectionIndicator.Right.IsSignaling";

pub const HAZARD_MASTER: VssPath = "Body.Lights.Hazard.IsSignaling";

pub const LOW_BEAM: VssPath = "Body.Lights.Beam.Low.IsOn";

pub const HIGH_BEAM: VssPath = "Body.Lights.Beam.High.IsOn";

pub const RUNNING_LIGHTS: VssPath = "Body.Lights.Running.IsOn";

pub const PARKING_LIGHTS: VssPath = "Body.Lights.Parking.IsOn";

pub const LICENSE_PLATE: VssPath = "Body.Lights.LicensePlate.IsOn";

pub const HORN: VssPath = "Body.Horn.IsActive";

pub const DOME: VssPath = "Cabin.Lights.IsDomeOn";

pub const PUDDLE_LEFT: VssPath = "Body.Lights.Puddle.Left.IsOn";

pub const PUDDLE_RIGHT: VssPath = "Body.Lights.Puddle.Right.IsOn";

pub const MIRROR_LEFT_FOLDED: VssPath = "Body.Mirror.Left.IsFolded";

pub const MIRROR_RIGHT_FOLDED: VssPath = "Body.Mirror.Right.IsFolded";

/// Momentary command that opens the trunk.
pub const TRUNK_OPEN_CMD: VssPath = "Body.Trunk.OpenCmd";

pub const VALET_MODE: VssPath = "Cabin.ValetMode.IsActive";

/// Who may claim what in the Lighting domain.
pub open spec fn lighting_table() -> Seq<Permission> {
    seq![
        (FeatureId::Hazard, LEFT_INDICATOR@, Priority::High),
        (FeatureId::Hazard, RIGHT_INDICATOR@, Priority::High),
        (FeatureId::TurnIndicator, LEFT_INDICATOR@, Priority::Medium),
        (FeatureId::TurnIndicator, RIGHT_INDICATOR@, Priority::Medium),
        (FeatureId::LockFeedback, LEFT_INDICATOR@, Priority::High),
        (FeatureId::LockFeedback, RIGHT_INDICATOR@, Priority::High),
        (FeatureId::PanicAlarm, LEFT_INDICATOR@, Priority::High),
        (FeatureId::PanicAlarm, RIGHT_INDICATOR@, Priority::High),
        (FeatureId::Hazard, HAZARD_MASTER@, Priority::High),
        (FeatureId::LowBeam, LOW_BEAM@, Priority::Medium),
        (FeatureId::HighBeam, HIGH_BEAM@, Priority::Medium),
        (FeatureId::Drl, RUNNING_LIGHTS@, Priority::Medium),
    ]
}

/// Who may claim what in the Low-Beam domain.
pub open spec fn low_beam_table() -> Seq<Permission> {
    seq![
        (FeatureId::LowBeam, LOW_BEAM@, Priority::Medium),
        (FeatureId::LowBeam, PARKING_LIGHTS@, Priority::Medium),
        (FeatureId::LowBeam, LICENSE_PLATE@, Priority::Medium),
        (FeatureId::HighBeam, HIGH_BEAM@, Priority::Medium),
        (FeatureId::Drl, RUNNING_LIGHTS@, Priority::Medium),
        (FeatureId::FollowMeHome, LOW_BEAM@, Priority::High),
        (FeatureId::FollowMeHome, PARKING_LIGHTS@, Priority::High),
        (FeatureId::FollowMeHome, LICENSE_PLATE@, Priority::High),
        (FeatureId::AutoHighBeam, HIGH_BEAM@, Priority::High),
    ]
}

/// Who may claim what in the Horn domain.
pub open spec fn horn_table() -> Seq<Permission> {
    seq![
        (FeatureId::PanicAlarm, HORN@, Priority::High),
        (FeatureId::ManualHorn, HORN@, Priority::Medium),
    ]
}

/// Who may claim what in the Courtesy domain.
pub open spec fn courtesy_table() -> Seq<Permission> {
    seq![
        (FeatureId::Welcome, DOME@, Priority::Medium),
        (FeatureId::Farewell, DOME@, Priority::Medium),
        (FeatureId::DomeSwitch, DOME@, Priority::Low),
    ]
}

/// Who may claim what in the Puddle domain.
pub open spec fn puddle_table() -> Seq<Permission> {
    seq![
        (FeatureId::Welcome, PUDDLE_LEFT@, Priority::Medium),
        (FeatureId::Welcome, PUDDLE_RIGHT@, Priority::Medium),
        (FeatureId::Farewell, PUDDLE_LEFT@, Priority::Medium),
        (FeatureId::Farewell, PUDDLE_RIGHT@, Priority::Medium),
        (FeatureId::DoorOpenAssist, PUDDLE_LEFT@, Priority::Low),
        (FeatureId::DoorOpenAssist, PUDDLE_RIGHT@, Priority::Low),
    ]
}

/// The physical gates of the Puddle domain: a lamp in a folded mirror stays dark.
pub open spec fn puddle_gates() -> Seq<Gate> {
    seq![
        Gate {
            target: PUDDLE_LEFT@,
            gate_signal: MIRROR_LEFT_FOLDED@,
            suppress_when: Value::Bool(true),
        },
        Gate {
            target: PUDDLE_RIGHT@,
            gate_signal: MIRROR_RIGHT_FOLDED@,
            suppress_when: Value::Bool(true),
        },
    ]
}

/// Who may claim what in the Trunk domain.
pub open spec fn trunk_table() -> Seq<Permission> {
    seq![
        (FeatureId::PassiveEntry, TRUNK_OPEN_CMD@, Priority::Medium),
        (FeatureId::ExteriorTrunkButton, TRUNK_OPEN_CMD@, Priority::Medium),
        (FeatureId::CabinTrunkRelease, TRUNK_OPEN_CMD@, Priority::Medium),
    ]
}

/// The physical gates of the Trunk domain: valet mode keeps the trunk shut.
pub open spec fn trunk_gates() -> Seq<Gate> {
    seq![
        Gate {
            target: TRUNK_OPEN_CMD@,
            gate_signal: VALET_MODE@,
            suppress_when: Value::Bool(true),
        },
    ]
}

fn row(feature_id: FeatureId, signal: VssPath, priority: Priority) -> (r: AllowEntry)
    ensures
        r.feature_id == feature_id,
        r.signal == signal,
        r.priority == priority,
{
    AllowEntry { feature_id, signal, priority }
}

/// The Lighting domain arbiter: direction indicators, low and high beam, running
/// lights, hazard signaling. LockFeedback and PanicAlarm claim the indicators at
/// the priority of Hazard, so that their brief patterns overlay it.
pub fn lighting_arbiter() -> (r: DomainArbiter)
    ensures
        r.wf(),
        r.label() == "Lighting"@,
        r.gate_list() == Seq::<Gate>::empty(),
        r@ == domain::initial(lighting_table()),
{
    let allow_list = vec![
        row(FeatureId::Hazard, LEFT_INDICATOR, Priority::High),
        row(FeatureId::Hazard, RIGHT_INDICATOR, Priority::High),
        row(FeatureId::TurnIndicator, LEFT_INDICATOR, Priority::Medium),
        row(FeatureId::TurnIndicator, RIGHT_INDICATOR, Priority::Medium),
        row(FeatureId::LockFeedback, LEFT_INDICATOR, Priority::High),
        row(FeatureId::LockFeedback, RIGHT_INDICATOR, Priority::High),
        row(FeatureId::PanicAlarm, LEFT_INDICATOR, Priority::High),
        row(FeatureId::PanicAlarm, RIGHT_INDICATOR, Priority::High),
        row(FeatureId::Hazard, HAZARD_MASTER, Priority::High),
        row(FeatureId::LowBeam, LOW_BEAM, Priority::Medium),
        row(FeatureId::HighBeam, HIGH_BEAM, Priority::Medium),
        row(FeatureId::Drl, RUNNING_LIGHTS, Priority::Medium),
    ];
    assert(domain::permissions(allow_list@) =~= lighting_table());
    DomainArbiter::new("Lighting", allow_list)
}

/// The Low-Beam domain arbiter: low beam, high beam, running lights, parking
/// lights, license plate lamp. FollowMeHome and AutoHighBeam override the
/// switch-driven claims.
pub fn low_beam_arbiter() -> (r: DomainArbiter)
    ensures
        r.wf(),
        r.label() == "LowBeam"@,
        r.gate_list() == Seq::<Gate>::empty(),
        r@ == domain::initial(low_beam_table()),
{
    let allow_list = vec![
        row(FeatureId::LowBeam, LOW_BEAM, Priority::Medium),
        row(FeatureId::LowBeam, PARKING_LIGHTS, Priority::Medium),
        row(FeatureId::LowBeam, LICENSE_PLATE, Priority::Medium),
        row(FeatureId::HighBeam, HIGH_BEAM, Priority::Medium),
        row(FeatureId::Drl, RUNNING_LIGHTS, Priority::Medium),
        row(FeatureId::FollowMeHome, LOW_BEAM, Priority::High),
        row(FeatureId::FollowMeHome, PARKING_LIGHTS, Priority::High),
        row(FeatureId::FollowMeHome, LICENSE_PLATE, Priority::High),
        row(FeatureId::AutoHighBeam, HIGH_BEAM, Priority::High),
    ];
    assert(domain::permissions(allow_list@) =~= low_beam_table());
    DomainArbiter::new("LowBeam", allow_list)
}

/// The Horn domain arbiter. PanicAlarm pre-empts the steering-wheel horn pad.
pub fn horn_arbiter() -> (r: DomainArbiter)
    ensures
        r.wf(),
        r.label() == "Horn"@,
        r.gate_list() == Seq::<Gate>::empty(),
        r@ == domain::initial(horn_table()),
{
    let allow_list = vec![
        row(FeatureId::PanicAlarm, HORN, Priority::High),
        row(FeatureId::ManualHorn, HORN, Priority::Medium),
    ];
    assert(domain::permissions(allow_list@) =~= horn_table());
    DomainArbiter::new("Horn", allow_list)
}

/// The Comfort domain arbiter. No feature competes for a comfort actuator, so
/// its table is empty.
pub fn comfort_arbiter() -> (r: DomainArbiter)
    ensures
        r.wf(),
        r.label() == "Comfort"@,
        r.gate_list() == Seq::<Gate>::empty(),
        r@ == domain::initial(Seq::<Permission>::empty()),
{
    let allow_list: Vec<AllowEntry> = Vec::new();
    assert(domain::permissions(allow_list@) =~= Seq::<Permission>::empty());
    DomainArbiter::new("Comfort", allow_list)
}

/// The Courtesy domain arbiter: the interior dome light.
pub fn courtesy_arbiter() -> (r: DomainArbiter)
    ensures
        r.wf(),
        r.label() == "Courtesy"@,
        r.gate_list() == Seq::<Gate>::empty(),
        r@ == domain::initial(courtesy_table()),
{
    let allow_list = vec![
        row(FeatureId::Welcome, DOME, Priority::Medium),
        row(FeatureId::Farewell, DOME, Priority::Medium),
        row(FeatureId::DomeSwitch, DOME, Priority::Low),
    ];
    assert(domain::permissions(allow_list@) =~= courtesy_table());
    DomainArbiter::new("Courtesy", allow_list)
}

/// The Puddle domain arbiter: the under-mirror exterior lamps, each gated by the
/// mirror that houses it.
pub fn puddle_arbiter() -> (r: DomainArbiter)
    ensures
        r.wf(),
        r.label() == "Puddle"@,
        r.gate_list() == puddle_gates(),
        r@ == domain::initial(puddle_table()),
{
    let allow_list = vec![
        row(FeatureId::Welcome, PUDDLE_LEFT, Priority::Medium),
        row(FeatureId::Welcome, PUDDLE_RIGHT, Priority::Medium),
        row(FeatureId::Farewell, PUDDLE_LEFT, Priority::Medium),
        row(FeatureId::Farewell, PUDDLE_RIGHT, Priority::Medium),
        row(FeatureId::DoorOpenAssist, PUDDLE_LEFT, Priority::Low),
        row(FeatureId::DoorOpenAssist, PUDDLE_RIGHT, Priority::Low),
    ];
    assert(domain::permissions(allow_list@) =~= puddle_table());
    let gates = vec![
        PhysicalGate {
            target: PUDDLE_LEFT,
            gate_signal: MIRROR_LEFT_FOLDED,
            suppress_when: SignalValue::Bool(true),
        },
        PhysicalGate {
            target: PUDDLE_RIGHT,
            gate_signal: MIRROR_RIGHT_FOLDED,
            suppress_when: SignalValue::Bool(true),
        },
    ];
    assert(domain::gate_rules(gates@) =~= puddle_gates());
    DomainArbiter::new_with_gates("Puddle", allow_list, gates)
}

/// The Trunk domain arbiter: every way to open the trunk converges here, behind
/// the valet gate.
pub fn trunk_arbiter() -> (r: DomainArbiter)
    ensures
        r.wf(),
        r.label() == "Trunk"@,
        r.gate_list() == trunk_gates(),
        r@ == domain::initial(trunk_table()),
{
    let allow_list = vec![
        row(FeatureId::PassiveEntry, TRUNK_OPEN_CMD, Priority::Medium),
        row(FeatureId::ExteriorTrunkButton, TRUNK_OPEN_CMD, Priority::Medium),
        row(FeatureId::CabinTrunkRelease, TRUNK_OPEN_CMD, Priority::Medium),
    ];
    assert(domain::permissions(allow_list@) =~= trunk_table());
    let gates = vec![
        PhysicalGate {
            target: TRUNK_OPEN_CMD,
            gate_signal: VALET_MODE,
            suppress_when: SignalValue::Bool(true),
        },
    ];
    assert(domain::gate_rules(gates@) =~= trunk_gates());
    DomainArbiter::new_with_gates("Trunk", allow_list, gates)
}

} // verus!
