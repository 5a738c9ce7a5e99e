//! What the lamp and horn features make of their history: over every run, what
//! stands on the bus is what the inputs seen last call for.

use vstd::prelude::*;

use crate::arbiter::tables::{
    DOME, HIGH_BEAM, HORN, LEFT_INDICATOR, LICENSE_PLATE, LOW_BEAM, PARKING_LIGHTS, PUDDLE_LEFT,
    PUDDLE_RIGHT, RIGHT_INDICATOR,
};
use crate::clock;
use crate::config::PlatformConfig;
use crate::features::auto_high_beam::AutoHighBeam;
use crate::features::brake_reverse_lamps;
use crate::features::brake_reverse_lamps::{
    BrakeReverseLamps, LampEvent, BRAKE_OUT, REVERSE_OUT,
};
use crate::features::dome_switch::{DomeState, DomeSwitch, SWITCH};
use crate::features::door_open_assist::{AssistState, DoorOpenAssist};
use crate::features::farewell::{Farewell, FarewellEvent, FarewellPhase};
use crate::features::fog_lamps::{FogEvent, FogLamps, FRONT_OUT, REAR_OUT};
use crate::features::follow_me_home::{FollowMeHome, HomeEvent};
use crate::features::hazard_lighting::HazardLighting;
use crate::features::manual_horn::ManualHorn;
use crate::history;
use crate::ipc_message::{FeatureId, Priority, Value};
use crate::signal_bus::{Domain, Effect};

verus! {

/// The value is a power state in which the vehicle is on.
pub open spec fn on(v: Value) -> bool {
    v == Value::Text("ON"@) || v == Value::Text("START"@)
}

/// The claim that is due: none, or a flag at a priority.
pub open spec fn due(wanted: bool, flag: bool, priority: Priority) -> Option<(Value, Priority)> {
    if wanted {
        Some((Value::Bool(flag), priority))
    } else {
        None
    }
}

/// The fog lamps after a run of events.
pub open spec fn fog_run(s: FogLamps, events: Seq<FogEvent>) -> FogLamps
    decreases events.len(),
{
    if events.len() == 0 {
        s
    } else {
        fog_run(s, events.drop_last()).after(events.last())
    }
}

/// Reads off an event whether the vehicle is on.
pub open spec fn fog_power() -> spec_fn(FogEvent) -> Option<bool> {
    |e: FogEvent|
        match e {
            FogEvent::Power(v) => Some(on(v)),
            _ => None,
        }
}

/// Reads off an event whether the front switch is engaged.
pub open spec fn fog_front() -> spec_fn(FogEvent) -> Option<bool> {
    |e: FogEvent|
        match e {
            FogEvent::Front(v) => Some(v == Value::Bool(true)),
            _ => None,
        }
}

/// Reads off an event whether the rear switch is engaged.
pub open spec fn fog_rear() -> spec_fn(FogEvent) -> Option<bool> {
    |e: FogEvent|
        match e {
            FogEvent::Rear(v) => Some(v == Value::Bool(true)),
            _ => None,
        }
}

/// Over every run each fog lamp is published on exactly when the vehicle was seen
/// on last and its own switch was seen engaged last.
pub proof fn law_fog_lamps_follow_latest_inputs(s: FogLamps, events: Seq<FogEvent>)
    requires
        call_ensures(FogLamps::new, (), s),
    ensures
        ({
            let ignition = history::latest(events, fog_power()) == Some(true);
            fog_run(s, events).lamps() == seq![
                Effect::publish(
                    FRONT_OUT,
                    Value::Bool(
                        ignition && history::latest(events, fog_front()) == Some(true),
                    ),
                ),
                Effect::publish(
                    REAR_OUT,
                    Value::Bool(ignition && history::latest(events, fog_rear()) == Some(true)),
                ),
            ]
        }),
{
    lemma_fog(s, events);
}

proof fn lemma_fog(s: FogLamps, events: Seq<FogEvent>)
    requires
        call_ensures(FogLamps::new, (), s),
    ensures
        fog_run(s, events).ignition_on == history::latest_or(events, fog_power(), false),
        fog_run(s, events).front_sw == history::latest_or(events, fog_front(), false),
        fog_run(s, events).rear_sw == history::latest_or(events, fog_rear(), false),
    decreases events.len(),
{
    if events.len() > 0 {
        lemma_fog(s, events.drop_last());
    }
}

/// The brake and reverse lamps after a run of events.
pub open spec fn brake_run(s: BrakeReverseLamps, events: Seq<LampEvent>) -> BrakeReverseLamps
    decreases events.len(),
{
    if events.len() == 0 {
        s
    } else {
        brake_run(s, events.drop_last()).after(events.last())
    }
}

/// Reads off an event whether the vehicle is on.
pub open spec fn brake_power() -> spec_fn(LampEvent) -> Option<bool> {
    |e: LampEvent|
        match e {
            LampEvent::Power(v) => Some(on(v)),
            _ => None,
        }
}

/// Reads off an event whether the pedal is pressed: a position above zero.
pub open spec fn brake_pedal() -> spec_fn(LampEvent) -> Option<bool> {
    |e: LampEvent|
        match e {
            LampEvent::Pedal(Value::Uint8(p)) => Some(p > 0),
            LampEvent::Pedal(_) => Some(false),
            _ => None,
        }
}

/// Reads off an event whether the gear is a reverse one.
pub open spec fn gear_seen() -> spec_fn(LampEvent) -> Option<bool> {
    |e: LampEvent|
        match e {
            LampEvent::Gear(Value::Int16(g)) => Some(g < 0),
            LampEvent::Gear(Value::Text(t)) => Some(brake_reverse_lamps::negative_number(t)),
            LampEvent::Gear(_) => Some(false),
            _ => None,
        }
}

/// Over every run the brake lamps are published on exactly when the pedal was seen
/// pressed last, and the reverse lamps exactly when the vehicle was seen on last
/// and the gear seen last is a reverse one.
pub proof fn law_brake_lamps_follow_latest_inputs(s: BrakeReverseLamps, events: Seq<LampEvent>)
    requires
        call_ensures(BrakeReverseLamps::new, (), s),
    ensures
        brake_run(s, events).lamps() == seq![
            Effect::publish(
                BRAKE_OUT,
                Value::Bool(history::latest(events, brake_pedal()) == Some(true)),
            ),
            Effect::publish(
                REVERSE_OUT,
                Value::Bool(
                    history::latest(events, brake_power()) == Some(true) && history::latest(
                        events,
                        gear_seen(),
                    ) == Some(true),
                ),
            ),
        ],
{
    lemma_brake(s, events);
}

proof fn lemma_brake(s: BrakeReverseLamps, events: Seq<LampEvent>)
    requires
        call_ensures(BrakeReverseLamps::new, (), s),
    ensures
        brake_run(s, events).ignition_on == history::latest_or(events, brake_power(), false),
        brake_run(s, events).brake_active == history::latest_or(events, brake_pedal(), false),
        brake_run(s, events).in_reverse == history::latest_or(events, gear_seen(), false),
    decreases events.len(),
{
    if events.len() > 0 {
        lemma_brake(s, events.drop_last());
    }
}

/// Ten to the power of `n`.
pub open spec fn ten_to(n: nat) -> int
    decreases n,
{
    if n == 0 {
        1
    } else {
        10 * ten_to((n - 1) as nat)
    }
}

/// Which texts are a reverse gear: a minus sign first and nothing but decimal
/// digits after it, at least one of them not zero. Up to eighteen digits always
/// fit; twenty that do not begin with zero never do.
pub proof fn law_reverse_gear_texts(t: Seq<char>)
    ensures
        t.len() == 0 || t[0] != '-' ==> !brake_reverse_lamps::reverse_gear(Value::Text(t)),
        forall|i: int|
            1 <= i < t.len() && !('0' <= #[trigger] t[i] <= '9')
                ==> !brake_reverse_lamps::reverse_gear(Value::Text(t)),
        (forall|i: int| 1 <= i < t.len() ==> #[trigger] t[i] == '0')
            ==> !brake_reverse_lamps::reverse_gear(Value::Text(t)),
        ({
            &&& 2 <= t.len() <= 19
            &&& t[0] == '-'
            &&& forall|i: int| 1 <= i < t.len() ==> '0' <= #[trigger] t[i] <= '9'
            &&& exists|i: int| 1 <= i < t.len() && #[trigger] t[i] != '0'
        }) ==> brake_reverse_lamps::reverse_gear(Value::Text(t)),
        t.len() >= 21 && t[1] != '0' ==> !brake_reverse_lamps::reverse_gear(Value::Text(t)),
{
    let d = t.skip(1);
    if t.len() >= 1 && forall|i: int| 1 <= i < t.len() ==> '0' <= #[trigger] t[i] <= '9' {
        assert forall|i: int| 0 <= i < d.len() implies '0' <= #[trigger] d[i] <= '9' by {
            assert(d[i] == t[i + 1]);
        }
        lemma_number(d);
        if exists|i: int| 1 <= i < t.len() && #[trigger] t[i] != '0' {
            let i = choose|i: int| 1 <= i < t.len() && #[trigger] t[i] != '0';
            assert(d[i - 1] != '0');
        }
        if t.len() <= 19 {
            lemma_ten_grows(d.len(), 18);
        }
        if t.len() >= 21 && t[1] != '0' {
            assert(d[0] != '0');
            lemma_ten_grows(19, (d.len() - 1) as nat);
        }
        assert(ten_to(18) == 1_000_000_000_000_000_000 && ten_to(19)
            == 10_000_000_000_000_000_000) by {
            reveal_with_fuel(ten_to, 20);
        }
        if forall|i: int| 1 <= i < t.len() ==> #[trigger] t[i] == '0' {
            assert forall|i: int| 0 <= i < d.len() implies #[trigger] d[i] == '0' by {
                assert(d[i] == t[i + 1]);
            }
        }
        assert forall|i: int| 1 <= i < t.len() implies brake_reverse_lamps::is_digit(
            #[trigger] t[i],
        ) by {}
    } else if t.len() >= 1 {
        let i = choose|i: int| 1 <= i < t.len() && !('0' <= #[trigger] t[i] <= '9');
        assert(!brake_reverse_lamps::is_digit(t[i]));
    }
}

proof fn lemma_number(d: Seq<char>)
    requires
        forall|i: int| 0 <= i < d.len() ==> '0' <= #[trigger] d[i] <= '9',
    ensures
        0 <= brake_reverse_lamps::number(d) < ten_to(d.len()),
        brake_reverse_lamps::number(d) == 0 <==> forall|i: int|
            0 <= i < d.len() ==> #[trigger] d[i] == '0',
        d.len() > 0 && d[0] != '0' ==> brake_reverse_lamps::number(d) >= ten_to(
            (d.len() - 1) as nat,
        ),
    decreases d.len(),
{
    if d.len() > 0 {
        let rest = d.drop_last();
        assert forall|i: int| 0 <= i < rest.len() implies '0' <= #[trigger] rest[i] <= '9' by {
            assert(rest[i] == d[i]);
        }
        lemma_number(rest);
        assert('0' <= d[d.len() - 1] <= '9');
        if brake_reverse_lamps::number(d) == 0 {
            assert forall|i: int| 0 <= i < d.len() implies #[trigger] d[i] == '0' by {
                if i < rest.len() {
                    assert(rest[i] == '0');
                }
            }
        }
        if forall|i: int| 0 <= i < d.len() ==> #[trigger] d[i] == '0' {
            assert forall|i: int| 0 <= i < rest.len() implies #[trigger] rest[i] == '0' by {
                assert(rest[i] == d[i]);
            }
        }
        if rest.len() > 0 {
            assert(rest[0] == d[0]);
        }
    }
}

proof fn lemma_ten_grows(a: nat, b: nat)
    requires
        a <= b,
    ensures
        0 < ten_to(a) <= ten_to(b),
    decreases b,
{
    if a < b {
        lemma_ten_grows(a, (b - 1) as nat);
    } else if a > 0 {
        lemma_ten_grows((a - 1) as nat, (a - 1) as nat);
    }
}

/// The state and the effects after a run of values of the camera.
pub open spec fn camera_run(s: AutoHighBeam, values: Seq<Value>) -> (AutoHighBeam, Seq<Effect>)
    decreases values.len(),
{
    if values.len() == 0 {
        (s, Seq::empty())
    } else {
        let (t, before) = camera_run(s, values.drop_last());
        let (u, last) = t.after(values.last());
        (u, before + last)
    }
}

/// Over every run the high beam is claimed off at high priority exactly while the
/// latest value of the camera says that a vehicle is oncoming, and one effect is
/// put out for each change and none otherwise.
pub proof fn law_camera_decides_high_beam(s: AutoHighBeam, values: Seq<Value>, v: Value)
    requires
        call_ensures(AutoHighBeam::new, (), s),
    ensures
        history::standing(
            camera_run(s, values).1,
            Domain::LowBeam,
            HIGH_BEAM,
            FeatureId::AutoHighBeam,
        ) == due(
            values.len() > 0 && values.last() == Value::Bool(true),
            false,
            Priority::High,
        ),
        camera_run(s, values).0.after(v).1.len() == if (values.len() > 0 && values.last()
            == Value::Bool(true)) == (v == Value::Bool(true)) {
            0nat
        } else {
            1nat
        },
    decreases values.len(),
{
    let read = history::claimed_on(Domain::LowBeam, HIGH_BEAM@, FeatureId::AutoHighBeam);
    if values.len() > 0 {
        let (t, before) = camera_run(s, values.drop_last());
        let (u, last) = t.after(values.last());
        law_camera_decides_high_beam(s, values.drop_last(), values.last());
        lemma_camera_state(s, values.drop_last());
        history::lemma_latest_of_two(before, last, read);
        history::lemma_latest_of_few(last, read);
    }
    lemma_camera_state(s, values);
}

proof fn lemma_camera_state(s: AutoHighBeam, values: Seq<Value>)
    requires
        call_ensures(AutoHighBeam::new, (), s),
    ensures
        camera_run(s, values).0.suppressing == (values.len() > 0 && values.last() == Value::Bool(
            true,
        )),
{
}

/// The state and the effects after a run of values of the horn pad.
pub open spec fn horn_run(s: ManualHorn, values: Seq<Value>) -> (ManualHorn, Seq<Effect>)
    decreases values.len(),
{
    if values.len() == 0 {
        (s, Seq::empty())
    } else {
        let (t, before) = horn_run(s, values.drop_last());
        let (u, last) = t.after(values.last());
        (u, before + last)
    }
}

/// Over every run the horn is claimed on at medium priority exactly while the
/// latest value of the pad is a press, and one effect is put out for each change
/// and none otherwise.
pub proof fn law_pad_decides_horn(s: ManualHorn, values: Seq<Value>, v: Value)
    requires
        call_ensures(ManualHorn::new, (), s),
    ensures
        history::standing(horn_run(s, values).1, Domain::Horn, HORN, FeatureId::ManualHorn) == due(
            values.len() > 0 && values.last() == Value::Bool(true),
            true,
            Priority::Medium,
        ),
        horn_run(s, values).0.after(v).1.len() == if (values.len() > 0 && values.last()
            == Value::Bool(true)) == (v == Value::Bool(true)) {
            0nat
        } else {
            1nat
        },
    decreases values.len(),
{
    let read = history::claimed_on(Domain::Horn, HORN@, FeatureId::ManualHorn);
    if values.len() > 0 {
        let (t, before) = horn_run(s, values.drop_last());
        let (u, last) = t.after(values.last());
        law_pad_decides_horn(s, values.drop_last(), values.last());
        lemma_horn_state(s, values.drop_last());
        history::lemma_latest_of_two(before, last, read);
        history::lemma_latest_of_few(last, read);
    }
    lemma_horn_state(s, values);
}

proof fn lemma_horn_state(s: ManualHorn, values: Seq<Value>)
    requires
        call_ensures(ManualHorn::new, (), s),
    ensures
        horn_run(s, values).0.claimed == (values.len() > 0 && values.last() == Value::Bool(true)),
{
}

/// The signals of the two indicators, of the two puddle lamps, and of the lights
/// that follow the driver home differ.
pub proof fn lemma_lamp_signals()
    ensures
        LEFT_INDICATOR@ != RIGHT_INDICATOR@,
        PUDDLE_LEFT@ != PUDDLE_RIGHT@,
        LOW_BEAM@ != PARKING_LIGHTS@,
        LOW_BEAM@ != LICENSE_PLATE@,
        PARKING_LIGHTS@ != LICENSE_PLATE@,
{
    reveal_strlit("Body.Lights.DirectionIndicator.Left.IsSignaling");
    reveal_strlit("Body.Lights.DirectionIndicator.Right.IsSignaling");
    reveal_strlit("Body.Lights.Puddle.Left.IsOn");
    reveal_strlit("Body.Lights.Puddle.Right.IsOn");
    reveal_strlit("Body.Lights.Beam.Low.IsOn");
    reveal_strlit("Body.Lights.Parking.IsOn");
    reveal_strlit("Body.Lights.LicensePlate.IsOn");
    assert(LEFT_INDICATOR@.len() != RIGHT_INDICATOR@.len());
    assert(PUDDLE_LEFT@.len() != PUDDLE_RIGHT@.len());
    assert(LOW_BEAM@[12] == 'B' && PARKING_LIGHTS@[12] == 'P' && LICENSE_PLATE@[12] == 'L');
}

/// Whatever was put out before, after a value of the hazard switch both indicators
/// are claimed on at high priority if the switch is engaged, and neither is
/// claimed if it is not.
pub proof fn law_hazard_switch_decides_indicators(before: Seq<Effect>, v: Value)
    ensures
        ({
            let all = before + HazardLighting::effects(v);
            let claim = due(v == Value::Bool(true), true, Priority::High);
            &&& history::standing(all, Domain::Lighting, LEFT_INDICATOR, FeatureId::Hazard)
                == claim
            &&& history::standing(all, Domain::Lighting, RIGHT_INDICATOR, FeatureId::Hazard)
                == claim
            &&& HazardLighting::effects(v).len() == 2
        }),
{
    lemma_lamp_signals();
    let last = HazardLighting::effects(v);
    let left = history::claimed_on(Domain::Lighting, LEFT_INDICATOR@, FeatureId::Hazard);
    let right = history::claimed_on(Domain::Lighting, RIGHT_INDICATOR@, FeatureId::Hazard);
    history::lemma_latest_of_two(before, last, left);
    history::lemma_latest_of_two(before, last, right);
    history::lemma_latest_of_few(last, left);
    history::lemma_latest_of_few(last, right);
}

/// Something that happens to the dome switch: a value of the switch, or of the
/// door at a position.
pub enum DomeEvent {
    Switch(Value),
    Door(int, Value),
}

/// The dome switch after a run of events from `s`, and the effects. Only the four
/// doors count.
pub open spec fn dome_run(s: DomeState, events: Seq<DomeEvent>) -> (DomeState, Seq<Effect>)
    decreases events.len(),
{
    if events.len() == 0 {
        (s, Seq::empty())
    } else {
        let (t, before) = dome_run(s, events.drop_last());
        let (u, last) = match events.last() {
            DomeEvent::Switch(v) => t.after_switch(v),
            DomeEvent::Door(i, v) => if 0 <= i < 4 {
                t.after_door(i, v)
            } else {
                (t, Seq::empty())
            },
        };
        (u, before + last)
    }
}

/// Reads off an event the position that it names.
pub open spec fn dome_position() -> spec_fn(DomeEvent) -> Option<Seq<char>> {
    |e: DomeEvent|
        match e {
            DomeEvent::Switch(Value::Text(t)) => if t == "OFF"@ || t == "DOOR"@ || t == "ON"@ {
                Some(t)
            } else {
                None
            },
            _ => None,
        }
}

/// Reads off an event whether the door at a position is open.
pub open spec fn dome_door(at: int) -> spec_fn(DomeEvent) -> Option<bool> {
    |e: DomeEvent|
        match e {
            DomeEvent::Door(i, Value::Bool(b)) => if i == at {
                Some(b)
            } else {
                None
            },
            _ => None,
        }
}

/// Some door was seen open last.
pub open spec fn dome_any_open(events: Seq<DomeEvent>) -> bool {
    exists|i: int|
        0 <= i < 4 && #[trigger] history::latest(events, dome_door(i)) == Some(true)
}

/// The dome lamp that a history calls for: on with the switch at on, off with it
/// at off, and at door by whether a door was seen open last.
pub open spec fn dome_due(events: Seq<DomeEvent>) -> bool {
    let pos = history::latest_or(events, dome_position(), "OFF"@);
    pos == "ON"@ || pos == "DOOR"@ && dome_any_open(events)
}

proof fn lemma_dome(s: DomeState, events: Seq<DomeEvent>)
    requires
        s.pos is Off,
        s.open == seq![false, false, false, false],
        s.claimed == Some(false),
    ensures
        ({
            let t = dome_run(s, events).0;
            let pos = history::latest_or(events, dome_position(), "OFF"@);
            &&& t.open.len() == 4
            &&& forall|i: int|
                0 <= i < 4 ==> #[trigger] t.open[i] == history::latest_or(
                    events,
                    dome_door(i),
                    false,
                )
            &&& (t.pos is Off) == (pos == "OFF"@)
            &&& (t.pos is Door) == (pos == "DOOR"@)
            &&& (t.pos is On) == (pos == "ON"@)
            &&& t.claimed == Some(t.want())
        }),
    decreases events.len(),
{
    reveal_strlit("OFF");
    reveal_strlit("DOOR");
    reveal_strlit("ON");
    assert("OFF"@.len() == 3 && "DOOR"@.len() == 4 && "ON"@.len() == 2);
    if events.len() > 0 {
        lemma_dome(s, events.drop_last());
        let t = dome_run(s, events.drop_last()).0;
        match events.last() {
            DomeEvent::Switch(v) => {
                crate::features::dome_switch::law_claim_follows_switch(t, v, 0, true);
            },
            DomeEvent::Door(i, v) => {
                if 0 <= i < 4 {
                    crate::features::dome_switch::law_claim_follows_switch(t, v, i, true);
                }
            },
        }
    }
}

proof fn lemma_dome_want(s: DomeState, events: Seq<DomeEvent>)
    requires
        s.pos is Off,
        s.open == seq![false, false, false, false],
        s.claimed == Some(false),
    ensures
        dome_run(s, events).0.want() == dome_due(events),
        dome_run(s, events).0.valid(),
{
    lemma_dome(s, events);
    let t = dome_run(s, events).0;
    reveal_strlit("OFF");
    reveal_strlit("DOOR");
    reveal_strlit("ON");
    assert("OFF"@.len() == 3 && "DOOR"@.len() == 4 && "ON"@.len() == 2);
    if crate::features::doors::any(t.open) {
        let i = choose|i: int| 0 <= i < t.open.len() && #[trigger] t.open[i];
        assert(history::latest(events, dome_door(i)) == Some(true));
    }
    if dome_any_open(events) {
        let i = choose|i: int|
            0 <= i < 4 && #[trigger] history::latest(events, dome_door(i)) == Some(true);
        assert(t.open[i]);
    }
}

/// At start-up the lamp is claimed off, at low priority, and a switch without a
/// value is set off first. From then on, over every run, the claim that stands is
/// what the latest position and the latest state of the doors call for.
pub proof fn law_dome_follows_latest_inputs(
    dome: DomeSwitch,
    known: bool,
    events: Seq<DomeEvent>,
)
    requires
        call_ensures(DomeSwitch::new, (), dome),
    ensures
        ({
            let (s, first) = dome@.booted(known);
            let off = Effect::claim(
                Domain::Courtesy,
                DOME,
                Value::Bool(false),
                Priority::Low,
                FeatureId::DomeSwitch,
            );
            &&& first == if known {
                seq![off]
            } else {
                seq![Effect::publish(SWITCH, Value::Text("OFF"@)), off]
            }
            &&& history::standing(
                first + dome_run(s, events).1,
                Domain::Courtesy,
                DOME,
                FeatureId::DomeSwitch,
            ) == Some((Value::Bool(dome_due(events)), Priority::Low))
        }),
    decreases events.len(),
{
    let (s, first) = dome@.booted(known);
    let read = history::claimed_on(Domain::Courtesy, DOME@, FeatureId::DomeSwitch);
    assert(!crate::features::doors::any(dome@.open));
    history::lemma_latest_of_few(first, read);
    lemma_dome_want(s, events);
    if events.len() == 0 {
        assert(first + dome_run(s, events).1 =~= first);
    } else {
        let rest = events.drop_last();
        let (t, before) = dome_run(s, rest);
        law_dome_follows_latest_inputs(dome, known, rest);
        lemma_dome_want(s, rest);
        let last = match events.last() {
            DomeEvent::Switch(v) => {
                crate::features::dome_switch::law_claims_changes_only(t, v, 0);
                t.after_switch(v).1
            },
            DomeEvent::Door(i, v) => {
                if 0 <= i < 4 {
                    crate::features::dome_switch::law_claims_changes_only(t, v, i);
                    t.after_door(i, v).1
                } else {
                    Seq::empty()
                }
            },
        };
        assert(first + dome_run(s, events).1 =~= (first + before) + last);
        history::lemma_latest_of_two(first + before, last, read);
        history::lemma_latest_of_few(last, read);
    }
}

/// Something that happens to the door-open assist: a light reading, or a value of
/// the door at a position.
pub enum AssistEvent {
    Lux(Value),
    Door(int, Value),
}

/// The door-open assist after a run of events, and the effects. Only the four
/// doors count.
pub open spec fn assist_run(s: AssistState, events: Seq<AssistEvent>) -> (AssistState, Seq<Effect>)
    decreases events.len(),
{
    if events.len() == 0 {
        (s, Seq::empty())
    } else {
        let (t, before) = assist_run(s, events.drop_last());
        let (u, last) = match events.last() {
            AssistEvent::Lux(v) => t.after_lux(v),
            AssistEvent::Door(i, v) => if 0 <= i < 4 {
                t.after_door(i, v)
            } else {
                (t, Seq::empty())
            },
        };
        (u, before + last)
    }
}

/// Reads off an event the illuminance.
pub open spec fn assist_lux() -> spec_fn(AssistEvent) -> Option<u16> {
    |e: AssistEvent|
        match e {
            AssistEvent::Lux(Value::Uint16(lux)) => Some(lux),
            _ => None,
        }
}

/// Reads off an event whether the door at a position is open.
pub open spec fn assist_door(at: int) -> spec_fn(AssistEvent) -> Option<bool> {
    |e: AssistEvent|
        match e {
            AssistEvent::Door(i, Value::Bool(b)) => if i == at {
                Some(b)
            } else {
                None
            },
            _ => None,
        }
}

/// The puddle lamps that a history calls for: the latest illuminance is at most
/// the threshold, and a door was seen open last.
pub open spec fn assist_due(threshold: u16, events: Seq<AssistEvent>) -> bool {
    &&& history::latest_or(events, assist_lux(), u16::MAX) <= threshold
    &&& exists|i: int|
        0 <= i < 4 && #[trigger] history::latest(events, assist_door(i)) == Some(true)
}

proof fn lemma_assist(config: PlatformConfig, assist: DoorOpenAssist, events: Seq<AssistEvent>)
    requires
        call_ensures(DoorOpenAssist::new, (&config,), assist),
    ensures
        ({
            let t = assist_run(assist@, events).0;
            &&& t.threshold == config.vehicle_line.auto_headlamp_lux_threshold
            &&& t.open.len() == 4
            &&& forall|i: int|
                0 <= i < 4 ==> #[trigger] t.open[i] == history::latest_or(
                    events,
                    assist_door(i),
                    false,
                )
            &&& t.lux == history::latest_or(events, assist_lux(), u16::MAX)
            &&& t.claimed == t.want()
        }),
    decreases events.len(),
{
    if events.len() > 0 {
        lemma_assist(config, assist, events.drop_last());
        let t = assist_run(assist@, events.drop_last()).0;
        let u = assist_run(assist@, events).0;
        assert forall|i: int| 0 <= i < 4 implies #[trigger] u.open[i] == history::latest_or(
            events,
            assist_door(i),
            false,
        ) by {
            assert(t.open[i] == history::latest_or(events.drop_last(), assist_door(i), false));
        }
    } else {
        assert(!crate::features::doors::any(assist@.open));
    }
}

/// Over every run both puddle lamps are claimed on, at low priority, exactly while
/// the history calls for them, with the threshold of the vehicle line.
pub proof fn law_assist_follows_latest_inputs(
    config: PlatformConfig,
    assist: DoorOpenAssist,
    events: Seq<AssistEvent>,
)
    requires
        call_ensures(DoorOpenAssist::new, (&config,), assist),
    ensures
        ({
            let out = assist_run(assist@, events).1;
            let claim = due(
                assist_due(config.vehicle_line.auto_headlamp_lux_threshold, events),
                true,
                Priority::Low,
            );
            &&& history::standing(out, Domain::Puddle, PUDDLE_LEFT, FeatureId::DoorOpenAssist)
                == claim
            &&& history::standing(out, Domain::Puddle, PUDDLE_RIGHT, FeatureId::DoorOpenAssist)
                == claim
        }),
    decreases events.len(),
{
    lemma_lamp_signals();
    lemma_assist(config, assist, events);
    let u = assist_run(assist@, events).0;
    let threshold = config.vehicle_line.auto_headlamp_lux_threshold;
    assert(u.want() == assist_due(threshold, events)) by {
        if u.want() {
            let i = choose|i: int| 0 <= i < u.open.len() && #[trigger] u.open[i];
            assert(history::latest(events, assist_door(i)) == Some(true));
        }
        if assist_due(threshold, events) {
            let i = choose|i: int|
                0 <= i < 4 && #[trigger] history::latest(events, assist_door(i)) == Some(true);
            assert(u.open[i]);
        }
    }
    if events.len() > 0 {
        let rest = events.drop_last();
        let (t, before) = assist_run(assist@, rest);
        law_assist_follows_latest_inputs(config, assist, rest);
        lemma_assist(config, assist, rest);
        assert(t.want() == assist_due(threshold, rest)) by {
            if t.want() {
                let i = choose|i: int| 0 <= i < t.open.len() && #[trigger] t.open[i];
                assert(history::latest(rest, assist_door(i)) == Some(true));
            }
            if assist_due(threshold, rest) {
                let i = choose|i: int|
                    0 <= i < 4 && #[trigger] history::latest(rest, assist_door(i)) == Some(true);
                assert(t.open[i]);
            }
        }
        let last = match events.last() {
            AssistEvent::Lux(v) => t.after_lux(v).1,
            AssistEvent::Door(i, v) => if 0 <= i < 4 {
                t.after_door(i, v).1
            } else {
                Seq::empty()
            },
        };
        let left = history::claimed_on(Domain::Puddle, PUDDLE_LEFT@, FeatureId::DoorOpenAssist);
        let right = history::claimed_on(Domain::Puddle, PUDDLE_RIGHT@, FeatureId::DoorOpenAssist);
        history::lemma_latest_of_two(before, last, left);
        history::lemma_latest_of_two(before, last, right);
        history::lemma_latest_of_few(last, left);
        history::lemma_latest_of_few(last, right);
    }
}

/// Follow-me-home after a run of events, and the effects.
pub open spec fn home_run(s: FollowMeHome, events: Seq<HomeEvent>) -> (FollowMeHome, Seq<Effect>)
    decreases events.len(),
{
    if events.len() == 0 {
        (s, Seq::empty())
    } else {
        let (t, before) = home_run(s, events.drop_last());
        let (u, last) = t.after(events.last());
        (u, before + last)
    }
}

/// Reads off an event whether the power state is off or the accessory position.
pub open spec fn home_power() -> spec_fn(HomeEvent) -> Option<bool> {
    |e: HomeEvent|
        match e {
            HomeEvent::Power(v) => Some(v == Value::Text("OFF"@) || v == Value::Text("ACC"@)),
            _ => None,
        }
}

/// Reads off an event whether the driver door is open.
pub open spec fn home_door() -> spec_fn(HomeEvent) -> Option<bool> {
    |e: HomeEvent|
        match e {
            HomeEvent::Door(v, _) => Some(v == Value::Bool(true)),
            _ => None,
        }
}

/// Reads off an event the illuminance.
pub open spec fn home_lux() -> spec_fn(HomeEvent) -> Option<u16> {
    |e: HomeEvent|
        match e {
            HomeEvent::Lux(Value::Uint16(lux)) => Some(lux),
            _ => None,
        }
}

/// The driver leaves in the dark: the door opens that was seen closed last, with
/// the power state seen last at off or accessory and the latest illuminance below
/// the threshold.
pub open spec fn leaves_in_the_dark(
    threshold: u16,
    before: Seq<HomeEvent>,
    event: HomeEvent,
) -> bool {
    &&& event matches HomeEvent::Door(v, _) && v == Value::Bool(true)
    &&& !history::latest_or(before, home_door(), false)
    &&& history::latest(before, home_power()) == Some(true)
    &&& history::latest_or(before, home_lux(), u16::MAX) < threshold
}

/// Until when the lights are held after a run of events: 45 seconds from each time
/// the driver leaves in the dark, unless the vehicle is switched on or that time
/// has come.
pub open spec fn held_until(threshold: u16, events: Seq<HomeEvent>) -> Option<u64>
    decreases events.len(),
{
    if events.len() == 0 {
        None
    } else {
        let before = events.drop_last();
        let held = held_until(threshold, before);
        match events.last() {
            HomeEvent::Door(_, now) => if leaves_in_the_dark(threshold, before, events.last()) {
                Some(clock::later(now, 45_000))
            } else {
                held
            },
            HomeEvent::Power(v) => if on(v) {
                None
            } else {
                held
            },
            HomeEvent::Tick(now) => match held {
                Some(t) => if now >= t {
                    None
                } else {
                    held
                },
                None => None,
            },
            HomeEvent::Lux(_) => held,
        }
    }
}

proof fn lemma_home(s: FollowMeHome, threshold: u16, events: Seq<HomeEvent>)
    requires
        call_ensures(FollowMeHome::new, (threshold,), s),
    ensures
        ({
            let t = home_run(s, events).0;
            &&& t.lux_threshold == threshold
            &&& t.armed == history::latest_or(events, home_power(), false)
            &&& t.door_ajar == history::latest_or(events, home_door(), false)
            &&& t.ambient_lux == history::latest_or(events, home_lux(), u16::MAX)
            &&& t.deadline == held_until(threshold, events)
        }),
    decreases events.len(),
{
    if events.len() > 0 {
        lemma_home(s, threshold, events.drop_last());
        if let HomeEvent::Power(v) = events.last() {
            crate::features::power::law_on_and_off_exclude_each_other(v);
        }
    }
}

/// Over every run low beam, parking lights and licence plate light are claimed on,
/// at high priority, exactly while the driver, having left in the dark, is to be
/// lit home.
pub proof fn law_home_lights_follow_history(
    s: FollowMeHome,
    threshold: u16,
    events: Seq<HomeEvent>,
)
    requires
        call_ensures(FollowMeHome::new, (threshold,), s),
    ensures
        home_run(s, events).0.deadline == held_until(threshold, events),
        ({
            let out = home_run(s, events).1;
            let claim = due(held_until(threshold, events) is Some, true, Priority::High);
            &&& history::standing(out, Domain::LowBeam, LOW_BEAM, FeatureId::FollowMeHome)
                == claim
            &&& history::standing(out, Domain::LowBeam, PARKING_LIGHTS, FeatureId::FollowMeHome)
                == claim
            &&& history::standing(out, Domain::LowBeam, LICENSE_PLATE, FeatureId::FollowMeHome)
                == claim
        }),
    decreases events.len(),
{
    lemma_lamp_signals();
    lemma_home(s, threshold, events);
    if events.len() > 0 {
        let rest = events.drop_last();
        let (t, before) = home_run(s, rest);
        law_home_lights_follow_history(s, threshold, rest);
        lemma_home(s, threshold, rest);
        let last = t.after(events.last()).1;
        let low = history::claimed_on(Domain::LowBeam, LOW_BEAM@, FeatureId::FollowMeHome);
        let parking = history::claimed_on(
            Domain::LowBeam,
            PARKING_LIGHTS@,
            FeatureId::FollowMeHome,
        );
        let plate = history::claimed_on(Domain::LowBeam, LICENSE_PLATE@, FeatureId::FollowMeHome);
        history::lemma_latest_of_two(before, last, low);
        history::lemma_latest_of_two(before, last, parking);
        history::lemma_latest_of_two(before, last, plate);
        history::lemma_latest_of_few(last, low);
        history::lemma_latest_of_few(last, parking);
        history::lemma_latest_of_few(last, plate);
    }
}

/// The farewell feature after a run of events, and the effects.
pub open spec fn farewell_run(s: Farewell, events: Seq<FarewellEvent>) -> (Farewell, Seq<Effect>)
    decreases events.len(),
{
    if events.len() == 0 {
        (s, Seq::empty())
    } else {
        let (t, before) = farewell_run(s, events.drop_last());
        let (u, last) = t.after(events.last());
        (u, before + last)
    }
}

/// Reads off an event whether the vehicle is on.
pub open spec fn farewell_power() -> spec_fn(FarewellEvent) -> Option<bool> {
    |e: FarewellEvent|
        match e {
            FarewellEvent::Power(v, _) => Some(on(v)),
            _ => None,
        }
}

/// What a history has come to: waiting for a door until a time after the vehicle
/// was switched off, holding the lights until a time after a door opened, or
/// neither.
pub open spec fn farewell_phase(
    arm: u64,
    hold: u64,
    events: Seq<FarewellEvent>,
) -> FarewellPhase
    decreases events.len(),
{
    if events.len() == 0 {
        FarewellPhase::Idle
    } else {
        let before = events.drop_last();
        let phase = farewell_phase(arm, hold, before);
        let was_on = history::latest_or(before, farewell_power(), false);
        match events.last() {
            FarewellEvent::Power(v, now) => if on(v) {
                FarewellPhase::Idle
            } else if was_on {
                FarewellPhase::Armed { arm_deadline: clock::later(now, arm) }
            } else {
                phase
            },
            FarewellEvent::LockStatus(v) => if phase is Holding && (v == Value::Text("LOCKED"@)
                || v == Value::Text("DOUBLE_LOCKED"@)) {
                FarewellPhase::Idle
            } else {
                phase
            },
            FarewellEvent::Door(v, now) => if phase is Armed && v == Value::Bool(true) {
                FarewellPhase::Holding { hold_deadline: clock::later(now, hold) }
            } else {
                phase
            },
            FarewellEvent::Tick(now) => match phase {
                FarewellPhase::Armed { arm_deadline } => if now >= arm_deadline {
                    FarewellPhase::Idle
                } else {
                    phase
                },
                FarewellPhase::Holding { hold_deadline } => if now >= hold_deadline {
                    FarewellPhase::Idle
                } else {
                    phase
                },
                FarewellPhase::Idle => FarewellPhase::Idle,
            },
        }
    }
}

proof fn lemma_farewell(s: Farewell, events: Seq<FarewellEvent>)
    requires
        call_ensures(Farewell::new, (), s),
    ensures
        ({
            let t = farewell_run(s, events).0;
            &&& t.arm_window == 30_000
            &&& t.hold == 20_000
            &&& t.powered_on == history::latest_or(events, farewell_power(), false)
            &&& t.phase == farewell_phase(30_000, 20_000, events)
            &&& t.powered_on ==> t.phase is Idle
        }),
    decreases events.len(),
{
    if events.len() > 0 {
        lemma_farewell(s, events.drop_last());
    }
}

/// Over every run the puddle lamps and the dome light are claimed on, at medium
/// priority, exactly while the history holds them: from a door that opens within
/// 30 seconds after the vehicle was switched off, for 20 seconds, unless the
/// vehicle is locked or switched on before.
pub proof fn law_farewell_lights_follow_history(s: Farewell, events: Seq<FarewellEvent>)
    requires
        call_ensures(Farewell::new, (), s),
    ensures
        farewell_run(s, events).0.phase == farewell_phase(30_000, 20_000, events),
        ({
            let out = farewell_run(s, events).1;
            let claim = due(
                farewell_phase(30_000, 20_000, events) is Holding,
                true,
                Priority::Medium,
            );
            &&& history::standing(out, Domain::Puddle, PUDDLE_LEFT, FeatureId::Farewell) == claim
            &&& history::standing(out, Domain::Puddle, PUDDLE_RIGHT, FeatureId::Farewell) == claim
            &&& history::standing(out, Domain::Courtesy, DOME, FeatureId::Farewell) == claim
        }),
    decreases events.len(),
{
    lemma_lamp_signals();
    lemma_farewell(s, events);
    if events.len() > 0 {
        let rest = events.drop_last();
        let (t, before) = farewell_run(s, rest);
        law_farewell_lights_follow_history(s, rest);
        lemma_farewell(s, rest);
        let last = t.after(events.last()).1;
        let left = history::claimed_on(Domain::Puddle, PUDDLE_LEFT@, FeatureId::Farewell);
        let right = history::claimed_on(Domain::Puddle, PUDDLE_RIGHT@, FeatureId::Farewell);
        let dome = history::claimed_on(Domain::Courtesy, DOME@, FeatureId::Farewell);
        history::lemma_latest_of_two(before, last, left);
        history::lemma_latest_of_two(before, last, right);
        history::lemma_latest_of_two(before, last, dome);
        history::lemma_latest_of_few(last, left);
        history::lemma_latest_of_few(last, right);
        history::lemma_latest_of_few(last, dome);
    }
}

/// A digit more makes a number ten times as large and adds the digit. A gear text
/// of any length is a reverse gear exactly when the number after the minus sign is
/// one of sixty-four bits, and not zero.
pub proof fn law_gear_numbers(d: Seq<char>, c: char, t: Seq<char>)
    ensures
        brake_reverse_lamps::number(Seq::<char>::empty()) == 0,
        brake_reverse_lamps::number(d.push(c)) == 10 * brake_reverse_lamps::number(d) + (c as int
            - '0' as int),
        ({
            &&& t.len() >= 2
            &&& t[0] == '-'
            &&& forall|i: int| 1 <= i < t.len() ==> '0' <= #[trigger] t[i] <= '9'
        }) ==> (brake_reverse_lamps::reverse_gear(Value::Text(t)) <==> 1
            <= brake_reverse_lamps::number(t.skip(1)) <= 9_223_372_036_854_775_808),
{
    assert(d.push(c).drop_last() =~= d);
    if t.len() >= 2 && t[0] == '-' && forall|i: int|
        1 <= i < t.len() ==> '0' <= #[trigger] t[i] <= '9' {
        assert forall|i: int| 1 <= i < t.len() implies brake_reverse_lamps::is_digit(
            #[trigger] t[i],
        ) by {}
    }
}

} // verus!
