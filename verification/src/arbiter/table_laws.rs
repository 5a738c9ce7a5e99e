//! What the priority tables mean for the features that share an actuator.

use vstd::prelude::*;

use crate::arbiter::domain;
use crate::arbiter::domain::{ArbiterState, Gate, Permission};
use crate::arbiter::domain_laws;
use crate::arbiter::tables;
use crate::arbiter::tables::{
    DOME, HAZARD_MASTER, HIGH_BEAM, HORN, LEFT_INDICATOR, LICENSE_PLATE, LOW_BEAM,
    PARKING_LIGHTS, PUDDLE_LEFT, PUDDLE_RIGHT, RIGHT_INDICATOR, RUNNING_LIGHTS, TRUNK_OPEN_CMD,
};
use crate::ipc_message::{FeatureId, Priority, Value};
use crate::signal_bus::Demand;

verus! {

/// Every claim is one that the allow-list permits.
pub open spec fn lawful(s: ArbiterState) -> bool {
    forall|p: Seq<char>, f: FeatureId| #[trigger]
        s.has_claim(p, f) ==> s.allowed.contains((f, p, s.claims[(p, f)].priority))
}

/// Whatever happens to an arbiter, its claims are ones that the allow-list permits,
/// and the allow-list stays the same.
pub proof fn law_claims_stay_lawful(
    s: ArbiterState,
    table: Seq<Permission>,
    demand: Demand,
    closed: bool,
    value: Value,
)
    requires
        lawful(s),
    ensures
        lawful(domain::initial(table)),
        s.permits(demand) ==> lawful(s.claimed(demand)),
        lawful(s.released(demand.signal, demand.feature_id)),
        lawful(s.gated(demand.signal, closed)),
        lawful(s.shown(demand.signal, value)),
        s.claimed(demand).allowed == s.allowed,
        s.released(demand.signal, demand.feature_id).allowed == s.allowed,
        s.gated(demand.signal, closed).allowed == s.allowed,
        s.shown(demand.signal, value).allowed == s.allowed,
{
    if s.permits(demand) {
        let t = s.claimed(demand);
        assert forall|p: Seq<char>, f: FeatureId| #[trigger] t.has_claim(p, f) implies t.allowed.contains(
            (f, p, t.claims[(p, f)].priority),
        ) by {
            if (p, f) != (demand.signal, demand.feature_id) {
                assert(s.has_claim(p, f));
            }
        }
    }
    let r = s.released(demand.signal, demand.feature_id);
    assert forall|p: Seq<char>, f: FeatureId| #[trigger] r.has_claim(p, f) implies r.allowed.contains(
        (f, p, r.claims[(p, f)].priority),
    ) by {
        assert(s.has_claim(p, f));
    }
    let g = s.gated(demand.signal, closed);
    assert forall|p: Seq<char>, f: FeatureId| #[trigger] g.has_claim(p, f) implies g.allowed.contains(
        (f, p, g.claims[(p, f)].priority),
    ) by {
        assert(s.has_claim(p, f));
    }
    let w = s.shown(demand.signal, value);
    assert forall|p: Seq<char>, f: FeatureId| #[trigger] w.has_claim(p, f) implies w.allowed.contains(
        (f, p, w.claims[(p, f)].priority),
    ) by {
        assert(s.has_claim(p, f));
    }
}

/// On `signal` no other feature is permitted a priority as high as `f` is, which
/// is permitted no other than `p`.
pub open spec fn tops(table: Seq<Permission>, signal: Seq<char>, f: FeatureId, p: Priority) -> bool {
    forall|i: int|
        0 <= i < table.len() && (#[trigger] table[i]).1 == signal ==> if table[i].0 == f {
            table[i].2 == p
        } else {
            table[i].2.rank() < p.rank()
        }
}

proof fn lemma_row_of(s: ArbiterState, table: Seq<Permission>, signal: Seq<char>, f: FeatureId) -> (i:
    int)
    requires
        lawful(s),
        s.allowed == table.to_set(),
        s.has_claim(signal, f),
    ensures
        0 <= i < table.len(),
        table[i] == (f, signal, s.claims[(signal, f)].priority),
{
    let row = (f, signal, s.claims[(signal, f)].priority);
    assert(table.to_set().contains(row));
    choose|i: int| 0 <= i < table.len() && table[i] == row
}

proof fn lemma_top_wins(
    s: ArbiterState,
    table: Seq<Permission>,
    signal: Seq<char>,
    f: FeatureId,
    p: Priority,
)
    requires
        lawful(s),
        s.allowed == table.to_set(),
        tops(table, signal, f, p),
        s.has_claim(signal, f),
    ensures
        s.wins(signal, f),
        !s.closed.contains(signal) ==> s.resolved(signal) == s.claims[(signal, f)].value,
{
    let i = lemma_row_of(s, table, signal, f);
    assert forall|o: FeatureId| #[trigger] s.has_claim(signal, o) && o != f implies s.claims[(
        signal,
        f,
    )].outranks(s.claims[(signal, o)]) by {
        let j = lemma_row_of(s, table, signal, o);
    }
    assert(s.wins(signal, f));
    domain::lemma_one_winner(s, signal, f);
}

proof fn lemma_beam_paths()
    ensures
        LOW_BEAM@ != HIGH_BEAM@,
        LOW_BEAM@ != RUNNING_LIGHTS@,
        LOW_BEAM@ != PARKING_LIGHTS@,
        LOW_BEAM@ != LICENSE_PLATE@,
        HIGH_BEAM@ != RUNNING_LIGHTS@,
        HIGH_BEAM@ != PARKING_LIGHTS@,
        HIGH_BEAM@ != LICENSE_PLATE@,
        PARKING_LIGHTS@ != LICENSE_PLATE@,
        PARKING_LIGHTS@ != RUNNING_LIGHTS@,
        LICENSE_PLATE@ != RUNNING_LIGHTS@,
{
    reveal_strlit("Body.Lights.Beam.Low.IsOn");
    reveal_strlit("Body.Lights.Beam.High.IsOn");
    reveal_strlit("Body.Lights.Running.IsOn");
    reveal_strlit("Body.Lights.Parking.IsOn");
    reveal_strlit("Body.Lights.LicensePlate.IsOn");
    assert(LOW_BEAM@[12] == 'B' && HIGH_BEAM@[12] == 'B' && RUNNING_LIGHTS@[12] == 'R'
        && PARKING_LIGHTS@[12] == 'P' && LICENSE_PLATE@[12] == 'L');
    assert(LOW_BEAM@[17] == 'L' && HIGH_BEAM@[17] == 'H');
}

/// While follow-me-home holds low beam, parking or licence plate lights, the arbiter
/// resolves them to what it asks for, whatever is claimed or released under the
/// feature `LowBeam`.
pub proof fn law_follow_me_home_outranks_low_beam_claims(s: ArbiterState, signal: Seq<char>)
    requires
        s.allowed == tables::low_beam_table().to_set(),
        lawful(s),
        s.closed == Set::<Seq<char>>::empty(),
        signal == LOW_BEAM@ || signal == PARKING_LIGHTS@ || signal == LICENSE_PLATE@,
        s.has_claim(signal, FeatureId::FollowMeHome),
    ensures
        s.resolved(signal) == s.claims[(signal, FeatureId::FollowMeHome)].value,
{
    lemma_beam_paths();
    let table = tables::low_beam_table();
    assert(tops(table, signal, FeatureId::FollowMeHome, Priority::High));
    lemma_top_wins(s, table, signal, FeatureId::FollowMeHome, Priority::High);
}

/// While auto high beam holds the high beam, the arbiter resolves it to what auto
/// high beam asks for, whatever is claimed under the feature `HighBeam`.
pub proof fn law_auto_high_beam_outranks_high_beam_claims(s: ArbiterState)
    requires
        s.allowed == tables::low_beam_table().to_set(),
        lawful(s),
        s.closed == Set::<Seq<char>>::empty(),
        s.has_claim(HIGH_BEAM@, FeatureId::AutoHighBeam),
    ensures
        s.resolved(HIGH_BEAM@) == s.claims[(HIGH_BEAM@, FeatureId::AutoHighBeam)].value,
{
    lemma_beam_paths();
    let table = tables::low_beam_table();
    assert(tops(table, HIGH_BEAM@, FeatureId::AutoHighBeam, Priority::High));
    lemma_top_wins(s, table, HIGH_BEAM@, FeatureId::AutoHighBeam, Priority::High);
}

/// While the panic alarm holds the horn, the horn pad does not disturb its pattern.
pub proof fn law_panic_alarm_outranks_horn_pad(s: ArbiterState)
    requires
        s.allowed == tables::horn_table().to_set(),
        lawful(s),
        s.closed == Set::<Seq<char>>::empty(),
        s.has_claim(HORN@, FeatureId::PanicAlarm),
    ensures
        s.resolved(HORN@) == s.claims[(HORN@, FeatureId::PanicAlarm)].value,
{
    let table = tables::horn_table();
    assert(tops(table, HORN@, FeatureId::PanicAlarm, Priority::High));
    lemma_top_wins(s, table, HORN@, FeatureId::PanicAlarm, Priority::High);
}

/// While a courtesy feature holds the dome light, the dome switch does not decide.
pub proof fn law_dome_switch_yields(s: ArbiterState, f: FeatureId)
    requires
        s.valid(),
        s.allowed == tables::courtesy_table().to_set(),
        lawful(s),
        s.closed == Set::<Seq<char>>::empty(),
        f is Welcome || f is Farewell,
        s.has_claim(DOME@, f),
    ensures
        !s.wins(DOME@, FeatureId::DomeSwitch),
        exists|w: FeatureId| #[trigger]
            s.wins(DOME@, w) && (w is Welcome || w is Farewell) && s.resolved(DOME@) == s.claims[(
                DOME@,
                w,
            )].value,
{
    let table = tables::courtesy_table();
    lemma_low_yields(s, table, DOME@, f, FeatureId::DomeSwitch);
    let w = choose|w: FeatureId| s.wins(DOME@, w);
    let i = lemma_row_of(s, table, DOME@, w);
}

/// While a courtesy feature holds a puddle lamp, the door-open light does not
/// decide, unless the mirror that houses the lamp is folded and it stays dark.
pub proof fn law_door_open_assist_yields(s: ArbiterState, signal: Seq<char>, f: FeatureId)
    requires
        s.valid(),
        s.allowed == tables::puddle_table().to_set(),
        lawful(s),
        signal == PUDDLE_LEFT@ || signal == PUDDLE_RIGHT@,
        f is Welcome || f is Farewell,
        s.has_claim(signal, f),
    ensures
        s.closed.contains(signal) ==> s.resolved(signal) == Value::off(),
        !s.closed.contains(signal) ==> !s.wins(signal, FeatureId::DoorOpenAssist)
            && exists|w: FeatureId| #[trigger]
            s.wins(signal, w) && (w is Welcome || w is Farewell) && s.resolved(signal) == s.claims[(
                signal,
                w,
            )].value,
{
    if !s.closed.contains(signal) {
        let table = tables::puddle_table();
        lemma_low_yields(s, table, signal, f, FeatureId::DoorOpenAssist);
        let w = choose|w: FeatureId| s.wins(signal, w);
        let i = lemma_row_of(s, table, signal, w);
    }
}

/// A press for the trunk is a pulse: claiming the trunk publishes that it opens,
/// giving it back at once publishes that it does not, and the next press finds it
/// as this one did.
pub proof fn law_trunk_press_is_a_pulse(s: ArbiterState, f: FeatureId)
    requires
        forall|o: FeatureId| !s.has_claim(TRUNK_OPEN_CMD@, o),
        !s.closed.contains(TRUNK_OPEN_CMD@),
        s.published.dom().contains(TRUNK_OPEN_CMD@) ==> s.published[TRUNK_OPEN_CMD@]
            == Value::off(),
    ensures
        ({
            let cmd = TRUNK_OPEN_CMD@;
            let pressed = s.claimed(
                Demand {
                    signal: cmd,
                    value: Value::Bool(true),
                    priority: Priority::Medium,
                    feature_id: f,
                },
            );
            let given_back = domain_laws::settled(pressed, cmd).released(cmd, f);
            &&& pressed.due(cmd) == Some((cmd, Value::Bool(true)))
            &&& given_back.due(cmd) == Some((cmd, Value::off()))
            &&& domain_laws::settled(given_back, cmd).claims == s.claims
        }),
{
    let cmd = TRUNK_OPEN_CMD@;
    let demand = Demand {
        signal: cmd,
        value: Value::Bool(true),
        priority: Priority::Medium,
        feature_id: f,
    };
    let pressed = s.claimed(demand);
    assert(pressed.has_claim(cmd, f));
    assert forall|o: FeatureId| #[trigger] pressed.has_claim(cmd, o) implies o == f by {
        assert(!s.has_claim(cmd, o));
    }
    assert(pressed.wins(cmd, f));
    domain::lemma_one_winner(pressed, cmd, f);
    let given_back = domain_laws::settled(pressed, cmd).released(cmd, f);
    assert(given_back.claims =~= s.claims) by {
        assert(!s.has_claim(cmd, f));
    }
    assert forall|o: FeatureId| !given_back.has_claim(cmd, o) by {
        assert(!s.has_claim(cmd, o));
    }
    domain_laws::law_unclaimed_signal_is_off(given_back, cmd);
}

/// In valet mode the trunk stays shut: whatever is claimed or given back, nothing
/// but the resting value is ever published for it.
pub proof fn law_valet_keeps_trunk_shut(s: ArbiterState, demand: Demand, f: FeatureId)
    requires
        s.closed.contains(TRUNK_OPEN_CMD@),
    ensures
        ({
            let cmd = TRUNK_OPEN_CMD@;
            let claimed = s.claimed(demand).due(cmd);
            let released = s.released(cmd, f).due(cmd);
            &&& claimed is Some ==> claimed == Some((cmd, Value::off()))
            &&& released is Some ==> released == Some((cmd, Value::off()))
        }),
{
}

proof fn lemma_low_yields(
    s: ArbiterState,
    table: Seq<Permission>,
    signal: Seq<char>,
    f: FeatureId,
    low: FeatureId,
)
    requires
        s.valid(),
        s.allowed == table.to_set(),
        lawful(s),
        !s.closed.contains(signal),
        s.has_claim(signal, f),
        f != low,
        forall|i: int|
            0 <= i < table.len() ==> ((#[trigger] table[i]).0 == low ==> table[i].2 == Priority::Low)
                && (table[i].0 == f ==> table[i].2 == Priority::Medium),
    ensures
        !s.wins(signal, low),
        exists|w: FeatureId| s.wins(signal, w),
        forall|w: FeatureId| #[trigger]
            s.wins(signal, w) ==> w != low && s.resolved(signal) == s.claims[(signal, w)].value,
{
    domain_laws::law_claimed_signal_has_one_winner(s, signal, f);
    let i = lemma_row_of(s, table, signal, f);
    if s.wins(signal, low) {
        let j = lemma_row_of(s, table, signal, low);
        assert(s.claims[(signal, low)].outranks(s.claims[(signal, f)]));
    }
}

/// Who may claim an indicator or a beam in the lighting domain, and how strongly:
/// what signals danger or confirms a lock at high priority, what the driver switches
/// at medium, and nobody anything else.
pub proof fn law_lighting_permissions(f: FeatureId, signal: Seq<char>, p: Priority)
    ensures
        tables::lighting_table().contains((f, signal, p)) <==> {
            let indicator = signal == LEFT_INDICATOR@ || signal == RIGHT_INDICATOR@;
            ||| p is High && indicator && (f is Hazard || f is LockFeedback || f is PanicAlarm)
            ||| p is High && f is Hazard && signal == HAZARD_MASTER@
            ||| p is Medium && f is TurnIndicator && indicator
            ||| p is Medium && f is LowBeam && signal == LOW_BEAM@
            ||| p is Medium && f is HighBeam && signal == HIGH_BEAM@
            ||| p is Medium && f is Drl && signal == RUNNING_LIGHTS@
        },
{
    let t = tables::lighting_table();
    assert(t.len() == 12);
    let row = (f, signal, p);
    assert(t[0].0 is Hazard && t[1].0 is Hazard && t[2].0 is TurnIndicator);
    assert(t[3].0 is TurnIndicator && t[4].0 is LockFeedback && t[5].0 is LockFeedback);
    assert(t[6].0 is PanicAlarm && t[7].0 is PanicAlarm && t[8].0 is Hazard);
    assert(t[9].0 is LowBeam && t[10].0 is HighBeam && t[11].0 is Drl);
    if t.contains(row) {
        let i = choose|i: int| 0 <= i < t.len() && t[i] == row;
        assert(0 <= i < 12);
    }
}

/// Who may claim a lamp in the low-beam domain, and how strongly: the switches at
/// medium priority, following the driver home and dimming for others at high, and
/// nobody anything else.
pub proof fn law_low_beam_permissions(f: FeatureId, signal: Seq<char>, p: Priority)
    ensures
        tables::low_beam_table().contains((f, signal, p)) <==> {
            let around = signal == LOW_BEAM@ || signal == PARKING_LIGHTS@ || signal
                == LICENSE_PLATE@;
            ||| p is Medium && f is LowBeam && around
            ||| p is High && f is FollowMeHome && around
            ||| p is Medium && f is HighBeam && signal == HIGH_BEAM@
            ||| p is High && f is AutoHighBeam && signal == HIGH_BEAM@
            ||| p is Medium && f is Drl && signal == RUNNING_LIGHTS@
        },
{
    let t = tables::low_beam_table();
    assert(t.len() == 9);
    let row = (f, signal, p);
    assert(t[0].0 is LowBeam && t[1].0 is LowBeam && t[2].0 is LowBeam);
    assert(t[3].0 is HighBeam && t[4].0 is Drl && t[5].0 is FollowMeHome);
    assert(t[6].0 is FollowMeHome && t[7].0 is FollowMeHome && t[8].0 is AutoHighBeam);
    if t.contains(row) {
        let i = choose|i: int| 0 <= i < t.len() && t[i] == row;
        assert(0 <= i < 9);
    }
}

/// Who may claim the horn, the dome light, the puddle lamps and the trunk, and how
/// strongly, and that nobody may claim anything else there.
pub proof fn law_other_permissions(f: FeatureId, signal: Seq<char>, p: Priority)
    ensures
        tables::horn_table().contains((f, signal, p)) <==> signal == HORN@ && (p is High && f is PanicAlarm
            || p is Medium && f is ManualHorn),
        tables::courtesy_table().contains((f, signal, p)) <==> signal == DOME@ && (p is Medium && (f
            is Welcome || f is Farewell) || p is Low && f is DomeSwitch),
        tables::puddle_table().contains((f, signal, p)) <==> (signal == PUDDLE_LEFT@ || signal
            == PUDDLE_RIGHT@) && (p is Medium && (f is Welcome || f is Farewell) || p is Low && f
            is DoorOpenAssist),
        tables::trunk_table().contains((f, signal, p)) <==> signal == TRUNK_OPEN_CMD@ && p is Medium && (f
            is PassiveEntry || f is ExteriorTrunkButton || f is CabinTrunkRelease),
{
    let row = (f, signal, p);
    let h = tables::horn_table();
    let c = tables::courtesy_table();
    let u = tables::puddle_table();
    let t = tables::trunk_table();
    assert(h.len() == 2 && c.len() == 3 && u.len() == 6 && t.len() == 3);
    assert(h[0].0 is PanicAlarm && h[1].0 is ManualHorn);
    assert(c[0].0 is Welcome && c[1].0 is Farewell && c[2].0 is DomeSwitch);
    assert(u[0].0 is Welcome && u[1].0 is Welcome && u[2].0 is Farewell);
    assert(u[3].0 is Farewell && u[4].0 is DoorOpenAssist && u[5].0 is DoorOpenAssist);
    assert(t[0].0 is PassiveEntry && t[1].0 is ExteriorTrunkButton && t[2].0 is CabinTrunkRelease);
    if h.contains(row) {
        let i = choose|i: int| 0 <= i < h.len() && h[i] == row;
        assert(0 <= i < 2);
    }
    if c.contains(row) {
        let i = choose|i: int| 0 <= i < c.len() && c[i] == row;
        assert(0 <= i < 3);
    }
    if u.contains(row) {
        let i = choose|i: int| 0 <= i < u.len() && u[i] == row;
        assert(0 <= i < 6);
    }
    if t.contains(row) {
        let i = choose|i: int| 0 <= i < t.len() && t[i] == row;
        assert(0 <= i < 3);
    }
}

/// A signal is dark or shut by a physical gate only so: each puddle lamp while the
/// mirror on its own side is folded, and the trunk in valet mode.
pub proof fn law_physical_gates(target: Seq<char>, by: Seq<char>, when: Value)
    ensures
        tables::puddle_gates().contains(Gate { target, gate_signal: by, suppress_when: when })
            <==> when == Value::Bool(true) && {
            ||| target == PUDDLE_LEFT@ && by == "Body.Mirror.Left.IsFolded"@
            ||| target == PUDDLE_RIGHT@ && by == "Body.Mirror.Right.IsFolded"@
        },
        tables::trunk_gates().contains(Gate { target, gate_signal: by, suppress_when: when })
            <==> when == Value::Bool(true) && target == TRUNK_OPEN_CMD@ && by
            == "Cabin.ValetMode.IsActive"@,
{
    let gate = Gate { target, gate_signal: by, suppress_when: when };
    let u = tables::puddle_gates();
    let t = tables::trunk_gates();
    assert(u.len() == 2 && t.len() == 1);
    assert(u[0].target == PUDDLE_LEFT@ && u[1].target == PUDDLE_RIGHT@);
    assert(t[0].target == TRUNK_OPEN_CMD@);
    if u.contains(gate) {
        let i = choose|i: int| 0 <= i < u.len() && u[i] == gate;
        assert(0 <= i < 2);
    }
    if t.contains(gate) {
        let i = choose|i: int| 0 <= i < t.len() && t[i] == gate;
        assert(i == 0);
    }
}

} // verus!
