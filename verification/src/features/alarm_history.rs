//! What the alarm, warning and feedback features make of their history: over
//! every run, what stands on the bus is what the inputs seen call for.

use vstd::prelude::*;

use crate::arbiter::tables::{HORN, LEFT_INDICATOR, RIGHT_INDICATOR};
use crate::clock;
use crate::features::delayed_accessory;
use crate::features::delayed_accessory::{AccessoryEvent, DelayedAccessory};
use crate::features::doors;
use crate::features::exterior_trunk_button::ExteriorTrunkButton;
use crate::features::key_lost_warning;
use crate::features::key_lost_warning::{KeyLostEvent, KeyLostState, KeyLostWarning};
use crate::features::key_search;
use crate::features::key_search::{
    AntennaSet, Antennas, Coalescing, KeyFinding, SearchMode,
};
use crate::features::keypad_lock;
use crate::features::keypad_lock::{KeypadLock, PadEvent};
use crate::features::lamp_history;
use crate::features::lock_feedback::{FeedbackState, Flash, LockFeedback, Stage};
use crate::features::lost_pk_scan;
use crate::features::lost_pk_scan::{LostPkScan, LostState};
use crate::features::panic_alarm;
use crate::features::panic_alarm::{PanicAlarm, PanicEvent, Pulse};
use crate::features::search_history;
use crate::history;
use crate::ipc_message::{FeatureId, Priority, Value};
use crate::signal_bus::{Domain, Effect, Output};
use crate::zone::Zone;

verus! {

/// The delayed accessory power after a run of events, and the effects.
pub open spec fn accessory_run(s: DelayedAccessory, events: Seq<AccessoryEvent>) -> (
    DelayedAccessory,
    Seq<Effect>,
)
    decreases events.len(),
{
    if events.len() == 0 {
        (s, Seq::empty())
    } else {
        let (t, before) = accessory_run(s, events.drop_last());
        let (u, last) = t.after(events.last());
        (u, before + last)
    }
}

/// Reads off an event whether the vehicle is on. Only texts say anything.
pub open spec fn accessory_power() -> spec_fn(AccessoryEvent) -> Option<bool> {
    |e: AccessoryEvent|
        match e {
            AccessoryEvent::Power(Value::Text(t), _) => Some(t == "ON"@ || t == "START"@),
            _ => None,
        }
}

/// Until when the countdown runs after a history, if it runs: two minutes from
/// switching off, unless a door opens, the vehicle is switched on, or that time
/// has come.
pub open spec fn countdown(events: Seq<AccessoryEvent>) -> Option<u64>
    decreases events.len(),
{
    if events.len() == 0 {
        None
    } else {
        let before = events.drop_last();
        let was_on = history::latest_or(before, accessory_power(), false);
        match events.last() {
            AccessoryEvent::Power(Value::Text(t), now) => if t == "ON"@ || t == "START"@ {
                None
            } else if was_on {
                Some(clock::later(now, 120_000))
            } else {
                countdown(before)
            },
            AccessoryEvent::Power(_, _) => countdown(before),
            AccessoryEvent::Door(v) => if v == Value::Bool(true) {
                None
            } else {
                countdown(before)
            },
            AccessoryEvent::Tick(now) => match countdown(before) {
                Some(t) => if now >= t {
                    None
                } else {
                    Some(t)
                },
                None => None,
            },
        }
    }
}

/// Accessories are to be powered: the vehicle was seen on last, or the countdown
/// runs.
pub open spec fn accessory_due(events: Seq<AccessoryEvent>) -> bool {
    history::latest(events, accessory_power()) == Some(true) || countdown(events) is Some
}

proof fn lemma_accessory(s: DelayedAccessory, events: Seq<AccessoryEvent>)
    requires
        call_ensures(DelayedAccessory::new, (), s),
    ensures
        ({
            let t = accessory_run(s, events).0;
            &&& t.timeout == 120_000
            &&& t.ign_on == history::latest_or(events, accessory_power(), false)
            &&& t.deadline == countdown(events)
            &&& t.ign_on ==> t.deadline is None
            &&& t.published == t.active()
        }),
    decreases events.len(),
{
    if events.len() > 0 {
        lemma_accessory(s, events.drop_last());
    }
}

/// Over every run, from the output at start-up on, accessory power is shown on
/// exactly while it is due.
pub proof fn law_accessory_power_follows_history(
    s: DelayedAccessory,
    boot: Vec<Output>,
    events: Seq<AccessoryEvent>,
)
    requires
        call_ensures(DelayedAccessory::new, (), s),
        call_ensures(DelayedAccessory::boot, (&s,), boot),
    ensures
        accessory_run(s, events).0.deadline == countdown(events),
        history::shown(
            Effect::all(boot@) + accessory_run(s, events).1,
            delayed_accessory::DAP_OUT,
        ) == Some(Value::Bool(accessory_due(events))),
    decreases events.len(),
{
    lemma_accessory(s, events);
    let first = Effect::all(boot@);
    let read = history::published_on(delayed_accessory::DAP_OUT@);
    if events.len() == 0 {
        assert(first + accessory_run(s, events).1 =~= first);
        history::lemma_latest_of_few(first, read);
    } else {
        let rest = events.drop_last();
        let (t, before) = accessory_run(s, rest);
        law_accessory_power_follows_history(s, boot, rest);
        lemma_accessory(s, rest);
        let last = t.after(events.last()).1;
        assert(first + accessory_run(s, events).1 =~= (first + before) + last);
        history::lemma_latest_of_two(first + before, last, read);
        history::lemma_latest_of_few(last, read);
    }
}

/// The panic alarm after a run of events, and the effects.
pub open spec fn panic_run(s: PanicAlarm, events: Seq<PanicEvent>) -> (PanicAlarm, Seq<Effect>)
    decreases events.len(),
{
    if events.len() == 0 {
        (s, Seq::empty())
    } else {
        let (t, before) = panic_run(s, events.drop_last());
        let (u, last) = t.after(events.last());
        (u, before + last)
    }
}

/// Reads off an event whether an alarm is active.
pub open spec fn panic_status() -> spec_fn(PanicEvent) -> Option<bool> {
    |e: PanicEvent|
        match e {
            PanicEvent::AlarmStatus(Value::Bool(b)) => Some(b),
            _ => None,
        }
}

/// The pulse after a history. It begins on, with a press while no alarm was seen
/// active last, and ends with the switch off. In between, 400 milliseconds on and
/// 600 off take turns.
pub open spec fn panic_pulse(events: Seq<PanicEvent>) -> Option<Pulse>
    decreases events.len(),
{
    if events.len() == 0 {
        None
    } else {
        let before = events.drop_last();
        let pulse = panic_pulse(before);
        match events.last() {
            PanicEvent::Switch(v, now) => if v != Value::Bool(true) {
                None
            } else if pulse is None && history::latest(before, panic_status()) != Some(true) {
                Some(Pulse { on: true, until: clock::later(now, 400) })
            } else {
                pulse
            },
            PanicEvent::Tick(now) => match pulse {
                Some(p) => if now < p.until {
                    pulse
                } else if p.on {
                    Some(Pulse { on: false, until: clock::later(now, 600) })
                } else {
                    Some(Pulse { on: true, until: clock::later(now, 400) })
                },
                None => None,
            },
            PanicEvent::AlarmStatus(_) => pulse,
            PanicEvent::Feedback(_) => pulse,
        }
    }
}

proof fn lemma_panic(s: PanicAlarm, events: Seq<PanicEvent>)
    requires
        call_ensures(PanicAlarm::new, (), s),
    ensures
        panic_run(s, events).0.alarm_seen == history::latest_or(events, panic_status(), false),
        panic_run(s, events).0.pulse == panic_pulse(events),
    decreases events.len(),
{
    if events.len() > 0 {
        lemma_panic(s, events.drop_last());
    }
}

/// Over every run both indicators and the horn are claimed at high priority
/// exactly while the pulse of the history runs, on and off with it.
pub proof fn law_panic_claims_follow_history(s: PanicAlarm, events: Seq<PanicEvent>)
    requires
        call_ensures(PanicAlarm::new, (), s),
    ensures
        panic_run(s, events).0.pulse == panic_pulse(events),
        ({
            let out = panic_run(s, events).1;
            let claim = match panic_pulse(events) {
                Some(p) => Some((Value::Bool(p.on), Priority::High)),
                None => None,
            };
            &&& history::standing(out, Domain::Lighting, LEFT_INDICATOR, FeatureId::PanicAlarm)
                == claim
            &&& history::standing(out, Domain::Lighting, RIGHT_INDICATOR, FeatureId::PanicAlarm)
                == claim
            &&& history::standing(out, Domain::Horn, HORN, FeatureId::PanicAlarm) == claim
        }),
    decreases events.len(),
{
    lamp_history::lemma_lamp_signals();
    lemma_panic(s, events);
    if events.len() > 0 {
        let rest = events.drop_last();
        let (t, before) = panic_run(s, rest);
        law_panic_claims_follow_history(s, rest);
        lemma_panic(s, rest);
        let last = t.after(events.last()).1;
        let left = history::claimed_on(Domain::Lighting, LEFT_INDICATOR@, FeatureId::PanicAlarm);
        let right = history::claimed_on(Domain::Lighting, RIGHT_INDICATOR@, FeatureId::PanicAlarm);
        let horn = history::claimed_on(Domain::Horn, HORN@, FeatureId::PanicAlarm);
        history::lemma_latest_of_two(before, last, left);
        history::lemma_latest_of_two(before, last, right);
        history::lemma_latest_of_two(before, last, horn);
        history::lemma_latest_of_few(last, left);
        history::lemma_latest_of_few(last, right);
        history::lemma_latest_of_few(last, horn);
    }
}

/// Over every run an event takes the switch back exactly when it is an unlock
/// feedback, or a press that starts nothing as another alarm was seen active last.
/// Then it puts out nothing else.
pub proof fn law_panic_switch_is_taken_back(
    s: PanicAlarm,
    events: Seq<PanicEvent>,
    event: PanicEvent,
)
    requires
        call_ensures(PanicAlarm::new, (), s),
    ensures
        ({
            let out = panic_run(s, events).0.after(event).1;
            let taken = Effect::publish(panic_alarm::PANIC_SWITCH, Value::Bool(false));
            let back = match event {
                PanicEvent::Feedback(v) => v == Value::Text("unlock"@),
                PanicEvent::Switch(v, _) => v == Value::Bool(true) && panic_pulse(events) is None
                    && history::latest(events, panic_status()) == Some(true),
                _ => false,
            };
            &&& back ==> out == seq![taken]
            &&& !back ==> !out.contains(taken)
        }),
{
    lemma_panic(s, events);
    let t = panic_run(s, events).0;
    let out = t.after(event).1;
    let taken = Effect::publish(panic_alarm::PANIC_SWITCH, Value::Bool(false));
    reveal_strlit("Body.Switches.Panic.IsEngaged");
    reveal_strlit("Vehicle.Body.Alarm.IsActive");
    assert(panic_alarm::PANIC_SWITCH@[0] == 'B' && panic_alarm::ALARM_STATUS@[0] == 'V');
    if out.contains(taken) {
        let i = choose|i: int| 0 <= i < out.len() && out[i] == taken;
        assert(out[i] is Publish);
    }
}

/// The pads after a run of events: since when a pad has counted as pressed.
pub open spec fn pad_since(left: bool, events: Seq<PadEvent>) -> Option<u64>
    decreases events.len(),
{
    if events.len() == 0 {
        None
    } else {
        let since = pad_since(left, events.drop_last());
        match events.last() {
            PadEvent::Left(v, now) => if !left {
                since
            } else if v == Value::Bool(true) {
                Some(now)
            } else {
                None
            },
            PadEvent::Right(v, now) => if left {
                since
            } else if v == Value::Bool(true) {
                Some(now)
            } else {
                None
            },
            PadEvent::Tick(now) => match since {
                Some(t) => if now - t >= 500 {
                    None
                } else {
                    since
                },
                None => None,
            },
        }
    }
}

/// Over every run each pad counts as pressed since its own latest press, unless it
/// was let go or its hold has asked for a search already. A time asks for a search
/// exactly when a pad has then been held for half a second.
pub proof fn law_pads_follow_history(s: KeypadLock, events: Seq<PadEvent>, now: u64)
    requires
        call_ensures(KeypadLock::new, (), s),
    ensures
        keypad_lock::run(s, events).left == pad_since(true, events),
        keypad_lock::run(s, events).right == pad_since(false, events),
        keypad_lock::run(s, events).after(PadEvent::Tick(now)).1 <==> {
            ||| (pad_since(true, events) matches Some(t) && now - t >= 500)
            ||| (pad_since(false, events) matches Some(t) && now - t >= 500)
        },
    decreases events.len(),
{
    if events.len() > 0 {
        law_pads_follow_history(s, events.drop_last(), now);
    }
}

/// The search of the pads reaches the cabin and everything around the vehicle, and
/// nothing else, and every leg of it authenticates. What counts as outside the
/// cabin is exactly what the approach antennas cover. No shared result will do.
pub proof fn law_pad_search(zone: Zone, r: (AntennaSet, SearchMode, Coalescing))
    requires
        call_ensures(KeypadLock::search, (), r),
    ensures
        keypad_lock::outside(zone) <==> zone is Approach || zone is LeftFront || zone is RightFront
            || zone is Hood || zone is Trunk,
        r.0@.reaches(zone) <==> zone is Cabin || keypad_lock::outside(zone),
        r.1 is Authenticated,
        r.2 is Disallowed,
        key_search::all_legs_in(r.0@, SearchMode::Authenticated),
{
    let legs = seq![
        (Antennas::Cabin, SearchMode::Authenticated),
        (Antennas::AllApproach, SearchMode::Authenticated),
    ];
    assert(r.0@ == Antennas::Sequence(legs));
    search_history::law_coverage(Antennas::Cabin, zone);
    search_history::law_coverage(Antennas::AllApproach, zone);
    assert(legs[0].0 == Antennas::Cabin && legs[1].0 == Antennas::AllApproach);
    if zone is Cabin {
        assert(legs[0].0.coverage().contains(zone));
    }
    if keypad_lock::outside(zone) {
        assert(legs[1].0.coverage().contains(zone));
    }
    reveal_with_fuel(key_search::legs_all_in, 3);
    reveal_with_fuel(key_search::all_legs_in, 3);
    assert(legs.drop_last() =~= seq![(Antennas::Cabin, SearchMode::Authenticated)]);
    assert(legs.drop_last().drop_last() =~= Seq::<(Antennas, SearchMode)>::empty());
}

/// What follows the search of the pads: with a key outside the cabin a request to
/// lock all doors and the lock feedback, without one, or without a result, the
/// feedback that locking was denied and nothing else.
pub proof fn law_pad_verdict(keys: Option<Seq<KeyFinding>>)
    ensures
        keypad_lock::verdict(keys) == if (keys matches Some(found) && exists|i: int|
            0 <= i < found.len() && {
                let zone = (#[trigger] found[i]).zone;
                zone is Approach || zone is LeftFront || zone is RightFront || zone is Hood
                    || zone is Trunk
            }) {
            seq![
                Effect::lock(crate::signal_bus::LockCommand::LockAll, FeatureId::KeypadLock),
                Effect::publish(
                    crate::arbiter::door_lock::FEEDBACK_REQUEST,
                    Value::Text("lock"@),
                ),
            ]
        } else {
            seq![
                Effect::publish(
                    crate::arbiter::door_lock::FEEDBACK_REQUEST,
                    Value::Text("lock_denied"@),
                ),
            ]
        },
{
    if let Some(found) = keys {
        if keypad_lock::key_outside(found) {
            let i = choose|i: int|
                0 <= i < found.len() && keypad_lock::outside((#[trigger] found[i]).zone);
            let zone = found[i].zone;
            assert(zone is Approach || zone is LeftFront || zone is RightFront || zone is Hood
                || zone is Trunk);
        }
        if exists|i: int|
            0 <= i < found.len() && {
                let zone = (#[trigger] found[i]).zone;
                zone is Approach || zone is LeftFront || zone is RightFront || zone is Hood
                    || zone is Trunk
            } {
            let i = choose|i: int|
                0 <= i < found.len() && {
                    let zone = (#[trigger] found[i]).zone;
                    zone is Approach || zone is LeftFront || zone is RightFront || zone is Hood
                        || zone is Trunk
                };
            assert(keypad_lock::outside(found[i].zone));
        }
    }
}

/// The search of the exterior trunk button reaches the outside of the trunk only,
/// authenticates, and takes no shared result. The lost-key search reaches all that
/// lies in or around the vehicle, by presence alone, and takes none either.
pub proof fn law_other_searches(
    zone: Zone,
    trunk: (AntennaSet, SearchMode, Coalescing),
    lost: (AntennaSet, SearchMode, Coalescing),
)
    requires
        call_ensures(ExteriorTrunkButton::search, (), trunk),
        call_ensures(LostPkScan::search, (), lost),
    ensures
        trunk.0@.reaches(zone) <==> zone is Trunk,
        trunk.1 is Authenticated,
        trunk.2 is Disallowed,
        lost.0@.reaches(zone) <==> zone !is OutOfRange && zone !is RfRange && zone !is KeyCylinder,
        lost.1 is Presence,
        lost.2 is Disallowed,
        key_search::all_legs_in(lost.0@, SearchMode::Presence),
{
    search_history::law_coverage(Antennas::TrunkOutside, zone);
    search_history::law_coverage(Antennas::AllApproach, zone);
    search_history::law_coverage(Antennas::TrunkInside, zone);
    search_history::law_coverage(Antennas::Cabin, zone);
    let legs = lost_pk_scan::vehicle_legs();
    assert(legs[0].0 == Antennas::AllApproach && legs[1].0 == Antennas::TrunkInside && legs[2].0
        == Antennas::Cabin);
    if zone is Cabin {
        assert(legs[2].0.coverage().contains(zone));
    } else if zone is TrunkInside {
        assert(legs[1].0.coverage().contains(zone));
    } else if zone !is OutOfRange && zone !is RfRange && zone !is KeyCylinder {
        assert(legs[0].0.coverage().contains(zone));
    }
    reveal_with_fuel(key_search::legs_all_in, 4);
    reveal_with_fuel(key_search::all_legs_in, 4);
    assert(legs.drop_last() =~= seq![legs[0], legs[1]]);
    assert(legs.drop_last().drop_last() =~= seq![legs[0]]);
    assert(legs.drop_last().drop_last().drop_last() =~= Seq::<(Antennas, SearchMode)>::empty());
}

/// The key-lost warning after a run of events, and the effects. Only the four
/// doors count.
pub open spec fn lost_run(s: KeyLostState, events: Seq<KeyLostEvent>) -> (
    KeyLostState,
    Seq<Effect>,
)
    decreases events.len(),
{
    if events.len() == 0 {
        (s, Seq::empty())
    } else {
        let (t, before) = lost_run(s, events.drop_last());
        if events.last() is Door && !(0 <= events.last()->Door_0 < 4) {
            (t, before)
        } else {
            let (u, last) = t.after(events.last());
            (u, before + last)
        }
    }
}

/// Reads off an event the number of keys.
pub open spec fn lost_keys() -> spec_fn(KeyLostEvent) -> Option<u8> {
    |e: KeyLostEvent|
        match e {
            KeyLostEvent::Keys(Value::Uint8(n), _) => Some(n),
            _ => None,
        }
}

/// Reads off an event whether the vehicle is on.
pub open spec fn lost_power() -> spec_fn(KeyLostEvent) -> Option<bool> {
    |e: KeyLostEvent|
        match e {
            KeyLostEvent::Power(v, _) => Some(
                v == Value::Text("ON"@) || v == Value::Text("START"@),
            ),
            _ => None,
        }
}

/// Reads off an event whether the trunk is open.
pub open spec fn lost_trunk() -> spec_fn(KeyLostEvent) -> Option<bool> {
    |e: KeyLostEvent|
        match e {
            KeyLostEvent::Trunk(Value::Bool(b), _) => Some(b),
            _ => None,
        }
}

/// Reads off an event whether the door at a position is open.
pub open spec fn lost_door(at: int) -> spec_fn(KeyLostEvent) -> Option<bool> {
    |e: KeyLostEvent|
        match e {
            KeyLostEvent::Door(i, Value::Bool(b), _) => if i == at {
                Some(b)
            } else {
                None
            },
            _ => None,
        }
}

/// The vehicle is closed up under power without a key, by what was seen last: on,
/// the trunk and no door open, and no key around.
pub open spec fn closed_up(events: Seq<KeyLostEvent>) -> bool {
    &&& history::latest(events, lost_power()) == Some(true)
    &&& history::latest(events, lost_trunk()) != Some(true)
    &&& forall|i: int|
        0 <= i < 4 ==> #[trigger] history::latest(events, lost_door(i)) != Some(true)
    &&& history::latest_or(events, lost_keys(), 0) == 0
}

/// Until when the warning is given after a history, if it is: two seconds from
/// when the vehicle was closed up, unless it no longer is or that time has come.
pub open spec fn warned_until(events: Seq<KeyLostEvent>) -> Option<u64>
    decreases events.len(),
{
    if events.len() == 0 {
        None
    } else {
        let before = events.drop_last();
        let now = match events.last() {
            KeyLostEvent::Keys(_, now) => now,
            KeyLostEvent::Power(_, now) => now,
            KeyLostEvent::Trunk(_, now) => now,
            KeyLostEvent::Door(_, _, now) => now,
            KeyLostEvent::Tick(now) => now,
        };
        if !closed_up(events) {
            None
        } else if !closed_up(before) {
            Some(clock::later(now, 2_000))
        } else if events.last() is Tick && (warned_until(before) matches Some(t) && now >= t) {
            None
        } else {
            warned_until(before)
        }
    }
}

proof fn lemma_lost(w: KeyLostWarning, events: Seq<KeyLostEvent>)
    requires
        call_ensures(KeyLostWarning::new, (), w),
    ensures
        ({
            let t = lost_run(w@, events).0;
            &&& t.open.len() == 4
            &&& t.keys == history::latest_or(events, lost_keys(), 0)
            &&& t.power_on == history::latest_or(events, lost_power(), false)
            &&& t.trunk_open == history::latest_or(events, lost_trunk(), false)
            &&& forall|i: int|
                0 <= i < 4 ==> #[trigger] t.open[i] == history::latest_or(
                    events,
                    lost_door(i),
                    false,
                )
        }),
    decreases events.len(),
{
    if events.len() > 0 {
        lemma_lost(w, events.drop_last());
        let t = lost_run(w@, events.drop_last()).0;
        let u = lost_run(w@, events).0;
        assert forall|i: int| 0 <= i < 4 implies #[trigger] u.open[i] == history::latest_or(
            events,
            lost_door(i),
            false,
        ) by {
            assert(t.open[i] == history::latest_or(events.drop_last(), lost_door(i), false));
        }
    }
}

proof fn lemma_sealed(w: KeyLostWarning, events: Seq<KeyLostEvent>)
    requires
        call_ensures(KeyLostWarning::new, (), w),
    ensures
        lost_run(w@, events).0.sealed() == closed_up(events),
{
    lemma_lost(w, events);
    let t = lost_run(w@, events).0;
    if t.sealed() {
        assert forall|i: int| 0 <= i < 4 implies #[trigger] history::latest(events, lost_door(i))
            != Some(true) by {
            assert(!t.open[i]);
        }
    }
    if closed_up(events) && doors::any(t.open) {
        let i = choose|i: int| 0 <= i < t.open.len() && #[trigger] t.open[i];
        assert(history::latest(events, lost_door(i)) == Some(true));
    }
}

proof fn lemma_warned(w: KeyLostWarning, events: Seq<KeyLostEvent>)
    requires
        call_ensures(KeyLostWarning::new, (), w),
    ensures
        lost_run(w@, events).0.latched == closed_up(events),
        lost_run(w@, events).0.deadline == warned_until(events),
        lost_run(w@, events).0.deadline is Some ==> closed_up(events),
    decreases events.len(),
{
    lemma_sealed(w, events);
    if events.len() > 0 {
        let rest = events.drop_last();
        lemma_warned(w, rest);
        lemma_sealed(w, rest);
    }
}

/// Over every run the flag in the cluster and the chime are shown on exactly while
/// the warning of the history is given, and were never shown before the first.
pub proof fn law_key_lost_warning_follows_history(w: KeyLostWarning, events: Seq<KeyLostEvent>)
    requires
        call_ensures(KeyLostWarning::new, (), w),
    ensures
        lost_run(w@, events).0.deadline == warned_until(events),
        ({
            let out = lost_run(w@, events).1;
            let given = warned_until(events) is Some;
            &&& (history::shown(out, key_lost_warning::KEY_LOST_WARNING_OUT) == Some(
                Value::Bool(true),
            )) == given
            &&& (history::shown(out, key_lost_warning::CHIME) == Some(Value::Bool(true))) == given
        }),
    decreases events.len(),
{
    reveal_strlit("Vehicle.Controller.Body.Chime.IsActive");
    reveal_strlit("Vehicle.Controller.Starting.KeyLostWarning");
    assert(key_lost_warning::CHIME@.len() != key_lost_warning::KEY_LOST_WARNING_OUT@.len());
    lemma_warned(w, events);
    if events.len() > 0 {
        let rest = events.drop_last();
        let (t, before) = lost_run(w@, rest);
        law_key_lost_warning_follows_history(w, rest);
        lemma_warned(w, rest);
        let last = t.after(events.last()).1;
        let flag = history::published_on(key_lost_warning::KEY_LOST_WARNING_OUT@);
        let chime = history::published_on(key_lost_warning::CHIME@);
        history::lemma_latest_of_two(before, last, flag);
        history::lemma_latest_of_two(before, last, chime);
        history::lemma_latest_of_few(last, flag);
        history::lemma_latest_of_few(last, chime);
    }
}

/// Something that happens to the lost-key scan.
pub enum ScanEvent {
    Ignition(Value),
    /// Value of the door at a position.
    Door(int, Value),
    /// What the search has found, if there was a result.
    Searched(Option<Seq<KeyFinding>>),
}

/// The lost-key scan after a run of events. Only the four doors count.
pub open spec fn scan_run(s: LostState, events: Seq<ScanEvent>) -> LostState
    decreases events.len(),
{
    if events.len() == 0 {
        s
    } else {
        let t = scan_run(s, events.drop_last());
        match events.last() {
            ScanEvent::Ignition(v) => t.after_ignition(v).0,
            ScanEvent::Door(i, v) => if 0 <= i < 4 {
                t.after_door(i, v)
            } else {
                t
            },
            ScanEvent::Searched(keys) => t.after_search(keys).0,
        }
    }
}

/// Reads off an event whether the ignition is live. Only texts say anything.
pub open spec fn scan_live() -> spec_fn(ScanEvent) -> Option<bool> {
    |e: ScanEvent|
        match e {
            ScanEvent::Ignition(Value::Text(t)) => Some(t == "ON"@ || t == "START"@),
            _ => None,
        }
}

/// Reads off an event whether the door at a position is open. Whatever is not set
/// reads as closed.
pub open spec fn scan_door(at: int) -> spec_fn(ScanEvent) -> Option<bool> {
    |e: ScanEvent|
        match e {
            ScanEvent::Door(i, v) => if i == at {
                Some(v == Value::Bool(true))
            } else {
                None
            },
            _ => None,
        }
}

/// Reads off an event what it says of the warning: a search whether it found
/// nothing, and an ignition that is not live that there is none.
pub open spec fn scan_warning() -> spec_fn(ScanEvent) -> Option<bool> {
    |e: ScanEvent|
        match e {
            ScanEvent::Ignition(Value::Text(t)) => if t == "ON"@ || t == "START"@ {
                None
            } else {
                Some(false)
            },
            ScanEvent::Searched(Some(found)) => Some(found.len() == 0),
            ScanEvent::Searched(None) => Some(true),
            _ => None,
        }
}

proof fn lemma_scan(scan: LostPkScan, events: Seq<ScanEvent>)
    requires
        call_ensures(LostPkScan::new, (), scan),
    ensures
        ({
            let t = scan_run(scan@, events);
            &&& t.open.len() == 4
            &&& t.live == history::latest_or(events, scan_live(), false)
            &&& t.warning == history::latest_or(events, scan_warning(), false)
            &&& forall|i: int|
                0 <= i < 4 ==> #[trigger] t.open[i] == history::latest_or(
                    events,
                    scan_door(i),
                    false,
                )
        }),
    decreases events.len(),
{
    if events.len() > 0 {
        lemma_scan(scan, events.drop_last());
        let t = scan_run(scan@, events.drop_last());
        let u = scan_run(scan@, events);
        assert forall|i: int| 0 <= i < 4 implies #[trigger] u.open[i] == history::latest_or(
            events,
            scan_door(i),
            false,
        ) by {
            assert(t.open[i] == history::latest_or(events.drop_last(), scan_door(i), false));
        }
    }
}

/// Over every run a value of a door asks for a search exactly when it closes that
/// door, it was the only one seen open last, and the ignition was seen live last.
/// The warning shows exactly when the latest search found no key and the ignition
/// has not been off since.
pub proof fn law_lost_key_scan_follows_history(
    scan: LostPkScan,
    events: Seq<ScanEvent>,
    i: int,
    v: Value,
)
    requires
        call_ensures(LostPkScan::new, (), scan),
        0 <= i < 4,
    ensures
        scan_run(scan@, events).warning == history::latest_or(events, scan_warning(), false),
        scan_run(scan@, events).asks_search(i, v) <==> {
            &&& history::latest(events, scan_live()) == Some(true)
            &&& v != Value::Bool(true)
            &&& forall|j: int|
                0 <= j < 4 ==> (#[trigger] history::latest(events, scan_door(j)) == Some(true)
                    <==> j == i)
        },
{
    lemma_scan(scan, events);
    let t = scan_run(scan@, events);
    let next = t.after_door(i, v).open;
    if t.asks_search(i, v) {
        lost_pk_scan::law_search_on_last_door_only(t, i, v);
        assert forall|j: int| 0 <= j < 4 implies (#[trigger] history::latest(events, scan_door(j))
            == Some(true) <==> j == i) by {
            assert(t.open[j] == history::latest_or(events, scan_door(j), false));
            assert(!next[j]);
        }
    }
    if history::latest(events, scan_live()) == Some(true) && v != Value::Bool(true) && forall|j: int|
        0 <= j < 4 ==> (#[trigger] history::latest(events, scan_door(j)) == Some(true) <==> j
            == i) {
        assert(history::latest(events, scan_door(i)) == Some(true));
        assert(t.open[i]);
        assert forall|j: int| 0 <= j < next.len() implies !(#[trigger] next[j]) by {
            assert(t.open[j] == history::latest_or(events, scan_door(j), false));
            assert(history::latest(events, scan_door(j)) == Some(true) <==> j == i);
        }
        assert(t.asks_search(i, v));
    }
}

/// Something that happens to the lock feedback.
pub enum FeedbackEvent {
    Request(Value, u64),
    Trunk(Value, u64),
    /// Value of the lock state of the door at a position.
    DoorLocked(int, Value),
    Tick(u64),
}

/// The lock feedback after a run of events, and the effects. Only the four doors
/// count.
pub open spec fn feedback_run(s: FeedbackState, events: Seq<FeedbackEvent>) -> (
    FeedbackState,
    Seq<Effect>,
)
    decreases events.len(),
{
    if events.len() == 0 {
        (s, Seq::empty())
    } else {
        let (t, before) = feedback_run(s, events.drop_last());
        let (u, last) = match events.last() {
            FeedbackEvent::Request(v, now) => t.after_request(v, now),
            FeedbackEvent::Trunk(v, now) => t.after_trunk(v, now),
            FeedbackEvent::DoorLocked(i, v) => if 0 <= i < 4 {
                (t.after_door_locked(i, v), Seq::empty())
            } else {
                (t, Seq::empty())
            },
            FeedbackEvent::Tick(now) => t.after_tick(now),
        };
        (u, before + last)
    }
}

/// Reads off an event whether the door at a position is locked.
pub open spec fn door_locked(at: int) -> spec_fn(FeedbackEvent) -> Option<bool> {
    |e: FeedbackEvent|
        match e {
            FeedbackEvent::DoorLocked(i, Value::Bool(b)) => if i == at {
                Some(b)
            } else {
                None
            },
            _ => None,
        }
}

/// Reads off an event whether the trunk is to be confirmed when it closes: opened
/// from outside, or closed since.
pub open spec fn trunk_opened() -> spec_fn(FeedbackEvent) -> Option<bool> {
    |e: FeedbackEvent|
        match e {
            FeedbackEvent::Request(v, _) => if v == Value::Text("trunk_unlock"@) {
                Some(true)
            } else {
                None
            },
            FeedbackEvent::Trunk(v, _) => if v == Value::Bool(false) {
                Some(false)
            } else {
                None
            },
            _ => None,
        }
}

proof fn lemma_feedback(f: LockFeedback, events: Seq<FeedbackEvent>)
    requires
        call_ensures(LockFeedback::new, (), f),
    ensures
        ({
            let t = feedback_run(f@, events).0;
            &&& t.locked.len() == 4
            &&& t.trunk_opened == history::latest_or(events, trunk_opened(), false)
            &&& forall|i: int|
                0 <= i < 4 ==> #[trigger] t.locked[i] == history::latest_or(
                    events,
                    door_locked(i),
                    false,
                )
        }),
    decreases events.len(),
{
    reveal_strlit("lock");
    reveal_strlit("unlock");
    reveal_strlit("trunk_unlock");
    assert("lock"@.len() == 4 && "unlock"@.len() == 6 && "trunk_unlock"@.len() == 12);
    if events.len() > 0 {
        lemma_feedback(f, events.drop_last());
        let t = feedback_run(f@, events.drop_last()).0;
        let u = feedback_run(f@, events).0;
        assert forall|i: int| 0 <= i < 4 implies #[trigger] u.locked[i] == history::latest_or(
            events,
            door_locked(i),
            false,
        ) by {
            assert(t.locked[i] == history::latest_or(events.drop_last(), door_locked(i), false));
        }
    }
}

/// Over every run a trunk that closes starts the pattern of locking if every door
/// was seen locked last, and that of unlocking otherwise, exactly when the trunk
/// was opened from outside and has not closed since. Else it starts nothing.
pub proof fn law_trunk_close_follows_latest_inputs(
    f: LockFeedback,
    events: Seq<FeedbackEvent>,
    v: Value,
    now: u64,
)
    requires
        call_ensures(LockFeedback::new, (), f),
    ensures
        ({
            let t = feedback_run(f@, events).0;
            let next = t.after_trunk(v, now);
            let all_locked = forall|i: int|
                0 <= i < 4 ==> #[trigger] history::latest(events, door_locked(i)) == Some(true);
            if v == Value::Bool(false) && history::latest(events, trunk_opened()) == Some(true) {
                let pattern = if all_locked {
                    t.after_request(Value::Text("lock"@), now)
                } else {
                    t.after_request(Value::Text("unlock"@), now)
                };
                next.0.flash == pattern.0.flash && next.1 == pattern.1
            } else {
                next == (t, Seq::<Effect>::empty())
            }
        }),
{
    lemma_feedback(f, events);
    let t = feedback_run(f@, events).0;
    reveal_strlit("lock");
    reveal_strlit("unlock");
    assert("lock"@.len() == 4 && "unlock"@.len() == 6);
    if doors::every(t.locked) {
        assert forall|i: int| 0 <= i < 4 implies #[trigger] history::latest(
            events,
            door_locked(i),
        ) == Some(true) by {
            assert(t.locked[i]);
        }
    } else {
        let i = choose|i: int| 0 <= i < t.locked.len() && !(#[trigger] t.locked[i]);
        assert(history::latest(events, door_locked(i)) != Some(true));
    }
}

/// Over every run both indicators are claimed at high priority while a pattern
/// plays, on in the lit stage and off in the dark ones, and not at all otherwise.
pub proof fn law_feedback_claims_follow_pattern(f: LockFeedback, events: Seq<FeedbackEvent>)
    requires
        call_ensures(LockFeedback::new, (), f),
    ensures
        ({
            let (t, out) = feedback_run(f@, events);
            let claim = match t.flash {
                Some(flash) => Some((Value::Bool(flash.stage is On), Priority::High)),
                None => None,
            };
            &&& history::standing(out, Domain::Lighting, LEFT_INDICATOR, FeatureId::LockFeedback)
                == claim
            &&& history::standing(out, Domain::Lighting, RIGHT_INDICATOR, FeatureId::LockFeedback)
                == claim
        }),
    decreases events.len(),
{
    lamp_history::lemma_lamp_signals();
    if events.len() > 0 {
        let rest = events.drop_last();
        let (t, before) = feedback_run(f@, rest);
        law_feedback_claims_follow_pattern(f, rest);
        let last = match events.last() {
            FeedbackEvent::Request(v, now) => t.after_request(v, now).1,
            FeedbackEvent::Trunk(v, now) => t.after_trunk(v, now).1,
            FeedbackEvent::DoorLocked(_, _) => Seq::empty(),
            FeedbackEvent::Tick(now) => t.after_tick(now).1,
        };
        assert(feedback_run(f@, events).1 =~= before + last);
        let left = history::claimed_on(Domain::Lighting, LEFT_INDICATOR@, FeatureId::LockFeedback);
        let right = history::claimed_on(
            Domain::Lighting,
            RIGHT_INDICATOR@,
            FeatureId::LockFeedback,
        );
        history::lemma_latest_of_two(before, last, left);
        history::lemma_latest_of_two(before, last, right);
        history::lemma_latest_of_few(last, left);
        history::lemma_latest_of_few(last, right);
    }
}

/// A pattern begins with 100 milliseconds dark, then lights for 500. Where a second
/// flash follows, 300 milliseconds dark come before it, and it is the last. A trunk
/// that is unlocked is confirmed as an unlock is.
pub proof fn law_feedback_spans(s: FeedbackState, v: Value, now: u64)
    ensures
        ({
            let begun = s.after_request(v, now).0;
            v == Value::Text("lock"@) || v == Value::Text("unlock"@) || v == Value::Text(
                "trunk_unlock"@,
            ) ==> begun.flash == Some(
                Flash {
                    stage: Stage::LeadIn,
                    until: clock::later(now, 100),
                    again: v != Value::Text("lock"@),
                },
            )
        }),
        s.flash matches Some(f) ==> now >= f.until ==> s.after_tick(now).0.flash == match f.stage {
            Stage::LeadIn => Some(
                Flash { stage: Stage::On, until: clock::later(now, 500), again: f.again },
            ),
            Stage::On => if f.again {
                Some(Flash { stage: Stage::Gap, until: clock::later(now, 300), again: false })
            } else {
                None
            },
            Stage::Gap => Some(
                Flash { stage: Stage::LeadIn, until: clock::later(now, 100), again: f.again },
            ),
        },
        s.after_request(Value::Text("trunk_unlock"@), now).1 == s.after_request(
            Value::Text("unlock"@),
            now,
        ).1,
        s.after_tick(now).0.trunk_opened == s.trunk_opened,
        s.after_tick(now).0.locked == s.locked,
{
    reveal_strlit("lock");
    reveal_strlit("unlock");
    reveal_strlit("trunk_unlock");
    assert("lock"@.len() == 4 && "unlock"@.len() == 6 && "trunk_unlock"@.len() == 12);
}

} // verus!
