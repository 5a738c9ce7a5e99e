//! What NFC entry does over a whole run of events.

use vstd::prelude::*;

use crate::arbiter::door_lock::{FEEDBACK_REQUEST, STATUS_LOCKED, STATUS_UNLOCKED};
use crate::clock;
use crate::features::lock_reply;
use crate::features::nfc_entry;
use crate::features::nfc_entry::{
    Due, Later, NfcKind, NfcState, Spot, TapEffect, NFC_AUTH_BYPASS, START_STOP,
};
use crate::ipc_message::{FeatureId, Value};
use crate::signal_bus::{DoorLockRequest, Effect, LockCommand};

verus! {

/// Something that happens to the feature.
pub enum NfcEvent {
    /// Value of the cabin lock status.
    Status(Value),
    /// Value of a device, and the time.
    Tap { kind: NfcKind, i: int, v: Value, now: u64 },
    /// The clock has reached a time.
    Tick(u64),
}

/// The effects of an unlock request that is accepted: the request, and feedback.
pub open spec fn unlock_effects(order: DoorLockRequest) -> Seq<Effect> {
    seq![Effect::Lock { order }] + lock_reply::reply_effects(true, "unlock"@)
}

/// The effects of what a tap leads to, where requests are accepted.
pub open spec fn tap_effects(tap: TapEffect) -> Seq<Effect> {
    match tap {
        TapEffect::Nothing => Seq::empty(),
        TapEffect::Unlock(order) => unlock_effects(order),
        TapEffect::Start(effects) => effects,
    }
}

/// The state and the effects after an event, where requests are accepted.
pub open spec fn step(s: NfcState, event: NfcEvent) -> (NfcState, Seq<Effect>) {
    match event {
        NfcEvent::Status(v) => (s.after_status(v), Seq::empty()),
        NfcEvent::Tap { kind, i, v, now } => {
            let (next, tap) = s.after_tap(kind, i, v, now);
            (next, tap_effects(tap))
        },
        NfcEvent::Tick(now) => s.after_tick(now),
    }
}

/// The state and the effects after a run of events from start-up.
pub open spec fn run(events: Seq<NfcEvent>) -> (NfcState, Seq<Effect>)
    decreases events.len(),
{
    if events.len() == 0 {
        (NfcState::initial(), Seq::empty())
    } else {
        let (s, before) = run(events.drop_last());
        let (next, last) = step(s, events.last());
        (next, before + last)
    }
}

/// Every device that is tapped is one of the two of its kind.
pub open spec fn known_devices(events: Seq<NfcEvent>) -> bool {
    forall|k: int|
        0 <= k < events.len() ==> ((#[trigger] events[k]) matches NfcEvent::Tap { i, .. } ==> 0 <= i
            < 2)
}

/// The text that the device showed last, if it showed any.
pub open spec fn shown_last(events: Seq<NfcEvent>, kind: NfcKind, i: int) -> Option<Seq<char>>
    decreases events.len(),
{
    if events.len() == 0 {
        None
    } else {
        match events.last() {
            NfcEvent::Tap { kind: k, i: j, v: Value::Text(t), .. } => if k == kind && j == i {
                Some(t)
            } else {
                shown_last(events.drop_last(), kind, i)
            },
            _ => shown_last(events.drop_last(), kind, i),
        }
    }
}

/// The cabin lock status seen last. Locked until known.
pub open spec fn status_last(events: Seq<NfcEvent>) -> Seq<char>
    decreases events.len(),
{
    if events.len() == 0 {
        STATUS_LOCKED@
    } else {
        match events.last() {
            NfcEvent::Status(Value::Text(t)) => t,
            _ => status_last(events.drop_last()),
        }
    }
}

/// The request that an event asks for after `before` happened: an unlock request
/// where a device changes to the driver handle while the vehicle is not unlocked.
/// Nothing else asks for one.
pub open spec fn asked(before: Seq<NfcEvent>, event: NfcEvent) -> Option<DoorLockRequest> {
    match event {
        NfcEvent::Tap { kind, i, v, .. } => if v == Value::Text("DriverHandle"@) && shown_last(
            before,
            kind,
            i,
        ) != Some("DriverHandle"@) && status_last(before) != STATUS_UNLOCKED@ {
            Some(NfcState::unlock_order(kind))
        } else {
            None
        },
        _ => None,
    }
}

/// The requests that a run of events asks for, in order.
pub open spec fn all_asked(events: Seq<NfcEvent>) -> Seq<DoorLockRequest>
    decreases events.len(),
{
    if events.len() == 0 {
        Seq::empty()
    } else {
        let rest = all_asked(events.drop_last());
        match asked(events.drop_last(), events.last()) {
            Some(order) => rest.push(order),
            None => rest,
        }
    }
}

/// The door-lock requests among the effects, in order.
pub open spec fn orders(effects: Seq<Effect>) -> Seq<DoorLockRequest>
    decreases effects.len(),
{
    if effects.len() == 0 {
        Seq::empty()
    } else {
        let rest = orders(effects.drop_last());
        match effects.last() {
            Effect::Lock { order } => rest.push(order),
            _ => rest,
        }
    }
}

/// The effect asks neither for locking nor for lock feedback.
pub open spec fn leaves_lock_alone(e: Effect) -> bool {
    match e {
        Effect::Lock { .. } => false,
        Effect::Publish { signal, .. } => signal != FEEDBACK_REQUEST@,
        _ => true,
    }
}

proof fn lemma_known_prefix(events: Seq<NfcEvent>)
    requires
        known_devices(events),
        events.len() > 0,
    ensures
        known_devices(events.drop_last()),
{
    let rest = events.drop_last();
    assert forall|k: int| 0 <= k < rest.len() implies ((#[trigger] rest[k]) matches NfcEvent::Tap {
        i,
        ..
    } ==> 0 <= i < 2) by {
        assert(rest[k] == events[k]);
    }
}

proof fn lemma_orders_of_sum(a: Seq<Effect>, b: Seq<Effect>)
    ensures
        orders(a + b) == orders(a) + orders(b),
    decreases b.len(),
{
    if b.len() == 0 {
        assert(a + b =~= a);
        assert(orders(a) + orders(b) =~= orders(a));
    } else {
        assert((a + b).drop_last() =~= a + b.drop_last());
        lemma_orders_of_sum(a, b.drop_last());
        assert(orders(a + b) =~= orders(a) + orders(b));
    }
}

proof fn lemma_no_orders(effects: Seq<Effect>)
    requires
        forall|k: int| 0 <= k < effects.len() ==> leaves_lock_alone(#[trigger] effects[k]),
    ensures
        orders(effects) == Seq::<DoorLockRequest>::empty(),
    decreases effects.len(),
{
    if effects.len() > 0 {
        let rest = effects.drop_last();
        assert forall|k: int| 0 <= k < rest.len() implies leaves_lock_alone(#[trigger] rest[k]) by {
            assert(rest[k] == effects[k]);
        }
        lemma_no_orders(rest);
        assert(leaves_lock_alone(effects[effects.len() - 1]));
    }
}

proof fn lemma_signals_differ()
    ensures
        START_STOP@ != FEEDBACK_REQUEST@,
        NFC_AUTH_BYPASS@ != FEEDBACK_REQUEST@,
{
    reveal_strlit("Body.Switches.StartStop.IsPressed");
    reveal_strlit("Body.PEPS.NfcAuthBypass");
    reveal_strlit("Body.Doors.CentralLock.FeedbackRequest");
    assert(START_STOP@[5] == 'S' && NFC_AUTH_BYPASS@[5] == 'P' && FEEDBACK_REQUEST@[5] == 'D');
}

proof fn lemma_dues_leave_lock_alone(dues: Seq<Due>, now: u64)
    ensures
        forall|k: int|
            0 <= k < nfc_entry::due_effects(dues, now).len() ==> leaves_lock_alone(
                #[trigger] nfc_entry::due_effects(dues, now)[k],
            ),
    decreases dues.len(),
{
    lemma_signals_differ();
    if dues.len() > 0 {
        lemma_dues_leave_lock_alone(dues.drop_last(), now);
        let rest = nfc_entry::due_effects(dues.drop_last(), now);
        let all = nfc_entry::due_effects(dues, now);
        assert forall|k: int| 0 <= k < all.len() implies leaves_lock_alone(#[trigger] all[k]) by {
            if k < rest.len() {
                assert(all[k] == rest[k]);
            }
        }
    }
}

/// The place where a device is held, by the text that it showed last.
spec fn place_of(shown: Option<Seq<char>>) -> Spot {
    match shown {
        Some(t) => nfc_entry::spot_of(t),
        None => Spot::Elsewhere,
    }
}

proof fn lemma_state_follows_events(events: Seq<NfcEvent>)
    requires
        known_devices(events),
    ensures
        run(events).0.cards.len() == 2,
        run(events).0.phones.len() == 2,
        run(events).0.status == status_last(events),
        forall|kind: NfcKind, i: int|
            0 <= i < 2 ==> #[trigger] run(events).0.spot(kind, i) == place_of(
                shown_last(events, kind, i),
            ),
    decreases events.len(),
{
    if events.len() > 0 {
        let rest = events.drop_last();
        lemma_known_prefix(events);
        lemma_state_follows_events(rest);
        let s = run(rest).0;
        let t = run(events).0;
        assert(events[events.len() - 1] == events.last());
        assert forall|kind: NfcKind, i: int| 0 <= i < 2 implies #[trigger] t.spot(kind, i)
            == place_of(shown_last(events, kind, i)) by {
            assert(s.spot(kind, i) == place_of(shown_last(rest, kind, i)));
        }
    } else {
        let s = NfcState::initial();
        assert forall|kind: NfcKind, i: int| 0 <= i < 2 implies #[trigger] s.spot(kind, i)
            == Spot::Elsewhere by {
            assert(i == 0 || i == 1);
        }
    }
}

/// Whatever happened before, a device that changes to the driver handle while the
/// vehicle is not unlocked leads to one unlock request, as a card or as a phone, and
/// to unlock feedback once it is accepted. Every other event leads to neither: not a
/// device that still shows the driver handle, not one at the start button, not one
/// that is taken away.
pub proof fn law_unlock_on_arrival_only(before: Seq<NfcEvent>, event: NfcEvent)
    requires
        known_devices(before.push(event)),
    ensures
        match asked(before, event) {
            Some(order) => step(run(before).0, event).1 == unlock_effects(order),
            None => forall|k: int|
                0 <= k < step(run(before).0, event).1.len() ==> leaves_lock_alone(
                    #[trigger] step(run(before).0, event).1[k],
                ),
        },
{
    let all = before.push(event);
    assert(all[all.len() - 1] == event);
    lemma_known_prefix(all);
    assert(all.drop_last() =~= before);
    lemma_state_follows_events(before);
    lemma_signals_differ();
    reveal_strlit("DriverHandle");
    reveal_strlit("PushButton");
    assert("DriverHandle"@[0] == 'D' && "PushButton"@[0] == 'P');
    let s = run(before).0;
    match event {
        NfcEvent::Tap { kind, i, v, now } => {
            assert(s.spot(kind, i) == place_of(shown_last(before, kind, i)));
        },
        NfcEvent::Tick(now) => {
            lemma_dues_leave_lock_alone(s.dues, now);
        },
        NfcEvent::Status(_) => {},
    }
}

/// Over every run of events there is exactly one unlock request for each change of a
/// device to the driver handle while the vehicle is not unlocked, in that order, and
/// no other door-lock request.
pub proof fn law_one_unlock_per_arrival(events: Seq<NfcEvent>)
    requires
        known_devices(events),
    ensures
        orders(run(events).1) == all_asked(events),
    decreases events.len(),
{
    if events.len() > 0 {
        let rest = events.drop_last();
        let event = events.last();
        assert(rest.push(event) =~= events);
        lemma_known_prefix(events);
        law_one_unlock_per_arrival(rest);
        law_unlock_on_arrival_only(rest, event);
        let before = run(rest).1;
        let last = step(run(rest).0, event).1;
        lemma_orders_of_sum(before, last);
        match asked(rest, event) {
            Some(order) => {
                let feedback = lock_reply::reply_effects(true, "unlock"@);
                lemma_orders_of_sum(seq![Effect::Lock { order }], feedback);
                reveal_with_fuel(orders, 2);
                assert(seq![Effect::Lock { order }].drop_last() =~= Seq::<Effect>::empty());
                assert(feedback.drop_last() =~= Seq::<Effect>::empty());
                assert(orders(last) =~= seq![order]);
                assert(orders(before) + seq![order] =~= orders(before).push(order));
            },
            None => {
                lemma_no_orders(last);
                assert(orders(before) + orders(last) =~= orders(before));
            },
        }
    }
}

/// Whatever happened before, a device that changes to the start button puts out the
/// proof and the press, in this order, and plans to let the button go 50
/// milliseconds later and to withdraw the proof three seconds later. No other value
/// of a device plans anything or presses the button.
pub proof fn law_start_on_arrival_only(
    before: Seq<NfcEvent>,
    kind: NfcKind,
    i: int,
    v: Value,
    now: u64,
)
    requires
        known_devices(before),
        0 <= i < 2,
    ensures
        ({
            let s = run(before).0;
            let (t, out) = step(s, NfcEvent::Tap { kind, i, v, now });
            if v == Value::Text("PushButton"@) && shown_last(before, kind, i) != Some(
                "PushButton"@,
            ) {
                &&& out == seq![
                    Effect::publish(NFC_AUTH_BYPASS, Value::Bool(true)),
                    Effect::publish(START_STOP, Value::Bool(true)),
                ]
                &&& t.dues == s.dues + seq![
                    Due { at: clock::later(now, 50), what: Later::LetGo },
                    Due { at: clock::later(now, 3_000), what: Later::Withdraw },
                ]
            } else {
                &&& t.dues == s.dues
                &&& !out.contains(Effect::publish(START_STOP, Value::Bool(true)))
            }
        }),
        ({
            let s = run(before).0;
            step(s, NfcEvent::Tap { kind, i, v, now }).0.status == s.status
        }),
{
    lemma_state_follows_events(before);
    reveal_strlit("DriverHandle");
    reveal_strlit("PushButton");
    assert("DriverHandle"@[0] == 'D' && "PushButton"@[0] == 'P');
    let s = run(before).0;
    assert(s.spot(kind, i) == place_of(shown_last(before, kind, i)));
    let (t, out) = step(s, NfcEvent::Tap { kind, i, v, now });
    let press = Effect::publish(START_STOP, Value::Bool(true));
    reveal_strlit("Body.Doors.CentralLock.FeedbackRequest");
    reveal_strlit("Body.Switches.StartStop.IsPressed");
    assert(FEEDBACK_REQUEST@.len() != START_STOP@.len());
    if v == Value::Text("PushButton"@) && shown_last(before, kind, i) != Some("PushButton"@) {
        assert(t.dues =~= s.dues + seq![
            Due { at: clock::later(now, 50), what: Later::LetGo },
            Due { at: clock::later(now, 3_000), what: Later::Withdraw },
        ]);
    } else if out.contains(press) {
        let k = choose|k: int| 0 <= k < out.len() && out[k] == press;
        assert(out[k] is Publish);
    }
}

/// A tap on the driver handle asks to unlock all doors, for a card as a card and for
/// a phone as a phone. What is planned lets the button go or withdraws the proof.
pub proof fn law_what_taps_ask_for()
    ensures
        NfcState::unlock_order(NfcKind::Card) == (DoorLockRequest {
            command: LockCommand::UnlockAll,
            feature_id: FeatureId::NfcCard,
        }),
        NfcState::unlock_order(NfcKind::Phone) == (DoorLockRequest {
            command: LockCommand::UnlockAll,
            feature_id: FeatureId::NfcPhone,
        }),
        Later::LetGo.effect() == Effect::publish(START_STOP, Value::Bool(false)),
        Later::Withdraw.effect() == Effect::publish(
            NFC_AUTH_BYPASS,
            Value::Bool(false),
        ),
{
}

/// What is planned comes out when its time has come, and not before: of each thing
/// planned, either its effect comes out or it stays planned.
pub proof fn law_plans_are_kept(s: NfcState, now: u64, due: Due)
    ensures
        s.dues.contains(due) && due.at <= now ==> s.after_tick(now).1.contains(due.what.effect()),
        s.after_tick(now).0.dues.contains(due) <==> s.dues.contains(due) && due.at > now,
{
    lemma_plans(s.dues, now, due);
}

proof fn lemma_plans(dues: Seq<Due>, now: u64, due: Due)
    ensures
        dues.contains(due) && due.at <= now ==> nfc_entry::due_effects(dues, now).contains(
            due.what.effect(),
        ),
        nfc_entry::not_due(dues, now).contains(due) <==> dues.contains(due) && due.at > now,
    decreases dues.len(),
{
    if dues.len() > 0 {
        let rest = dues.drop_last();
        lemma_plans(rest, now, due);
        let out = nfc_entry::due_effects(dues, now);
        let before = nfc_entry::due_effects(rest, now);
        let left = nfc_entry::not_due(dues, now);
        let left_before = nfc_entry::not_due(rest, now);
        let n = rest.len() as int;
        if dues.contains(due) {
            let k = choose|k: int| 0 <= k < dues.len() && dues[k] == due;
            if k < n {
                assert(rest[k] == due);
            } else {
                if due.at <= now {
                    assert(out[before.len() as int] == due.what.effect());
                } else {
                    assert(left[left_before.len() as int] == due);
                }
            }
        }
        if rest.contains(due) {
            let k = choose|k: int| 0 <= k < n && rest[k] == due;
            assert(dues[k] == due);
            if due.at <= now {
                let j = choose|j: int| 0 <= j < before.len() && before[j] == due.what.effect();
                assert(out[j] == due.what.effect());
            } else {
                let j = choose|j: int| 0 <= j < left_before.len() && left_before[j] == due;
                assert(left[j] == due);
            }
        }
        if left.contains(due) {
            let j = choose|j: int| 0 <= j < left.len() && left[j] == due;
            if j < left_before.len() {
                assert(left_before[j] == due);
                assert(left_before.contains(due));
            } else {
                assert(dues[n] == due);
            }
        }
    }
}

} // verus!
