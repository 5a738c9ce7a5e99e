//! NFC entry: a card or phone tapped on the driver handle unlocks the vehicle, and
//! one tapped on the start button starts it.

use vstd::prelude::*;

use crate::arbiter::door_lock::{STATUS_LOCKED, STATUS_UNLOCKED};
use crate::clock;
use crate::ipc_message::{FeatureId, SignalValue, Value};
use crate::signal_bus::{
    no_outputs, publish_bool, same_text, DoorLockRequest, Effect, LockCommand, Output, VssPath,
};

verus! {

/// Start button.
pub const START_STOP: VssPath = "Body.Switches.StartStop.IsPressed";

/// Proof of an authenticated tap on the start button.
pub const NFC_AUTH_BYPASS: VssPath = "Body.PEPS.NfcAuthBypass";

/// How long the proof stays valid, in milliseconds.
pub const NFC_BYPASS_WINDOW_MS: u64 = 3_000;

/// How long the start button is held, in milliseconds.
pub const START_PRESS_HOLD_MS: u64 = 50;

/// Positions of the cards.
pub const NFC_CARD_SIGNALS: [VssPath; 2] = [
    "Body.PEPS.Plant.NfcCard.1.Position",
    "Body.PEPS.Plant.NfcCard.2.Position",
];

/// Taps of the phones.
pub const BLE_PHONE_SIGNALS: [VssPath; 2] = [
    "Body.PEPS.Plant.BlePhone.1.NfcTap",
    "Body.PEPS.Plant.BlePhone.2.NfcTap",
];

/// Kind of a device that is tapped.
#[derive(Debug, Clone, Copy, PartialEq, Eq, Structural)]
pub enum NfcKind {
    Card,
    Phone,
}

/// Where a device is held.
#[derive(Debug, Clone, Copy, PartialEq, Eq, Structural)]
pub enum Spot {
    Elsewhere,
    DriverHandle,
    PushButton,
}

/// Something that is published later.
#[derive(Debug, Clone, Copy, PartialEq, Eq, Structural)]
pub enum Later {
    /// The start button is let go.
    LetGo,
    /// The proof is withdrawn.
    Withdraw,
}

/// Something that is due at a time.
#[derive(Debug, Clone, Copy, PartialEq, Eq, Structural)]
pub struct Due {
    pub at: u64,
    pub what: Later,
}

/// What a tap leads to.
#[derive(Debug)]
pub enum Tap {
    /// Nothing.
    Nothing,
    /// A request to the door-lock arbiter, to be followed by unlock feedback if it
    /// is accepted.
    Unlock(DoorLockRequest),
    /// A start, with what is published at once.
    Start(Vec<Output>),
}

/// What a tap leads to, by its effects.
pub enum TapEffect {
    Nothing,
    Unlock(DoorLockRequest),
    Start(Seq<Effect>),
}

impl View for Tap {
    type V = TapEffect;

    open spec fn view(&self) -> TapEffect {
        match self {
            Tap::Nothing => TapEffect::Nothing,
            Tap::Unlock(order) => TapEffect::Unlock(*order),
            Tap::Start(outputs) => TapEffect::Start(Effect::all(outputs@)),
        }
    }
}

/// Where a text says that a device is held.
pub open spec fn spot_of(s: Seq<char>) -> Spot {
    if s == "DriverHandle"@ {
        Spot::DriverHandle
    } else if s == "PushButton"@ {
        Spot::PushButton
    } else {
        Spot::Elsewhere
    }
}

fn read_spot(s: &str) -> (r: Spot)
    ensures
        r == spot_of(s@),
{
    if same_text(s, "DriverHandle") {
        Spot::DriverHandle
    } else if same_text(s, "PushButton") {
        Spot::PushButton
    } else {
        Spot::Elsewhere
    }
}

impl Later {
    /// The effect of publishing it.
    pub open spec fn effect(self) -> Effect {
        match self {
            Later::LetGo => Effect::publish(START_STOP, Value::Bool(false)),
            Later::Withdraw => Effect::publish(NFC_AUTH_BYPASS, Value::Bool(false)),
        }
    }
}

/// The effects of what is due at `now`, in the order in which it was planned.
pub open spec fn due_effects(dues: Seq<Due>, now: u64) -> Seq<Effect>
    decreases dues.len(),
{
    if dues.len() == 0 {
        Seq::empty()
    } else {
        let rest = due_effects(dues.drop_last(), now);
        if dues.last().at <= now {
            rest.push(dues.last().what.effect())
        } else {
            rest
        }
    }
}

/// What is not yet due at `now`.
pub open spec fn not_due(dues: Seq<Due>, now: u64) -> Seq<Due>
    decreases dues.len(),
{
    if dues.len() == 0 {
        Seq::empty()
    } else {
        let rest = not_due(dues.drop_last(), now);
        if dues.last().at <= now {
            rest
        } else {
            rest.push(dues.last())
        }
    }
}

/// State of the feature.
#[verifier::ext_equal]
pub struct NfcState {
    /// The cabin lock status seen last.
    pub status: Seq<char>,
    /// Where each card is held.
    pub cards: Seq<Spot>,
    /// Where each phone is held.
    pub phones: Seq<Spot>,
    /// What is published later.
    pub dues: Seq<Due>,
}

impl NfcState {
    /// The state at start-up.
    pub open spec fn initial() -> NfcState {
        NfcState {
            status: STATUS_LOCKED@,
            cards: seq![Spot::Elsewhere, Spot::Elsewhere],
            phones: seq![Spot::Elsewhere, Spot::Elsewhere],
            dues: Seq::empty(),
        }
    }

    /// Where the device is held.
    pub open spec fn spot(self, kind: NfcKind, i: int) -> Spot {
        match kind {
            NfcKind::Card => self.cards[i],
            NfcKind::Phone => self.phones[i],
        }
    }

    /// The state with the device held at another place.
    pub open spec fn moved(self, kind: NfcKind, i: int, spot: Spot) -> NfcState {
        match kind {
            NfcKind::Card => NfcState { cards: self.cards.update(i, spot), ..self },
            NfcKind::Phone => NfcState { phones: self.phones.update(i, spot), ..self },
        }
    }

    /// The request of a tap on the driver handle.
    pub open spec fn unlock_order(kind: NfcKind) -> DoorLockRequest {
        DoorLockRequest {
            command: LockCommand::UnlockAll,
            feature_id: match kind {
                NfcKind::Card => FeatureId::NfcCard,
                NfcKind::Phone => FeatureId::NfcPhone,
            },
        }
    }

    /// The effects of a tap on the start button, at once.
    pub open spec fn start_effects() -> Seq<Effect> {
        seq![
            Effect::publish(NFC_AUTH_BYPASS, Value::Bool(true)),
            Effect::publish(START_STOP, Value::Bool(true)),
        ]
    }

    /// The state with what follows a tap on the start button planned.
    pub open spec fn planned(self, now: u64) -> NfcState {
        NfcState {
            dues: self.dues.push(
                Due { at: clock::later(now, START_PRESS_HOLD_MS), what: Later::LetGo },
            ).push(Due { at: clock::later(now, NFC_BYPASS_WINDOW_MS), what: Later::Withdraw }),
            ..self
        }
    }

    /// The state after a value of the cabin lock status.
    pub open spec fn after_status(self, v: Value) -> NfcState {
        match v {
            Value::Text(s) => NfcState { status: s, ..self },
            _ => self,
        }
    }

    /// The state after a value of the device, and what it leads to. Only an
    /// arrival counts.
    pub open spec fn after_tap(self, kind: NfcKind, i: int, v: Value, now: u64) -> (
        NfcState,
        TapEffect,
    ) {
        match v {
            Value::Text(s) => {
                let spot = spot_of(s);
                let next = self.moved(kind, i, spot);
                if spot == self.spot(kind, i) {
                    (next, TapEffect::Nothing)
                } else if spot == Spot::DriverHandle && self.status != STATUS_UNLOCKED@ {
                    (next, TapEffect::Unlock(NfcState::unlock_order(kind)))
                } else if spot == Spot::PushButton {
                    (next.planned(now), TapEffect::Start(NfcState::start_effects()))
                } else {
                    (next, TapEffect::Nothing)
                }
            },
            _ => (self, TapEffect::Nothing),
        }
    }

    /// The state and the effects when the clock has reached `now`.
    pub open spec fn after_tick(self, now: u64) -> (NfcState, Seq<Effect>) {
        (NfcState { dues: not_due(self.dues, now), ..self }, due_effects(self.dues, now))
    }
}

/// The NFC-entry feature.
pub struct NfcEntry {
    lock_status: String,
    cards: [Spot; 2],
    phones: [Spot; 2],
    dues: Vec<Due>,
}

impl View for NfcEntry {
    type V = NfcState;

    closed spec fn view(&self) -> NfcState {
        NfcState {
            status: self.lock_status@,
            cards: self.cards@,
            phones: self.phones@,
            dues: self.dues@,
        }
    }
}

impl NfcEntry {
    /// The feature in a locked vehicle, with no device held anywhere.
    pub fn new() -> (r: NfcEntry)
        ensures
            r@ == NfcState::initial(),
    {
        let r = NfcEntry {
            lock_status: STATUS_LOCKED.to_owned(),
            cards: [Spot::Elsewhere, Spot::Elsewhere],
            phones: [Spot::Elsewhere, Spot::Elsewhere],
            dues: Vec::new(),
        };
        assert(r@ =~= NfcState::initial());
        r
    }

    /// When something is due next, if anything is planned.
    pub fn deadline(&self) -> (r: Option<u64>)
        ensures
            match r {
                Some(t) => {
                    &&& exists|i: int| 0 <= i < self@.dues.len() && (#[trigger] self@.dues[i]).at == t
                    &&& forall|i: int|
                        0 <= i < self@.dues.len() ==> t <= (#[trigger] self@.dues[i]).at
                },
                None => self@.dues.len() == 0,
            },
    {
        if self.dues.len() == 0 {
            return None;
        }
        let mut t: u64 = self.dues[0].at;
        let mut k: usize = 1;
        while k < self.dues.len()
            invariant
                1 <= k <= self.dues@.len(),
                exists|i: int| 0 <= i < k && (#[trigger] self.dues@[i]).at == t,
                forall|i: int| 0 <= i < k ==> t <= (#[trigger] self.dues@[i]).at,
            decreases self.dues@.len() - k,
        {
            if self.dues[k].at < t {
                t = self.dues[k].at;
                assert(self.dues@[k as int].at == t);
            }
            k += 1;
        }
        Some(t)
    }

    /// Takes a value of the cabin lock status.
    pub fn on_lock_status(&mut self, val: &SignalValue)
        ensures
            final(self)@ == old(self)@.after_status(val@),
    {
        if let SignalValue::String(s) = val {
            self.lock_status = s.clone();
        }
    }

    /// Takes a value of the position of the device of this kind at position `i`,
    /// at time `now`.
    pub fn on_tap(&mut self, kind: NfcKind, i: usize, val: &SignalValue, now: u64) -> (r: Tap)
        requires
            i < 2,
        ensures
            (final(self)@, r@) == old(self)@.after_tap(kind, i as int, val@, now),
    {
        let ghost before = self@;
        let text = match val {
            SignalValue::String(s) => s,
            _ => {
                return Tap::Nothing;
            },
        };
        let spot = read_spot(text.as_str());
        let was = match kind {
            NfcKind::Card => self.cards[i],
            NfcKind::Phone => self.phones[i],
        };
        match kind {
            NfcKind::Card => {
                self.cards[i] = spot;
            },
            NfcKind::Phone => {
                self.phones[i] = spot;
            },
        }
        assert(self@ =~= before.moved(kind, i as int, spot));
        if spot == was {
            return Tap::Nothing;
        }
        match spot {
            Spot::DriverHandle => {
                if same_text(self.lock_status.as_str(), STATUS_UNLOCKED) {
                    Tap::Nothing
                } else {
                    Tap::Unlock(
                        DoorLockRequest {
                            command: LockCommand::UnlockAll,
                            feature_id: match kind {
                                NfcKind::Card => FeatureId::NfcCard,
                                NfcKind::Phone => FeatureId::NfcPhone,
                            },
                        },
                    )
                }
            },
            Spot::PushButton => {
                self.dues.push(
                    Due { at: clock::deadline(now, START_PRESS_HOLD_MS), what: Later::LetGo },
                );
                self.dues.push(
                    Due { at: clock::deadline(now, NFC_BYPASS_WINDOW_MS), what: Later::Withdraw },
                );
                let outputs = vec![
                    publish_bool(NFC_AUTH_BYPASS, true),
                    publish_bool(START_STOP, true),
                ];
                assert(Effect::all(outputs@) =~= NfcState::start_effects());
                Tap::Start(outputs)
            },
            Spot::Elsewhere => Tap::Nothing,
        }
    }

    /// Takes the time.
    pub fn on_tick(&mut self, now: u64) -> (r: Vec<Output>)
        ensures
            (final(self)@, Effect::all(r@)) == old(self)@.after_tick(now),
    {
        let ghost all = self.dues@;
        let mut r = no_outputs();
        let mut kept: Vec<Due> = Vec::new();
        let mut k: usize = 0;
        assert(all.take(0) =~= Seq::<Due>::empty());
        while k < self.dues.len()
            invariant
                k <= self.dues@.len(),
                self.dues@ == all,
                Effect::all(r@) == due_effects(all.take(k as int), now),
                kept@ == not_due(all.take(k as int), now),
            decreases self.dues@.len() - k,
        {
            let due = self.dues[k];
            let ghost had = r@;
            proof {
                let longer = all.take(k + 1);
                assert(longer.drop_last() =~= all.take(k as int));
                assert(longer.last() == due);
            }
            if due.at <= now {
                r.push(
                    match due.what {
                        Later::LetGo => publish_bool(START_STOP, false),
                        Later::Withdraw => publish_bool(NFC_AUTH_BYPASS, false),
                    },
                );
                assert(Effect::all(r@) =~= Effect::all(had).push(due.what.effect()));
            } else {
                kept.push(due);
            }
            k += 1;
        }
        assert(all.take(all.len() as int) =~= all);
        self.dues = kept;
        r
    }
}

/// A tap on the driver handle of a vehicle that is not unlocked unlocks it: a card
/// as a card, a phone as a phone. An unlocked one ignores the tap.
pub proof fn law_handle_tap_unlocks(s: NfcState, kind: NfcKind, i: int, now: u64)
    requires
        s.spot(kind, i) != Spot::DriverHandle,
    ensures
        s.after_tap(kind, i, Value::Text("DriverHandle"@), now).1 == if s.status
            == STATUS_UNLOCKED@ {
            TapEffect::Nothing
        } else {
            TapEffect::Unlock(NfcState::unlock_order(kind))
        },
{
}

/// A device that stays where it is does nothing more, and one that is taken away
/// does nothing.
pub proof fn law_only_arrivals_count(s: NfcState, kind: NfcKind, i: int, v: Value, now: u64)
    requires
        s.cards.len() == 2,
        s.phones.len() == 2,
        0 <= i < 2,
        v matches Value::Text(t) ==> spot_of(t) == s.spot(kind, i) || spot_of(t)
            == Spot::Elsewhere,
    ensures
        s.after_tap(kind, i, v, now).1 is Nothing,
        s.after_tap(kind, i, v, now).0.dues == s.dues,
{
}

/// Devices are independent: a value of one leaves where the others are alone.
pub proof fn law_devices_are_independent(
    s: NfcState,
    kind: NfcKind,
    i: int,
    other: NfcKind,
    j: int,
    v: Value,
    now: u64,
)
    requires
        s.cards.len() == 2,
        s.phones.len() == 2,
        0 <= i < 2,
        0 <= j < 2,
        kind != other || i != j,
    ensures
        s.after_tap(kind, i, v, now).0.spot(other, j) == s.spot(other, j),
{
}

/// A tap on the start button presses it and proves the user at once. The button
/// is let go once its span is over, and the proof is withdrawn once the window is.
pub proof fn law_start_tap_is_momentary(
    s: NfcState,
    kind: NfcKind,
    i: int,
    now: u64,
    then: u64,
)
    requires
        s.spot(kind, i) != Spot::PushButton,
        s.dues.len() == 0,
    ensures
        ({
            let tapped = s.after_tap(kind, i, Value::Text("PushButton"@), now);
            let out = tapped.0.after_tick(then).1;
            &&& tapped.1 == TapEffect::Start(NfcState::start_effects())
            &&& out == if then < clock::later(now, START_PRESS_HOLD_MS) {
                Seq::<Effect>::empty()
            } else if then < clock::later(now, NFC_BYPASS_WINDOW_MS) {
                seq![Later::LetGo.effect()]
            } else {
                seq![Later::LetGo.effect(), Later::Withdraw.effect()]
            }
        }),
{
    reveal_strlit("DriverHandle");
    reveal_strlit("PushButton");
    assert("DriverHandle"@[0] == 'D' && "PushButton"@[0] == 'P');
    let dues = s.after_tap(kind, i, Value::Text("PushButton"@), now).0.dues;
    reveal_with_fuel(due_effects, 3);
    assert(dues.drop_last().drop_last() =~= Seq::<Due>::empty());
    assert(due_effects(dues, then) =~= if then < clock::later(now, START_PRESS_HOLD_MS) {
        Seq::<Effect>::empty()
    } else if then < clock::later(now, NFC_BYPASS_WINDOW_MS) {
        seq![Later::LetGo.effect()]
    } else {
        seq![Later::LetGo.effect(), Later::Withdraw.effect()]
    });
}

/// Nothing planned is lost and nothing is published twice: what is due is
/// published, and the rest stays planned.
pub proof fn law_dues_are_published_once(s: NfcState, now: u64)
    ensures
        s.after_tick(now).1.len() + s.after_tick(now).0.dues.len() == s.dues.len(),
        s.after_tick(now).0.after_tick(now) == (s.after_tick(now).0, Seq::<Effect>::empty()),
{
    lemma_split(s.dues, now);
}

proof fn lemma_split(dues: Seq<Due>, now: u64)
    ensures
        due_effects(dues, now).len() + not_due(dues, now).len() == dues.len(),
        due_effects(not_due(dues, now), now) == Seq::<Effect>::empty(),
        not_due(not_due(dues, now), now) == not_due(dues, now),
    decreases dues.len(),
{
    if dues.len() > 0 {
        lemma_split(dues.drop_last(), now);
        let rest = not_due(dues.drop_last(), now);
        let all = not_due(dues, now);
        if dues.last().at > now {
            assert(all.drop_last() =~= rest);
        }
    }
}

} // verus!
