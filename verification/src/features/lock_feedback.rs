//! Lock feedback: the direction indicators confirm locking and unlocking.
//!
//! Locking flashes once, unlocking twice. A new request takes the place of the
//! pattern that plays. After the trunk was opened from outside, closing it is
//! confirmed too: as locked if all doors are, as unlocked otherwise.

use vstd::prelude::*;

use crate::arbiter::tables::{LEFT_INDICATOR, RIGHT_INDICATOR};
use crate::clock;
use crate::features::doors;
use crate::features::doors::{all_set, no_flags};
use crate::ipc_message::{FeatureId, Priority, SignalValue, Value};
use crate::signal_bus::{
    claim_bool, no_outputs, release_claim, Domain, Effect, Output, VssPath,
};

verus! {

/// Open state of the trunk.
pub const TRUNK_OPEN_SIG: VssPath = "Body.Trunk.IsOpen";

/// Lock-state signals of the doors.
pub const DOOR_LOCKED_SIGNALS: [VssPath; 4] = [
    "Body.Doors.Row1.Left.IsLocked",
    "Body.Doors.Row1.Right.IsLocked",
    "Body.Doors.Row2.Left.IsLocked",
    "Body.Doors.Row2.Right.IsLocked",
];

/// Dark lead-in before each flash, in milliseconds.
pub const LEAD_IN_MS: u64 = 100;

/// How long a flash is on, in milliseconds. Shorter than two half-periods of the
/// blink relay, so that the lamp lights once per flash.
pub const FLASH_ON_MS: u64 = 500;

/// Dark gap between two flashes, in milliseconds.
pub const GAP_MS: u64 = 300;

/// Stage of a flash.
#[derive(Debug, Clone, Copy, PartialEq, Eq, Structural)]
pub enum Stage {
    LeadIn,
    On,
    Gap,
}

/// A pattern that plays.
#[derive(Debug, Clone, Copy, PartialEq, Eq)]
pub struct Flash {
    pub stage: Stage,
    /// When the stage is over.
    pub until: u64,
    /// A second flash follows.
    pub again: bool,
}

/// State of the feature.
#[verifier::ext_equal]
pub struct FeedbackState {
    pub flash: Option<Flash>,
    /// The trunk was opened from outside.
    pub trunk_opened: bool,
    /// Which doors are locked.
    pub locked: Seq<bool>,
}

/// What a feedback request asks for.
#[derive(Debug, Clone, Copy, PartialEq, Eq, Structural)]
pub enum FeedbackKind {
    Lock,
    Unlock,
    TrunkUnlock,
}

/// The kind of a feedback request, if it is known.
pub open spec fn kind_of(v: Value) -> Option<FeedbackKind> {
    if v == Value::Text("lock"@) {
        Some(FeedbackKind::Lock)
    } else if v == Value::Text("unlock"@) {
        Some(FeedbackKind::Unlock)
    } else if v == Value::Text("trunk_unlock"@) {
        Some(FeedbackKind::TrunkUnlock)
    } else {
        None
    }
}

/// The kind of a feedback request, if it is known.
pub fn feedback_kind(val: &SignalValue) -> (r: Option<FeedbackKind>)
    ensures
        r == kind_of(val@),
{
    if val.is_text("lock") {
        Some(FeedbackKind::Lock)
    } else if val.is_text("unlock") {
        Some(FeedbackKind::Unlock)
    } else if val.is_text("trunk_unlock") {
        Some(FeedbackKind::TrunkUnlock)
    } else {
        None
    }
}

/// The effects of claiming both indicators.
pub open spec fn both_claimed(on: bool) -> Seq<Effect> {
    seq![
        Effect::claim(
            Domain::Lighting,
            LEFT_INDICATOR,
            Value::Bool(on),
            Priority::High,
            FeatureId::LockFeedback,
        ),
        Effect::claim(
            Domain::Lighting,
            RIGHT_INDICATOR,
            Value::Bool(on),
            Priority::High,
            FeatureId::LockFeedback,
        ),
    ]
}

/// The effects of giving both indicators back.
pub open spec fn both_released() -> Seq<Effect> {
    seq![
        Effect::release(Domain::Lighting, LEFT_INDICATOR, FeatureId::LockFeedback),
        Effect::release(Domain::Lighting, RIGHT_INDICATOR, FeatureId::LockFeedback),
    ]
}

fn claim_both(on: bool) -> (r: Vec<Output>)
    ensures
        Effect::all(r@) == both_claimed(on),
{
    let r = vec![
        claim_bool(
            Domain::Lighting,
            LEFT_INDICATOR,
            on,
            Priority::High,
            FeatureId::LockFeedback,
        ),
        claim_bool(
            Domain::Lighting,
            RIGHT_INDICATOR,
            on,
            Priority::High,
            FeatureId::LockFeedback,
        ),
    ];
    assert(Effect::all(r@) =~= both_claimed(on));
    r
}

fn release_both() -> (r: Vec<Output>)
    ensures
        Effect::all(r@) == both_released(),
{
    let r = vec![
        release_claim(Domain::Lighting, LEFT_INDICATOR, FeatureId::LockFeedback),
        release_claim(Domain::Lighting, RIGHT_INDICATOR, FeatureId::LockFeedback),
    ];
    assert(Effect::all(r@) =~= both_released());
    r
}

impl FeedbackState {
    /// The state at start-up.
    pub open spec fn initial() -> FeedbackState {
        FeedbackState { flash: None, trunk_opened: false, locked: doors::none_set() }
    }

    /// The state and the effects when a pattern begins. Whatever played before is
    /// given back first.
    pub open spec fn begun(self, twice: bool, now: u64) -> (FeedbackState, Seq<Effect>) {
        (
            FeedbackState {
                flash: Some(
                    Flash {
                        stage: Stage::LeadIn,
                        until: clock::later(now, LEAD_IN_MS),
                        again: twice,
                    },
                ),
                ..self
            },
            both_released() + both_claimed(false),
        )
    }

    /// The state and the effects after a feedback request.
    pub open spec fn after_request(self, v: Value, now: u64) -> (FeedbackState, Seq<Effect>) {
        match kind_of(v) {
            Some(FeedbackKind::Lock) => self.begun(false, now),
            Some(FeedbackKind::Unlock) => self.begun(true, now),
            Some(FeedbackKind::TrunkUnlock) => (FeedbackState {
                trunk_opened: true,
                ..self
            }).begun(true, now),
            None => (self, Seq::empty()),
        }
    }

    /// The state and the effects after a value of the trunk.
    pub open spec fn after_trunk(self, v: Value, now: u64) -> (FeedbackState, Seq<Effect>) {
        if v == Value::Bool(false) && self.trunk_opened {
            (FeedbackState { trunk_opened: false, ..self }).begun(!doors::every(self.locked), now)
        } else {
            (self, Seq::empty())
        }
    }

    /// The state after a value of the lock state of the door at position `i`. Only
    /// flags count.
    pub open spec fn after_door_locked(self, i: int, v: Value) -> FeedbackState {
        match v.flag() {
            Some(b) => FeedbackState { locked: self.locked.update(i, b), ..self },
            None => self,
        }
    }

    /// The state with a pattern at a stage.
    pub open spec fn at(self, stage: Stage, until: u64, again: bool) -> FeedbackState {
        FeedbackState { flash: Some(Flash { stage, until, again }), ..self }
    }

    /// The state and the effects when the clock has reached `now`.
    pub open spec fn after_tick(self, now: u64) -> (FeedbackState, Seq<Effect>) {
        match self.flash {
            Some(f) => {
                if now < f.until {
                    (self, Seq::empty())
                } else {
                    match f.stage {
                        Stage::LeadIn => (
                            self.at(Stage::On, clock::later(now, FLASH_ON_MS), f.again),
                            both_claimed(true),
                        ),
                        Stage::On => if f.again {
                            (
                                self.at(Stage::Gap, clock::later(now, GAP_MS), false),
                                both_claimed(false),
                            )
                        } else {
                            (FeedbackState { flash: None, ..self }, both_released())
                        },
                        Stage::Gap => (
                            self.at(Stage::LeadIn, clock::later(now, LEAD_IN_MS), f.again),
                            both_claimed(false),
                        ),
                    }
                }
            },
            None => (self, Seq::empty()),
        }
    }
}

/// The lock-feedback feature.
pub struct LockFeedback {
    flash: Option<Flash>,
    trunk_opened_externally: bool,
    doors_locked: [bool; 4],
}

impl View for LockFeedback {
    type V = FeedbackState;

    closed spec fn view(&self) -> FeedbackState {
        FeedbackState {
            flash: self.flash,
            trunk_opened: self.trunk_opened_externally,
            locked: self.doors_locked@,
        }
    }
}

impl LockFeedback {
    /// The feature with no pattern playing. Doors count as unlocked until known.
    pub fn new() -> (r: LockFeedback)
        ensures
            r@ == FeedbackState::initial(),
    {
        LockFeedback { flash: None, trunk_opened_externally: false, doors_locked: no_flags() }
    }

    /// When the current stage is over, if a pattern plays.
    pub fn deadline(&self) -> (r: Option<u64>)
        ensures
            r == match self@.flash {
                Some(f) => Some(f.until),
                None => None,
            },
    {
        match self.flash {
            Some(f) => Some(f.until),
            None => None,
        }
    }

    fn preempt_and_start(&mut self, twice: bool, now: u64) -> (r: Vec<Output>)
        ensures
            (final(self)@, Effect::all(r@)) == old(self)@.begun(twice, now),
    {
        self.flash = Some(
            Flash {
                stage: Stage::LeadIn,
                until: clock::deadline(now, LEAD_IN_MS),
                again: twice,
            },
        );
        let mut r = release_both();
        let ghost given_back = r@;
        let mut dark = claim_both(false);
        let ghost dark_claims = dark@;
        r.append(&mut dark);
        assert(Effect::all(r@) =~= Effect::all(given_back) + Effect::all(dark_claims));
        r
    }

    /// Takes a value of the feedback request at time `now`.
    pub fn on_feedback(&mut self, val: &SignalValue, now: u64) -> (r: Vec<Output>)
        ensures
            (final(self)@, Effect::all(r@)) == old(self)@.after_request(val@, now),
    {
        match feedback_kind(val) {
            Some(FeedbackKind::Lock) => self.preempt_and_start(false, now),
            Some(FeedbackKind::Unlock) => self.preempt_and_start(true, now),
            Some(FeedbackKind::TrunkUnlock) => {
                self.trunk_opened_externally = true;
                self.preempt_and_start(true, now)
            },
            None => no_outputs(),
        }
    }

    /// Takes a value of the open state of the trunk at time `now`.
    pub fn on_trunk(&mut self, val: &SignalValue, now: u64) -> (r: Vec<Output>)
        ensures
            (final(self)@, Effect::all(r@)) == old(self)@.after_trunk(val@, now),
    {
        let closed = match val {
            SignalValue::Bool(b) => !*b,
            _ => false,
        };
        if closed && self.trunk_opened_externally {
            self.trunk_opened_externally = false;
            let secured = all_set(&self.doors_locked);
            self.preempt_and_start(!secured, now)
        } else {
            no_outputs()
        }
    }

    /// Takes a value of the lock state of the door at position `i`. Only flags
    /// count.
    pub fn on_door_locked(&mut self, i: usize, val: &SignalValue)
        requires
            i < 4,
        ensures
            final(self)@ == old(self)@.after_door_locked(i as int, val@),
    {
        let ghost before = self@;
        if let Some(b) = val.as_bool() {
            self.doors_locked[i] = b;
            assert(self@ =~= (FeedbackState {
                locked: before.locked.update(i as int, b),
                ..before
            }));
        }
    }

    /// Takes the time.
    pub fn on_tick(&mut self, now: u64) -> (r: Vec<Output>)
        ensures
            (final(self)@, Effect::all(r@)) == old(self)@.after_tick(now),
    {
        let f = match self.flash {
            Some(f) => f,
            None => {
                return no_outputs();
            },
        };
        if now < f.until {
            return no_outputs();
        }
        match f.stage {
            Stage::LeadIn => {
                self.flash = Some(
                    Flash {
                        stage: Stage::On,
                        until: clock::deadline(now, FLASH_ON_MS),
                        again: f.again,
                    },
                );
                claim_both(true)
            },
            Stage::On => if f.again {
                self.flash = Some(
                    Flash { stage: Stage::Gap, until: clock::deadline(now, GAP_MS), again: false },
                );
                claim_both(false)
            } else {
                self.flash = None;
                release_both()
            },
            Stage::Gap => {
                self.flash = Some(
                    Flash {
                        stage: Stage::LeadIn,
                        until: clock::deadline(now, LEAD_IN_MS),
                        again: f.again,
                    },
                );
                claim_both(false)
            },
        }
    }
}

/// The effects of ticks at these times, in order.
pub open spec fn played(s: FeedbackState, times: Seq<u64>) -> (FeedbackState, Seq<Effect>)
    decreases times.len(),
{
    if times.len() == 0 {
        (s, Seq::empty())
    } else {
        let (before, out) = played(s, times.drop_last());
        let (next, more) = before.after_tick(times.last());
        (next, out + more)
    }
}

/// Locking flashes once: dark, on, and given back.
pub proof fn law_lock_pattern(s: FeedbackState, now: u64)
    requires
        now <= u64::MAX - 600,
    ensures
        ({
            let end = played(
                s.after_request(Value::Text("lock"@), now).0,
                seq![(now + 100) as u64, (now + 600) as u64],
            );
            end.0.flash is None && end.1 == both_claimed(true) + both_released()
        }),
{
    let t = seq![(now + 100) as u64, (now + 600) as u64];
    reveal_with_fuel(played, 3);
    assert(t.drop_last() =~= seq![(now + 100) as u64]);
    assert(t.drop_last().drop_last() =~= Seq::<u64>::empty());
    let end = played(s.after_request(Value::Text("lock"@), now).0, t);
    assert(end.1 =~= both_claimed(true) + both_released());
}

/// Unlocking flashes twice, with a dark gap between the flashes.
pub proof fn law_unlock_pattern(s: FeedbackState, now: u64)
    requires
        now <= u64::MAX - 1500,
    ensures
        ({
            let end = played(
                s.after_request(Value::Text("unlock"@), now).0,
                seq![
                    (now + 100) as u64,
                    (now + 600) as u64,
                    (now + 900) as u64,
                    (now + 1000) as u64,
                    (now + 1500) as u64,
                ],
            );
            end.0.flash is None && end.1 == both_claimed(true) + both_claimed(false) + both_claimed(
                false,
            ) + both_claimed(true) + both_released()
        }),
{
    let t = seq![
        (now + 100) as u64,
        (now + 600) as u64,
        (now + 900) as u64,
        (now + 1000) as u64,
        (now + 1500) as u64,
    ];
    reveal_strlit("lock");
    reveal_strlit("unlock");
    assert("lock"@.len() != "unlock"@.len());
    let s1 = s.after_request(Value::Text("unlock"@), now).0;
    let t1 = t.take(1);
    let t2 = t.take(2);
    let t3 = t.take(3);
    let t4 = t.take(4);
    assert(t1.drop_last() =~= Seq::<u64>::empty());
    assert(t2.drop_last() =~= t1);
    assert(t3.drop_last() =~= t2);
    assert(t4.drop_last() =~= t3);
    assert(t.drop_last() =~= t4);
    assert(played(s1, t1.drop_last()) == (s1, Seq::<Effect>::empty()));
    assert(played(s1, t1).1 =~= both_claimed(true));
    assert(played(s1, t2).1 =~= both_claimed(true) + both_claimed(false));
    assert(played(s1, t3).1 =~= both_claimed(true) + both_claimed(false) + both_claimed(false));
    assert(played(s1, t4).1 =~= both_claimed(true) + both_claimed(false) + both_claimed(false)
        + both_claimed(true));
    assert(played(s1, t).1 =~= both_claimed(true) + both_claimed(false) + both_claimed(false)
        + both_claimed(true) + both_released());
}

/// A new request takes the place of the pattern that plays: the indicators are
/// given back, and the new pattern begins as if nothing had played.
pub proof fn law_new_request_preempts(s: FeedbackState, v: Value, now: u64)
    requires
        kind_of(v) is Some,
    ensures
        s.after_request(v, now) == (FeedbackState { flash: None, ..s }).after_request(v, now),
        s.after_request(v, now).1 == both_released() + both_claimed(false),
{
}

/// A request that is not known is ignored, "lock_denied" among them.
pub proof fn law_unknown_request_is_ignored(s: FeedbackState, v: Value, now: u64)
    requires
        kind_of(v) is None,
    ensures
        s.after_request(v, now) == (s, Seq::<Effect>::empty()),
        kind_of(Value::Text("lock_denied"@)) is None,
{
    reveal_strlit("lock");
    reveal_strlit("unlock");
    reveal_strlit("trunk_unlock");
    reveal_strlit("lock_denied");
    assert("lock_denied"@.len() == 11 && "lock"@.len() == 4 && "unlock"@.len() == 6
        && "trunk_unlock"@.len() == 12);
}

/// Closing the trunk is confirmed once, and only after it was opened from
/// outside: as locked if every door is, as unlocked otherwise.
pub proof fn law_trunk_close_feedback(s: FeedbackState, now: u64)
    ensures
        !s.trunk_opened ==> s.after_trunk(Value::Bool(false), now) == (s, Seq::<Effect>::empty()),
        s.trunk_opened ==> {
            let next = s.after_trunk(Value::Bool(false), now).0;
            &&& !next.trunk_opened
            &&& next.flash is Some
            &&& next.flash->0.again == !doors::every(s.locked)
        },
        s.after_request(Value::Text("trunk_unlock"@), now).0.trunk_opened,
{
    reveal_strlit("lock");
    reveal_strlit("unlock");
    reveal_strlit("trunk_unlock");
    assert("lock"@.len() == 4 && "unlock"@.len() == 6 && "trunk_unlock"@.len() == 12);
}

} // verus!
