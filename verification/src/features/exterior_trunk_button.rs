//! Exterior trunk button: opens the trunk from the button above the licence plate.
//!
//! Each press counts once, however long the button is held. An unlocked vehicle
//! opens at once, a locked one only if a search finds a paired key at the trunk.
//! Valet mode denies every press.

use vstd::prelude::*;

use crate::arbiter::door_lock::{
    CABIN_LOCK_STATUS, FEEDBACK_REQUEST, LOCK_LAST_REQUESTOR, STATUS_DRIVER_UNLOCKED,
    STATUS_LOCKED, STATUS_UNLOCKED,
};
use crate::arbiter::tables::TRUNK_OPEN_CMD;
use crate::features::key_search;
use crate::features::key_search::{
    AntennaSet, Antennas, Coalescing, KeyFinding, KeySearchResult, SearchMode, NUM_KEY_SLOTS,
};
use crate::features::key_search_laws;
use crate::ipc_message::{FeatureId, Priority, SignalValue, Value};
use crate::signal_bus::{
    claim_bool, no_outputs, publish_text, release_claim, same_text, Domain, Effect, Output, VssPath,
};
use crate::zone::Zone;

verus! {

/// The button.
pub const BUTTON: VssPath = "Body.Trunk.ExteriorButton.IsPressed";

/// State of the feature.
#[verifier::ext_equal]
pub struct ButtonState {
    /// The cabin lock status seen last.
    pub status: Seq<char>,
    /// Valet mode is active.
    pub valet: bool,
    /// The button is pressed.
    pub pressed: bool,
}

/// What a press leads to.
#[derive(Debug)]
pub enum Press {
    /// Nothing: no press, or denied.
    Ignored,
    /// The trunk opens.
    Open(Vec<Output>),
    /// A search has to be made first.
    Search,
}

/// What a press leads to, by its effects.
pub enum PressEffect {
    Ignored,
    Open(Seq<Effect>),
    Search,
}

impl View for Press {
    type V = PressEffect;

    open spec fn view(&self) -> PressEffect {
        match self {
            Press::Ignored => PressEffect::Ignored,
            Press::Open(outputs) => PressEffect::Open(Effect::all(outputs@)),
            Press::Search => PressEffect::Search,
        }
    }
}

/// The effects of opening the trunk.
pub open spec fn open_effects() -> Seq<Effect> {
    seq![
        Effect::claim(
            Domain::Trunk,
            TRUNK_OPEN_CMD,
            Value::Bool(true),
            Priority::Medium,
            FeatureId::ExteriorTrunkButton,
        ),
        Effect::release(Domain::Trunk, TRUNK_OPEN_CMD, FeatureId::ExteriorTrunkButton),
        Effect::publish(FEEDBACK_REQUEST, Value::Text("trunk_unlock"@)),
    ]
}

/// The effects that follow the search. No result counts as no key.
pub open spec fn search_effects(keys: Option<Seq<KeyFinding>>) -> Seq<Effect> {
    if keys is Some && keys->0.len() > 0 {
        open_effects()
    } else {
        Seq::empty()
    }
}

impl ButtonState {
    /// The state at start-up.
    pub open spec fn initial() -> ButtonState {
        ButtonState { status: STATUS_LOCKED@, valet: false, pressed: false }
    }

    /// The vehicle counts as unlocked. A status that is not known counts as locked.
    pub open spec fn unlocked(self) -> bool {
        self.status == STATUS_UNLOCKED@ || self.status == STATUS_DRIVER_UNLOCKED@
    }

    /// The state after a value of the cabin lock status. Only texts count.
    pub open spec fn after_status(self, v: Value) -> ButtonState {
        match v {
            Value::Text(s) => ButtonState { status: s, ..self },
            _ => self,
        }
    }

    /// The state after a value of valet mode. Only flags count.
    pub open spec fn after_valet(self, v: Value) -> ButtonState {
        match v.flag() {
            Some(b) => ButtonState { valet: b, ..self },
            None => self,
        }
    }

    /// What a press of the button leads to.
    pub open spec fn press(self) -> PressEffect {
        if self.valet {
            PressEffect::Ignored
        } else if self.unlocked() {
            PressEffect::Open(open_effects())
        } else {
            PressEffect::Search
        }
    }

    /// The state after a value of the button, and what it leads to. Only a change
    /// to `true` is a press.
    pub open spec fn after(self, v: Value) -> (ButtonState, PressEffect) {
        (
            ButtonState { pressed: v == Value::Bool(true), ..self },
            if v == Value::Bool(true) && !self.pressed {
                self.press()
            } else {
                PressEffect::Ignored
            },
        )
    }
}

/// The exterior-trunk-button feature.
pub struct ExteriorTrunkButton {
    lock_status: String,
    valet_active: bool,
    pressed: bool,
}

impl View for ExteriorTrunkButton {
    type V = ButtonState;

    closed spec fn view(&self) -> ButtonState {
        ButtonState {
            status: self.lock_status@,
            valet: self.valet_active,
            pressed: self.pressed,
        }
    }
}

impl ExteriorTrunkButton {
    /// The feature in a locked vehicle, not in valet mode, with the button released.
    pub fn new() -> (r: ExteriorTrunkButton)
        ensures
            r@ == ButtonState::initial(),
    {
        ExteriorTrunkButton {
            lock_status: STATUS_LOCKED.to_owned(),
            valet_active: false,
            pressed: false,
        }
    }

    /// Takes a value of the cabin lock status.
    pub fn on_lock_status(&mut self, val: &SignalValue)
        ensures
            final(self)@ == old(self)@.after_status(val@),
    {
        if let SignalValue::String(s) = val {
            self.lock_status = s.clone();
        }
    }

    /// Takes a value of valet mode.
    pub fn on_valet(&mut self, val: &SignalValue)
        ensures
            final(self)@ == old(self)@.after_valet(val@),
    {
        if let Some(b) = val.as_bool() {
            self.valet_active = b;
        }
    }

    fn pulse_trunk_open() -> (r: Vec<Output>)
        ensures
            Effect::all(r@) == open_effects(),
    {
        let r = vec![
            claim_bool(
                Domain::Trunk,
                TRUNK_OPEN_CMD,
                true,
                Priority::Medium,
                FeatureId::ExteriorTrunkButton,
            ),
            release_claim(Domain::Trunk, TRUNK_OPEN_CMD, FeatureId::ExteriorTrunkButton),
            publish_text(FEEDBACK_REQUEST, "trunk_unlock"),
        ];
        assert(Effect::all(r@) =~= open_effects());
        r
    }

    /// Takes a value of the button.
    pub fn on_press(&mut self, val: &SignalValue) -> (r: Press)
        ensures
            (final(self)@, r@) == old(self)@.after(val@),
    {
        let now = val.is_true();
        let rising = now && !self.pressed;
        self.pressed = now;
        if !rising || self.valet_active {
            return Press::Ignored;
        }
        let status = self.lock_status.as_str();
        if same_text(status, STATUS_UNLOCKED) || same_text(status, STATUS_DRIVER_UNLOCKED) {
            Press::Open(ExteriorTrunkButton::pulse_trunk_open())
        } else {
            Press::Search
        }
    }

    /// The search to be made: antennas, mode, and whether a shared result will do.
    pub fn search() -> (r: (AntennaSet, SearchMode, Coalescing))
        ensures
            r.0@ == Antennas::TrunkOutside,
            r.1 == SearchMode::Authenticated,
            r.2 == Coalescing::Disallowed,
    {
        (AntennaSet::TrunkOutside, SearchMode::Authenticated, Coalescing::Disallowed)
    }

    /// Takes the result of the search. No result counts as no key.
    pub fn on_search(result: Option<&KeySearchResult>) -> (r: Vec<Output>)
        ensures
            Effect::all(r@) == search_effects(
                match result {
                    Some(found) => Some(found@.keys_found),
                    None => None,
                },
            ),
    {
        let any_found = match result {
            Some(found) => found.keys_found.len() > 0,
            None => false,
        };
        if any_found {
            ExteriorTrunkButton::pulse_trunk_open()
        } else {
            no_outputs()
        }
    }
}

/// Valet mode denies every press, whatever the lock status.
pub proof fn law_valet_denies(s: ButtonState, v: Value)
    requires
        s.valet,
    ensures
        s.after(v).1 == PressEffect::Ignored,
{
}

/// A press counts once: holding the button does nothing more, and neither does
/// letting it go.
pub proof fn law_one_press_counts_once(s: ButtonState, v: Value)
    ensures
        s.pressed || v != Value::Bool(true) ==> s.after(v).1 == PressEffect::Ignored,
        s.after(v).0.after(v).1 == PressEffect::Ignored,
        !s.pressed ==> s.after(Value::Bool(true)).1 == s.press(),
{
}

/// A vehicle that is not unlocked opens only if a paired key is placed at the
/// trunk, and does open then.
pub proof fn law_locked_open_needs_key_at_trunk(
    placed: Seq<Option<Zone>>,
    paired: Seq<Option<bool>>,
)
    ensures
        ({
            let keys = key_search::scan(
                Antennas::TrunkOutside,
                SearchMode::Authenticated,
                placed,
                paired,
            );
            search_effects(Some(keys)) == open_effects() <==> exists|slot: int|
                0 <= slot < NUM_KEY_SLOTS && #[trigger] placed[slot] == Some(Zone::Trunk)
                    && paired[slot] != Some(false)
        }),
{
    let a = Antennas::TrunkOutside;
    let mode = SearchMode::Authenticated;
    let keys = key_search::scan(a, mode, placed, paired);
    assert(open_effects().len() != Seq::<Effect>::empty().len());
    assert(a.coverage()[0] == Zone::Trunk);
    if keys.len() > 0 {
        let slot = keys[0].slot as int;
        assert(key_search_laws::sees(keys, slot, keys[0].zone));
        key_search_laws::law_set_sees_placed_keys(a, mode, placed, paired, slot, keys[0].zone);
        assert(placed[slot] == Some(Zone::Trunk) && paired[slot] != Some(false));
    }
    if exists|slot: int|
        0 <= slot < NUM_KEY_SLOTS && #[trigger] placed[slot] == Some(Zone::Trunk) && paired[slot]
            != Some(false) {
        let slot = choose|slot: int|
            0 <= slot < NUM_KEY_SLOTS && #[trigger] placed[slot] == Some(Zone::Trunk)
                && paired[slot] != Some(false);
        key_search_laws::law_set_sees_placed_keys(a, mode, placed, paired, slot, Zone::Trunk);
        assert(key_search_laws::sees(keys, slot, Zone::Trunk));
    }
}

/// Opening the trunk asks nothing of the central lock, and publishes neither a
/// lock status nor a requestor of one.
pub proof fn law_trunk_leaves_lock_alone()
    ensures
        forall|i: int|
            0 <= i < open_effects().len() ==> (#[trigger] open_effects()[i]) !is Lock && (open_effects()[i] matches Effect::Publish {
                signal,
                ..
            } ==> signal != CABIN_LOCK_STATUS@ && signal != LOCK_LAST_REQUESTOR@),
{
    reveal_strlit("Body.Doors.CentralLock.FeedbackRequest");
    reveal_strlit("Cabin.LockStatus");
    reveal_strlit("Cabin.LockStatus.LastRequestor");
    assert(FEEDBACK_REQUEST@[0] == 'B' && CABIN_LOCK_STATUS@[0] == 'C' && LOCK_LAST_REQUESTOR@[0]
        == 'C');
}

} // verus!
