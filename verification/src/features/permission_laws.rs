//! Every feature asks only for what the arbiters let it have.

use vstd::prelude::*;

use crate::arbiter::domain::Permission;
use crate::arbiter::door_lock;
use crate::arbiter::tables;
use crate::config::PlatformConfig;
use crate::features::auto_high_beam::AutoHighBeam;
use crate::features::auto_relock::{RelockEvent, RelockState};
use crate::features::cabin_trunk_release::CabinTrunkRelease;
use crate::features::dome_switch::DomeState;
use crate::features::door_open_assist::AssistState;
use crate::features::door_trim_button::{SideLabel, TrimState};
use crate::features::double_lock_release::DoubleLockRelease;
use crate::features::exterior_trunk_button;
use crate::features::farewell::{Farewell, FarewellEvent};
use crate::features::follow_me_home::{FollowMeHome, HomeEvent};
use crate::features::hazard_lighting::HazardLighting;
use crate::features::key_search::KeyFinding;
use crate::features::keypad_lock;
use crate::features::lock_feedback::FeedbackState;
use crate::features::manual_horn::ManualHorn;
use crate::features::nfc_entry::{NfcKind, NfcState, TapEffect};
use crate::features::panic_alarm::{PanicAlarm, PanicEvent};
use crate::features::passive_entry;
use crate::ipc_message::{FeatureId, Value};
use crate::signal_bus::{Demand, Domain, Effect, LockCommand};

verus! {

/// Who may claim what in a domain.
pub open spec fn table_of(domain: Domain) -> Seq<Permission> {
    match domain {
        Domain::Lighting => tables::lighting_table(),
        Domain::LowBeam => tables::low_beam_table(),
        Domain::Horn => tables::horn_table(),
        Domain::Comfort => Seq::empty(),
        Domain::Courtesy => tables::courtesy_table(),
        Domain::Puddle => tables::puddle_table(),
        Domain::Trunk => tables::trunk_table(),
    }
}

/// The arbiter that the effect goes to lets the feature have it.
pub open spec fn permitted(e: Effect) -> bool {
    match e {
        Effect::Claim { domain, request } => table_of(domain).contains(
            (request.feature_id, request.signal, request.priority),
        ),
        Effect::Lock { order } => door_lock::door_lock_table().contains(order.feature_id),
        _ => true,
    }
}

/// Every effect is permitted.
pub open spec fn all_permitted(effects: Seq<Effect>) -> bool {
    forall|i: int| 0 <= i < effects.len() ==> permitted(#[trigger] effects[i])
}

proof fn lemma_row(domain: Domain, k: int, value: Value)
    requires
        0 <= k < table_of(domain).len(),
    ensures
        permitted(
            Effect::Claim {
                domain,
                request: Demand {
                    signal: table_of(domain)[k].1,
                    value,
                    priority: table_of(domain)[k].2,
                    feature_id: table_of(domain)[k].0,
                },
            },
        ),
{
    let row = table_of(domain)[k];
    assert(table_of(domain).contains((row.0, row.1, row.2)));
}

proof fn lemma_requestor(k: int, command: LockCommand)
    requires
        0 <= k < door_lock::door_lock_table().len(),
    ensures
        permitted(Effect::lock(command, door_lock::door_lock_table()[k])),
{
}

/// Hazard lighting, lock feedback, and the panic alarm claim indicators and horn
/// as the tables let them. So does the manual horn.
pub proof fn law_signaling_is_permitted(
    v: Value,
    feedback: FeedbackState,
    panic: PanicAlarm,
    event: PanicEvent,
    horn: ManualHorn,
    now: u64,
)
    ensures
        all_permitted(HazardLighting::effects(v)),
        all_permitted(feedback.after_request(v, now).1),
        all_permitted(feedback.after_trunk(v, now).1),
        all_permitted(feedback.after_tick(now).1),
        all_permitted(panic.after(event).1),
        all_permitted(horn.after(v).1),
{
    lemma_row(Domain::Lighting, 0, Value::Bool(true));
    lemma_row(Domain::Lighting, 1, Value::Bool(true));
    lemma_row(Domain::Lighting, 4, Value::Bool(true));
    lemma_row(Domain::Lighting, 5, Value::Bool(true));
    lemma_row(Domain::Lighting, 4, Value::Bool(false));
    lemma_row(Domain::Lighting, 5, Value::Bool(false));
    lemma_row(Domain::Lighting, 6, Value::Bool(true));
    lemma_row(Domain::Lighting, 7, Value::Bool(true));
    lemma_row(Domain::Lighting, 6, Value::Bool(false));
    lemma_row(Domain::Lighting, 7, Value::Bool(false));
    lemma_row(Domain::Horn, 0, Value::Bool(true));
    lemma_row(Domain::Horn, 0, Value::Bool(false));
    lemma_row(Domain::Horn, 1, Value::Bool(true));
}

/// Follow-me-home and auto high beam claim the beams as the table lets them.
pub proof fn law_beams_are_permitted(home: FollowMeHome, event: HomeEvent, beam: AutoHighBeam, v: Value)
    ensures
        all_permitted(home.after(event).1),
        all_permitted(beam.after(v).1),
{
    lemma_row(Domain::LowBeam, 5, Value::Bool(true));
    lemma_row(Domain::LowBeam, 6, Value::Bool(true));
    lemma_row(Domain::LowBeam, 7, Value::Bool(true));
    lemma_row(Domain::LowBeam, 8, Value::Bool(false));
}

/// Farewell, the dome switch, and door-open assist claim courtesy and puddle lamps
/// as the tables let them.
pub proof fn law_courtesy_is_permitted(
    farewell: Farewell,
    event: FarewellEvent,
    dome: DomeState,
    assist: AssistState,
    known: bool,
    i: int,
    v: Value,
)
    ensures
        all_permitted(farewell.after(event).1),
        all_permitted(dome.booted(known).1),
        all_permitted(dome.after_switch(v).1),
        all_permitted(dome.after_door(i, v).1),
        all_permitted(assist.after_lux(v).1),
        all_permitted(assist.after_door(i, v).1),
{
    lemma_row(Domain::Puddle, 2, Value::Bool(true));
    lemma_row(Domain::Puddle, 3, Value::Bool(true));
    lemma_row(Domain::Courtesy, 1, Value::Bool(true));
    lemma_row(Domain::Courtesy, 2, Value::Bool(true));
    lemma_row(Domain::Courtesy, 2, Value::Bool(false));
    lemma_row(Domain::Puddle, 4, Value::Bool(true));
    lemma_row(Domain::Puddle, 5, Value::Bool(true));
}

/// Each way to open the trunk is one that the table lets through.
pub proof fn law_trunk_is_permitted(cabin: CabinTrunkRelease, v: Value)
    ensures
        all_permitted(passive_entry::trunk_effects()),
        all_permitted(exterior_trunk_button::open_effects()),
        all_permitted(cabin.after(v).1),
{
    lemma_row(Domain::Trunk, 0, Value::Bool(true));
    lemma_row(Domain::Trunk, 1, Value::Bool(true));
    lemma_row(Domain::Trunk, 2, Value::Bool(true));
}

/// Every feature that asks for locking or unlocking is an authorized requestor.
pub proof fn law_lock_requests_are_authorized(
    relock: RelockState,
    event: RelockEvent,
    keys: Option<Seq<KeyFinding>>,
    release: DoubleLockRelease,
    v: Value,
    command: LockCommand,
)
    ensures
        all_permitted(relock.after(event).1),
        all_permitted(keypad_lock::verdict(keys)),
        all_permitted(release.after(v).1),
        permitted(Effect::lock(command, FeatureId::PassiveEntry)),
{
    lemma_requestor(8, LockCommand::LockAll);
    lemma_requestor(12, LockCommand::ReleaseDouble);
    lemma_requestor(13, command);
    lemma_requestor(14, LockCommand::LockAll);
}

/// So are the door-trim buttons, also when they act as slam lock, and NFC cards
/// and phones.
pub proof fn law_lock_orders_are_authorized(
    trim: TrimState,
    side: SideLabel,
    config: PlatformConfig,
    nfc: NfcState,
    kind: NfcKind,
    i: int,
    v: Value,
    now: u64,
)
    ensures
        trim.after_lock(side, v, config).1 matches Some(order) ==> permitted(
            Effect::Lock { order },
        ),
        trim.after_unlock(side, v, config).1 matches Some(order) ==> permitted(
            Effect::Lock { order },
        ),
        nfc.after_tap(kind, i, v, now).1 matches TapEffect::Unlock(order) ==> permitted(
            Effect::Lock { order },
        ),
{
    lemma_requestor(2, LockCommand::LockAll);
    lemma_requestor(15, LockCommand::LockAll);
    lemma_requestor(6, LockCommand::UnlockAll);
    lemma_requestor(7, LockCommand::UnlockAll);
}

} // verus!
