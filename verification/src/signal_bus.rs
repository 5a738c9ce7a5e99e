//! Signal paths and the effects that a feature asks the bus layer to perform.

use vstd::prelude::*;

use crate::ipc_message::{FeatureId, Priority, SignalValue, Value};

verus! {

/// Path of a signal in the vehicle signal catalogue.
pub type VssPath = &'static str;

/// Trusted: `<str as PartialEq>::eq` of the standard library. The claim is that
/// two string slices compare equal exactly when they hold the same characters.
pub assume_specification[ <str as PartialEq<str>>::eq ](a: &str, b: &str) -> (r: bool)
    ensures
        r == (a@ == b@),
;

/// True iff the two slices hold the same characters.
pub fn same_text(a: &str, b: &str) -> (r: bool)
    ensures
        r == (a@ == b@),
{
    a.eq(b)
}

/// Actuator domain, each with an arbiter of its own.
#[derive(Debug, Clone, Copy, PartialEq, Eq, Structural)]
pub enum Domain {
    Lighting,
    LowBeam,
    Horn,
    Comfort,
    Courtesy,
    Puddle,
    Trunk,
}

/// A request from a feature module to control an actuator signal.
#[derive(Debug)]
pub struct ActuatorRequest {
    pub signal: VssPath,
    pub value: SignalValue,
    pub priority: Priority,
    pub feature_id: FeatureId,
}

/// What an [`ActuatorRequest`] asks for.
pub struct Demand {
    pub signal: Seq<char>,
    pub value: Value,
    pub priority: Priority,
    pub feature_id: FeatureId,
}

impl View for ActuatorRequest {
    type V = Demand;

    open spec fn view(&self) -> Demand {
        Demand {
            signal: self.signal@,
            value: self.value@,
            priority: self.priority,
            feature_id: self.feature_id,
        }
    }
}

impl Clone for ActuatorRequest {
    fn clone(&self) -> (r: Self)
        ensures
            r@ == self@,
    {
        ActuatorRequest {
            signal: self.signal,
            value: self.value.clone(),
            priority: self.priority,
            feature_id: self.feature_id,
        }
    }
}

/// Lock command type: what a feature asks of the central lock.
#[derive(Debug, Clone, Copy, PartialEq, Eq, Structural)]
pub enum LockCommand {
    /// Unlock the driver door only (two-stage unlock, stage 1).
    UnlockDriver,
    /// Unlock all doors (normal unlock, or stage 2 of a two-stage unlock).
    UnlockAll,
    /// Lock all doors.
    LockAll,
    /// Superlock (double-lock) all doors.
    DoubleLockAll,
    /// Clear double-lock on all doors and leave them locked.
    ReleaseDouble,
}

/// A door-lock request submitted by a feature module.
#[derive(Debug, Clone, Copy, PartialEq, Eq, Structural)]
pub struct DoorLockRequest {
    pub command: LockCommand,
    pub feature_id: FeatureId,
}

/// One effect that a feature asks for. Effects are performed in order.
#[derive(Debug)]
pub enum Output {
    /// Publish a value on the bus.
    Publish { signal: VssPath, value: SignalValue },
    /// Submit a claim to the arbiter of a domain.
    Claim { domain: Domain, request: ActuatorRequest },
    /// Withdraw a claim from the arbiter of a domain.
    Release { domain: Domain, signal: VssPath, feature_id: FeatureId },
    /// Submit a request to the door-lock arbiter.
    Lock { order: DoorLockRequest },
}

/// What an [`Output`] asks for.
pub enum Effect {
    Publish { signal: Seq<char>, value: Value },
    Claim { domain: Domain, request: Demand },
    Release { domain: Domain, signal: Seq<char>, feature_id: FeatureId },
    Lock { order: DoorLockRequest },
}

impl View for Output {
    type V = Effect;

    open spec fn view(&self) -> Effect {
        match self {
            Output::Publish { signal, value } => Effect::Publish {
                signal: signal@,
                value: value@,
            },
            Output::Claim { domain, request } => Effect::Claim {
                domain: *domain,
                request: request@,
            },
            Output::Release { domain, signal, feature_id } => Effect::Release {
                domain: *domain,
                signal: signal@,
                feature_id: *feature_id,
            },
            Output::Lock { order } => Effect::Lock { order: *order },
        }
    }
}

impl Effect {
    /// The effects that a list of outputs asks for, in order.
    pub open spec fn all(outputs: Seq<Output>) -> Seq<Effect> {
        outputs.map_values(|o: Output| o@)
    }

    /// Publishing `value` on `signal`.
    pub open spec fn publish(signal: &str, value: Value) -> Effect {
        Effect::Publish { signal: signal@, value }
    }

    /// Claiming `signal` in `domain`.
    pub open spec fn claim(
        domain: Domain,
        signal: &str,
        value: Value,
        priority: Priority,
        feature_id: FeatureId,
    ) -> Effect {
        Effect::Claim {
            domain,
            request: Demand { signal: signal@, value, priority, feature_id },
        }
    }

    /// Withdrawing the claim of `feature_id` on `signal` in `domain`.
    pub open spec fn release(domain: Domain, signal: &str, feature_id: FeatureId) -> Effect {
        Effect::Release { domain, signal: signal@, feature_id }
    }

    /// Submitting a lock request.
    pub open spec fn lock(command: LockCommand, feature_id: FeatureId) -> Effect {
        Effect::Lock { order: DoorLockRequest { command, feature_id } }
    }
}

/// No output.
pub fn no_outputs() -> (r: Vec<Output>)
    ensures
        Effect::all(r@) == Seq::<Effect>::empty(),
{
    let r: Vec<Output> = Vec::new();
    assert(Effect::all(r@) =~= Seq::<Effect>::empty());
    r
}

/// Output that publishes a flag.
pub fn publish_bool(signal: VssPath, on: bool) -> (r: Output)
    ensures
        r@ == Effect::publish(signal, Value::Bool(on)),
{
    Output::Publish { signal, value: SignalValue::Bool(on) }
}

/// Output that publishes a text.
pub fn publish_text(signal: VssPath, text: &str) -> (r: Output)
    ensures
        r@ == Effect::publish(signal, Value::Text(text@)),
{
    Output::Publish { signal, value: SignalValue::String(text.to_owned()) }
}

/// Output that claims a signal with a flag.
pub fn claim_bool(
    domain: Domain,
    signal: VssPath,
    on: bool,
    priority: Priority,
    feature_id: FeatureId,
) -> (r: Output)
    ensures
        r@ == Effect::claim(domain, signal, Value::Bool(on), priority, feature_id),
{
    Output::Claim {
        domain,
        request: ActuatorRequest { signal, value: SignalValue::Bool(on), priority, feature_id },
    }
}

/// Output that withdraws a claim.
pub fn release_claim(domain: Domain, signal: VssPath, feature_id: FeatureId) -> (r: Output)
    ensures
        r@ == Effect::release(domain, signal, feature_id),
{
    Output::Release { domain, signal, feature_id }
}

/// Output that submits a lock request.
pub fn lock_request(command: LockCommand, feature_id: FeatureId) -> (r: Output)
    ensures
        r@ == Effect::lock(command, feature_id),
{
    Output::Lock { order: DoorLockRequest { command, feature_id } }
}

} // verus!
