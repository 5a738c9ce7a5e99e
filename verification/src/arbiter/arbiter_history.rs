//! What a domain arbiter makes of its history.

use vstd::prelude::*;

use crate::arbiter::domain;
use crate::arbiter::domain::{ArbiterState, Permission, PhysicalGate};
use crate::arbiter::domain_laws;
use crate::history;
use crate::ipc_message::{FeatureId, Priority, SignalValue, Value};
use crate::signal_bus::Demand;

verus! {

/// Something that happens to a domain arbiter.
pub enum ArbiterEvent {
    Request(Demand),
    Release(Seq<char>, FeatureId),
    Gate(Seq<char>, bool),
}

/// The state after one event, once what has to be published has reached the bus.
pub open spec fn step(s: ArbiterState, event: ArbiterEvent) -> ArbiterState {
    let (t, out) = match event {
        ArbiterEvent::Request(demand) => s.requested(demand),
        ArbiterEvent::Release(signal, feature) => s.withdrawn(signal, feature),
        ArbiterEvent::Gate(target, closed) => s.gate_reported(target, closed),
    };
    match out {
        Some((signal, value)) => t.shown(signal, value),
        None => t,
    }
}

/// The state after a run of events from start-up.
pub open spec fn run(table: Seq<Permission>, events: Seq<ArbiterEvent>) -> ArbiterState
    decreases events.len(),
{
    if events.len() == 0 {
        domain::initial(table)
    } else {
        step(run(table, events.drop_last()), events.last())
    }
}

/// Reads off an event what becomes of the claim of a feature on a signal. Requests
/// outside the allow-list say nothing.
pub open spec fn claim_seen(
    table: Seq<Permission>,
    on: Seq<char>,
    by: FeatureId,
) -> spec_fn(ArbiterEvent) -> Option<Option<(Value, Priority)>> {
    |e: ArbiterEvent|
        match e {
            ArbiterEvent::Request(d) => if d.signal == on && d.feature_id == by
                && table.contains((by, on, d.priority)) {
                Some(Some((d.value, d.priority)))
            } else {
                None
            },
            ArbiterEvent::Release(signal, feature) => if signal == on && feature == by {
                Some(None)
            } else {
                None
            },
            ArbiterEvent::Gate(_, _) => None,
        }
}

/// Reads off an event whether a signal is gated.
pub open spec fn gate_seen(on: Seq<char>) -> spec_fn(ArbiterEvent) -> Option<bool> {
    |e: ArbiterEvent|
        match e {
            ArbiterEvent::Gate(target, closed) => if target == on {
                Some(closed)
            } else {
                None
            },
            _ => None,
        }
}

/// The claim of a feature on a signal, by its value and priority.
pub open spec fn held(s: ArbiterState, signal: Seq<char>, f: FeatureId) -> Option<
    (Value, Priority),
> {
    if s.has_claim(signal, f) {
        Some((s.claims[(signal, f)].value, s.claims[(signal, f)].priority))
    } else {
        None
    }
}

/// Over every run a feature holds on a signal what it was last permitted to claim
/// there, with that value and priority, unless it has released it since. A signal
/// is gated as reported last. The allow-list stays.
pub proof fn law_claims_are_the_latest(
    table: Seq<Permission>,
    events: Seq<ArbiterEvent>,
    signal: Seq<char>,
    f: FeatureId,
)
    ensures
        held(run(table, events), signal, f) == history::latest_or(
            events,
            claim_seen(table, signal, f),
            None,
        ),
        run(table, events).closed.contains(signal) == history::latest_or(
            events,
            gate_seen(signal),
            false,
        ),
        run(table, events).allowed == table.to_set(),
    decreases events.len(),
{
    if events.len() > 0 {
        law_claims_are_the_latest(table, events.drop_last(), signal, f);
    }
}

/// The claim of a feature that stands on a signal after a history, by value and
/// priority.
pub open spec fn due_claim(
    table: Seq<Permission>,
    events: Seq<ArbiterEvent>,
    signal: Seq<char>,
    f: FeatureId,
) -> Option<(Value, Priority)> {
    history::latest_or(events, claim_seen(table, signal, f), None)
}

/// The value of a claim. Off where there is none.
pub open spec fn value_of(claim: Option<(Value, Priority)>) -> Value {
    match claim {
        Some((value, _)) => value,
        None => Value::Bool(false),
    }
}

/// The priority of a claim. The lowest where there is none.
pub open spec fn priority_of(claim: Option<(Value, Priority)>) -> Priority {
    match claim {
        Some((_, priority)) => priority,
        None => Priority::Low,
    }
}

/// The first priority is at least as high as the second.
pub open spec fn at_least(a: Priority, b: Priority) -> bool {
    a is High || b is Low || a == b
}

proof fn lemma_run_valid(table: Seq<Permission>, events: Seq<ArbiterEvent>)
    ensures
        run(table, events).valid(),
    decreases events.len(),
{
    if events.len() > 0 {
        let s = run(table, events.drop_last());
        lemma_run_valid(table, events.drop_last());
        match events.last() {
            ArbiterEvent::Request(demand) => {
                domain::lemma_claimed_valid(s, demand);
            },
            ArbiterEvent::Release(signal, feature) => {
                domain::lemma_released_valid(s, signal, feature);
            },
            ArbiterEvent::Gate(_, _) => {},
        }
    } else {
        assert(domain::initial(table).claims.dom() =~= Set::empty());
    }
}

/// Over every run a signal resolves to off where it was reported gated last, or
/// where no feature holds a claim. Else it resolves to the value that some feature
/// claimed last, whose priority no other standing claim exceeds.
pub proof fn law_resolution_by_history(
    table: Seq<Permission>,
    events: Seq<ArbiterEvent>,
    signal: Seq<char>,
)
    ensures
        ({
            let value = run(table, events).resolved(signal);
            let none = forall|f: FeatureId| (#[trigger] due_claim(table, events, signal, f)) is None;
            if history::latest_or(events, gate_seen(signal), false) || none {
                value == Value::Bool(false)
            } else {
                exists|f: FeatureId|
                    {
                        &&& (#[trigger] due_claim(table, events, signal, f)) is Some
                        &&& value_of(due_claim(table, events, signal, f)) == value
                        &&& forall|g: FeatureId|
                            (#[trigger] due_claim(table, events, signal, g)) is Some ==> at_least(
                                priority_of(due_claim(table, events, signal, f)),
                                priority_of(due_claim(table, events, signal, g)),
                            )
                    }
            }
        }),
{
    let s = run(table, events);
    lemma_run_valid(table, events);
    assert forall|f: FeatureId| #[trigger] due_claim(table, events, signal, f) == held(
        s,
        signal,
        f,
    ) by {
        law_claims_are_the_latest(table, events, signal, f);
    }
    law_claims_are_the_latest(table, events, signal, FeatureId::Hazard);
    if forall|f: FeatureId| (#[trigger] due_claim(table, events, signal, f)) is None {
        assert forall|f: FeatureId| !s.has_claim(signal, f) by {
            assert(due_claim(table, events, signal, f) is None);
        }
        domain_laws::law_unclaimed_signal_is_off(s, signal);
    } else if !s.closed.contains(signal) {
        let c = choose|f: FeatureId| (#[trigger] due_claim(table, events, signal, f)) is Some;
        assert(s.has_claim(signal, c));
        domain_laws::law_claimed_signal_has_one_winner(s, signal, c);
        let w = choose|f: FeatureId| s.wins(signal, f);
        assert(due_claim(table, events, signal, w) is Some);
        assert forall|g: FeatureId|
            (#[trigger] due_claim(table, events, signal, g)) is Some implies at_least(
            priority_of(due_claim(table, events, signal, w)),
            priority_of(due_claim(table, events, signal, g)),
        ) by {
            assert(s.has_claim(signal, g));
        }
    }
}

/// Over every run the value that the bus shows for a signal is the one that the
/// signal resolves to, and a signal that the bus has not shown yet is off.
pub proof fn law_bus_follows_history(
    table: Seq<Permission>,
    events: Seq<ArbiterEvent>,
    signal: Seq<char>,
)
    ensures
        ({
            let s = run(table, events);
            if s.published.dom().contains(signal) {
                s.published[signal] == s.resolved(signal)
            } else {
                s.resolved(signal) == Value::Bool(false)
            }
        }),
    decreases events.len(),
{
    if events.len() > 0 {
        let s = run(table, events.drop_last());
        law_bus_follows_history(table, events.drop_last(), signal);
        lemma_step_resolves(s, events.last(), signal);
    } else {
        domain_laws::law_unclaimed_signal_is_off(domain::initial(table), signal);
    }
}

proof fn lemma_step_resolves(s: ArbiterState, event: ArbiterEvent, signal: Seq<char>)
    ensures
        ({
            let t = step(s, event);
            ||| t.published.dom().contains(signal) && t.published[signal] == t.resolved(signal)
            ||| t.published.dom().contains(signal) == s.published.dom().contains(signal)
                && t.published[signal] == s.published[signal] && t.resolved(signal) == s.resolved(
                signal,
            )
        }),
{
    let t = step(s, event);
    let (u, out) = match event {
        ArbiterEvent::Request(demand) => s.requested(demand),
        ArbiterEvent::Release(sig, feature) => s.withdrawn(sig, feature),
        ArbiterEvent::Gate(target, closed) => s.gate_reported(target, closed),
    };
    domain_laws::lemma_resolution_is_local(u, t, signal);
    let on = match event {
        ArbiterEvent::Request(demand) => demand.signal,
        ArbiterEvent::Release(sig, _) => sig,
        ArbiterEvent::Gate(target, _) => target,
    };
    if on != signal {
        domain_laws::lemma_resolution_is_local(s, u, signal);
    } else if out is None {
        if let ArbiterEvent::Gate(target, closed) = event {
            if s.closed.contains(target) == closed {
                domain_laws::lemma_resolution_is_local(s, u, signal);
            }
        }
    }
}

/// Of two standing claims of equal priority, the one made last wins: a permitted
/// request that no standing claim of another feature exceeds decides the signal at
/// once, unless it is gated.
pub proof fn law_latest_of_equals_wins(
    table: Seq<Permission>,
    events: Seq<ArbiterEvent>,
    demand: Demand,
)
    requires
        table.contains((demand.feature_id, demand.signal, demand.priority)),
        !history::latest_or(events, gate_seen(demand.signal), false),
        forall|g: FeatureId|
            g != demand.feature_id && (#[trigger] due_claim(table, events, demand.signal, g))
                is Some ==> at_least(
                demand.priority,
                priority_of(due_claim(table, events, demand.signal, g)),
            ),
    ensures
        step(run(table, events), ArbiterEvent::Request(demand)).published.dom().contains(
            demand.signal,
        ),
        step(run(table, events), ArbiterEvent::Request(demand)).published[demand.signal]
            == demand.value,
{
    let s = run(table, events);
    lemma_run_valid(table, events);
    law_claims_are_the_latest(table, events, demand.signal, demand.feature_id);
    assert(s.permits(demand));
    let u = s.claimed(demand);
    domain::lemma_claimed_valid(s, demand);
    assert forall|g: FeatureId| #[trigger] u.has_claim(demand.signal, g) && g
        != demand.feature_id implies u.claims[(demand.signal, demand.feature_id)].outranks(
        u.claims[(demand.signal, g)],
    ) by {
        law_claims_are_the_latest(table, events, demand.signal, g);
        assert(s.has_claim(demand.signal, g));
        assert(due_claim(table, events, demand.signal, g) is Some);
        assert(s.claims.dom().contains((demand.signal, g)));
    }
    assert(u.wins(demand.signal, demand.feature_id));
    domain::lemma_one_winner(u, demand.signal, demand.feature_id);
}

/// A physical gate is closed by the value that it names and by no other.
pub proof fn law_one_value_closes(gate: PhysicalGate, value: SignalValue, closed: bool)
    requires
        call_ensures(PhysicalGate::is_closed_by, (&gate, &value), closed),
    ensures
        closed <==> value@ == gate@.suppress_when,
{
}

} // verus!
