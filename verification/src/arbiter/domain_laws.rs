//! Laws of claim/release arbitration.

use vstd::prelude::*;

use crate::arbiter::domain;
use crate::arbiter::domain::ArbiterState;
use crate::ipc_message::{FeatureId, Value};
use crate::signal_bus::Demand;

verus! {

/// The claims that `s` holds on `signal`.
spec fn keys_on(s: ArbiterState, signal: Seq<char>) -> Set<(Seq<char>, FeatureId)> {
    s.claims.dom().filter(|k: (Seq<char>, FeatureId)| k.0 == signal)
}

proof fn lemma_best_of(s: ArbiterState, keys: Set<(Seq<char>, FeatureId)>) -> (best: (
    Seq<char>,
    FeatureId,
))
    requires
        s.valid(),
        keys.finite(),
        keys.len() > 0,
        keys.subset_of(s.claims.dom()),
    ensures
        keys.contains(best),
        forall|k: (Seq<char>, FeatureId)| #[trigger]
            keys.contains(k) && k != best ==> s.claims[best].outranks(s.claims[k]),
    decreases keys.len(),
{
    let pick = keys.choose();
    let rest = keys.remove(pick);
    if rest.len() == 0 {
        assert forall|k: (Seq<char>, FeatureId)| #[trigger] keys.contains(k) implies k == pick by {
            if k != pick {
                assert(rest.contains(k));
            }
        }
        pick
    } else {
        let best = lemma_best_of(s, rest);
        assert(s.claims.dom().contains(best));
        assert(s.claims.dom().contains(pick));
        assert(s.claims[best].seq != s.claims[pick].seq);
        if s.claims[best].outranks(s.claims[pick]) {
            assert forall|k: (Seq<char>, FeatureId)| #[trigger]
                keys.contains(k) && k != best implies s.claims[best].outranks(s.claims[k]) by {
                if k != pick {
                    assert(rest.contains(k));
                }
            }
            best
        } else {
            assert(s.claims[pick].outranks(s.claims[best]));
            assert forall|k: (Seq<char>, FeatureId)| #[trigger]
                keys.contains(k) && k != pick implies s.claims[pick].outranks(s.claims[k]) by {
                assert(rest.contains(k));
            }
            pick
        }
    }
}

/// A signal on which any claim is held has exactly one winner, and with its gate
/// open it takes the winner's value.
pub proof fn law_claimed_signal_has_one_winner(
    s: ArbiterState,
    signal: Seq<char>,
    claimant: FeatureId,
)
    requires
        s.valid(),
        s.has_claim(signal, claimant),
    ensures
        exists|f: FeatureId| s.wins(signal, f),
        forall|f: FeatureId, g: FeatureId|
            #[trigger] s.wins(signal, f) && #[trigger] s.wins(signal, g) ==> f == g,
        forall|f: FeatureId| #[trigger]
            s.wins(signal, f) && !s.closed.contains(signal) ==> s.resolved(signal) == s.claims[(
                signal,
                f,
            )].value,
{
    let keys = keys_on(s, signal);
    assert(keys.contains((signal, claimant)));
    s.claims.dom().lemma_len_filter(|k: (Seq<char>, FeatureId)| k.0 == signal);
    if keys.len() == 0 {
        assert(keys =~= Set::empty());
    }
    let best = lemma_best_of(s, keys);
    let w = best.1;
    assert(best == (signal, w));
    assert forall|other: FeatureId| #[trigger] s.has_claim(signal, other) && other != w implies s.claims[(signal, w)].outranks(s.claims[(signal, other)]) by {
        assert(keys.contains((signal, other)));
    }
    assert(s.wins(signal, w));
    assert forall|f: FeatureId| #[trigger] s.wins(signal, f) implies f == w by {
        domain::lemma_one_winner(s, signal, w);
    }
}

/// A signal on which no claim is held is off.
pub proof fn law_unclaimed_signal_is_off(s: ArbiterState, signal: Seq<char>)
    requires
        forall|f: FeatureId| !s.has_claim(signal, f),
    ensures
        s.resolved(signal) == Value::off(),
{
}

/// The resolved value depends only on the claims on the signal and on its gate.
pub proof fn lemma_resolution_is_local(s: ArbiterState, t: ArbiterState, signal: Seq<char>)
    requires
        s.closed.contains(signal) == t.closed.contains(signal),
        forall|f: FeatureId| #[trigger] s.has_claim(signal, f) == t.has_claim(signal, f),
        forall|f: FeatureId| #[trigger]
            s.has_claim(signal, f) ==> s.claims[(signal, f)] == t.claims[(signal, f)],
    ensures
        s.resolved(signal) == t.resolved(signal),
{
    assert forall|f: FeatureId| #[trigger] s.wins(signal, f) implies t.wins(signal, f) by {
        assert(s.has_claim(signal, f));
        assert forall|o: FeatureId| #[trigger] t.has_claim(signal, o) && o != f implies t.claims[(signal, f)].outranks(t.claims[(signal, o)]) by {
            assert(s.has_claim(signal, o));
        }
    }
    assert forall|f: FeatureId| #[trigger] t.wins(signal, f) implies s.wins(signal, f) by {
        assert(t.has_claim(signal, f));
        assert(s.has_claim(signal, f));
        assert forall|o: FeatureId| #[trigger] s.has_claim(signal, o) && o != f implies s.claims[(signal, f)].outranks(s.claims[(signal, o)]) by {
            assert(t.has_claim(signal, o));
        }
    }
    if exists|f: FeatureId| s.wins(signal, f) {
        let f = choose|f: FeatureId| s.wins(signal, f);
        assert(t.wins(signal, f));
        domain::lemma_one_winner(t, signal, f);
        assert(s.has_claim(signal, f));
    }
}

/// A claim whose priority no other claim on the signal exceeds takes over, also
/// where another claim has the same priority: the latest wins a tie.
pub proof fn law_top_priority_takes_over(s: ArbiterState, demand: Demand)
    requires
        s.valid(),
        !s.closed.contains(demand.signal),
        forall|f: FeatureId| #[trigger]
            s.has_claim(demand.signal, f) && f != demand.feature_id ==> s.claims[(
                demand.signal,
                f,
            )].priority.rank() <= demand.priority.rank(),
    ensures
        s.claimed(demand).resolved(demand.signal) == demand.value,
{
    let t = s.claimed(demand);
    let signal = demand.signal;
    let f = demand.feature_id;
    assert forall|o: FeatureId| #[trigger] t.has_claim(signal, o) && o != f implies t.claims[(signal, f)].outranks(t.claims[(signal, o)]) by {
        assert(s.has_claim(signal, o));
        assert(s.claims.dom().contains((signal, o)));
    }
    assert(t.wins(signal, f));
    domain::lemma_one_winner(t, signal, f);
}

/// A claim below the priority of another feature's winning claim changes nothing
/// on the signal.
pub proof fn law_lower_priority_is_suppressed(
    s: ArbiterState,
    demand: Demand,
    winner: FeatureId,
)
    requires
        s.valid(),
        s.wins(demand.signal, winner),
        winner != demand.feature_id,
        s.claims[(demand.signal, winner)].priority.rank() > demand.priority.rank(),
    ensures
        s.claimed(demand).resolved(demand.signal) == s.resolved(demand.signal),
{
    let t = s.claimed(demand);
    let signal = demand.signal;
    assert forall|o: FeatureId| #[trigger] t.has_claim(signal, o) && o != winner implies t.claims[(signal, winner)].outranks(t.claims[(signal, o)]) by {
        if o != demand.feature_id {
            assert(s.has_claim(signal, o));
        }
    }
    assert(t.wins(signal, winner));
    domain::lemma_one_winner(t, signal, winner);
    domain::lemma_one_winner(s, signal, winner);
}

/// Releasing a claim gives the signal back: what was resolved before the claim
/// was made is resolved again, on every signal.
pub proof fn law_release_undoes_claim(s: ArbiterState, demand: Demand, signal: Seq<char>)
    requires
        !s.has_claim(demand.signal, demand.feature_id),
    ensures
        s.claimed(demand).released(demand.signal, demand.feature_id).claims == s.claims,
        s.claimed(demand).released(demand.signal, demand.feature_id).resolved(signal)
            == s.resolved(signal),
{
    let t = s.claimed(demand).released(demand.signal, demand.feature_id);
    assert(t.claims =~= s.claims);
    lemma_resolution_is_local(s, t, signal);
}

/// Withdrawing the winning claim lets the next one in rank take the signal.
pub proof fn law_release_resumes_next(
    s: ArbiterState,
    signal: Seq<char>,
    winner: FeatureId,
    next: FeatureId,
)
    requires
        s.valid(),
        !s.closed.contains(signal),
        s.wins(signal, winner),
        s.has_claim(signal, next),
        next != winner,
        forall|f: FeatureId| #[trigger]
            s.has_claim(signal, f) && f != winner && f != next ==> s.claims[(signal, next)].outranks(s.claims[(signal, f)]),
    ensures
        s.released(signal, winner).resolved(signal) == s.claims[(signal, next)].value,
{
    let t = s.released(signal, winner);
    assert forall|o: FeatureId| #[trigger] t.has_claim(signal, o) && o != next implies t.claims[(signal, next)].outranks(t.claims[(signal, o)]) by {
        assert(s.has_claim(signal, o));
    }
    assert(t.wins(signal, next));
    domain::lemma_one_winner(t, signal, next);
}

/// Claims, releases and gates of one signal leave every other signal alone.
pub proof fn law_signals_do_not_interfere(
    s: ArbiterState,
    demand: Demand,
    closed: bool,
    other: Seq<char>,
)
    requires
        other != demand.signal,
    ensures
        s.claimed(demand).resolved(other) == s.resolved(other),
        s.claimed(demand).due(other) == s.due(other),
        s.released(demand.signal, demand.feature_id).resolved(other) == s.resolved(other),
        s.released(demand.signal, demand.feature_id).due(other) == s.due(other),
        s.gated(demand.signal, closed).resolved(other) == s.resolved(other),
        s.gated(demand.signal, closed).due(other) == s.due(other),
{
    lemma_resolution_is_local(s, s.claimed(demand), other);
    lemma_resolution_is_local(s, s.released(demand.signal, demand.feature_id), other);
    lemma_resolution_is_local(s, s.gated(demand.signal, closed), other);
}

/// A closed gate forces its target off, whatever is claimed while it is closed.
pub proof fn law_closed_gate_forces_off(s: ArbiterState, target: Seq<char>, demand: Demand)
    ensures
        s.gated(target, true).resolved(target) == Value::off(),
        s.gated(target, true).claimed(demand).resolved(target) == Value::off(),
{
}

/// Opening a gate lets through what the claims resolve to, those made behind the
/// closed gate included.
pub proof fn law_open_gate_restores(s: ArbiterState, target: Seq<char>, demand: Demand)
    requires
        !s.closed.contains(target),
    ensures
        s.gated(target, true).gated(target, false).resolved(target) == s.resolved(target),
        s.gated(target, true).claimed(demand).gated(target, false).resolved(target) == s.claimed(
            demand,
        ).resolved(target),
{
    lemma_resolution_is_local(s, s.gated(target, true).gated(target, false), target);
    lemma_resolution_is_local(
        s.claimed(demand),
        s.gated(target, true).claimed(demand).gated(target, false),
        target,
    );
}

/// The state once whatever is due on `signal` has been published.
pub open spec fn settled(s: ArbiterState, signal: Seq<char>) -> ArbiterState {
    match s.due(signal) {
        Some((p, v)) => s.shown(p, v),
        None => s,
    }
}

/// The bus shows the resolved value of every signal that is claimed or was ever
/// published.
pub open spec fn in_step(s: ArbiterState) -> bool {
    forall|p: Seq<char>, f: FeatureId|
        s.published.dom().contains(p) || #[trigger] s.has_claim(p, f) ==> s.published.dom().contains(p)
            && s.published[p] == s.resolved(p)
}

/// Once a value has been published it is not published again while it stays
/// resolved.
pub proof fn law_no_duplicate_publication(s: ArbiterState, signal: Seq<char>)
    ensures
        settled(s, signal).due(signal) is None,
{
    lemma_resolution_is_local(s, settled(s, signal), signal);
}

proof fn lemma_settling_keeps_step(s: ArbiterState, t: ArbiterState, signal: Seq<char>)
    requires
        in_step(s),
        t.published == s.published,
        forall|p: Seq<char>, f: FeatureId|
            p != signal && #[trigger] t.has_claim(p, f) ==> s.has_claim(p, f),
        forall|p: Seq<char>| p != signal ==> #[trigger] t.resolved(p) == s.resolved(p),
    ensures
        in_step(settled(t, signal)),
{
    let u = settled(t, signal);
    assert forall|p: Seq<char>, f: FeatureId|
        u.published.dom().contains(p) || #[trigger] u.has_claim(p, f) implies u.published.dom().contains(
        p,
    ) && u.published[p] == u.resolved(p) by {
        lemma_resolution_is_local(t, u, p);
        if p != signal {
            assert(u.has_claim(p, f) == t.has_claim(p, f));
            assert(t.resolved(p) == s.resolved(p));
            assert(s.has_claim(p, f) || s.published.dom().contains(p));
        }
    }
}

/// Every accepted claim, release and gate report, followed by the publication
/// that falls due, keeps the bus in step with what the claims resolve to.
pub proof fn law_bus_stays_in_step(s: ArbiterState, demand: Demand, closed: bool)
    requires
        in_step(s),
    ensures
        in_step(settled(s.claimed(demand), demand.signal)),
        in_step(settled(s.released(demand.signal, demand.feature_id), demand.signal)),
        in_step(settled(s.gated(demand.signal, closed), demand.signal)),
{
    assert forall|p: Seq<char>| p != demand.signal implies {
        &&& #[trigger] s.claimed(demand).resolved(p) == s.resolved(p)
        &&& s.released(demand.signal, demand.feature_id).resolved(p) == s.resolved(p)
        &&& s.gated(demand.signal, closed).resolved(p) == s.resolved(p)
    } by {
        law_signals_do_not_interfere(s, demand, closed, p);
    }
    assert forall|p: Seq<char>| p != demand.signal implies #[trigger] s.released(
        demand.signal,
        demand.feature_id,
    ).resolved(p) == s.resolved(p) by {
        law_signals_do_not_interfere(s, demand, closed, p);
    }
    assert forall|p: Seq<char>| p != demand.signal implies #[trigger] s.gated(
        demand.signal,
        closed,
    ).resolved(p) == s.resolved(p) by {
        law_signals_do_not_interfere(s, demand, closed, p);
    }
    assert forall|p: Seq<char>, f: FeatureId|
        p != demand.signal && #[trigger] s.claimed(demand).has_claim(p, f) implies s.has_claim(p, f) by {}
    lemma_settling_keeps_step(s, s.claimed(demand), demand.signal);
    assert forall|p: Seq<char>, f: FeatureId|
        p != demand.signal && #[trigger] s.released(demand.signal, demand.feature_id).has_claim(p, f) implies
        s.has_claim(p, f) by {}
    lemma_settling_keeps_step(
        s,
        s.released(demand.signal, demand.feature_id),
        demand.signal,
    );
    lemma_settling_keeps_step(s, s.gated(demand.signal, closed), demand.signal);
}

} // verus!
