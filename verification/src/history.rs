//! Reading of histories: what was seen last in a run of events, and what the
//! effects of a run leave standing on the bus.

use vstd::prelude::*;

use crate::ipc_message::{FeatureId, Priority, Value};
use crate::signal_bus::{Domain, Effect};

verus! {

/// The latest reading in a history, where `read` takes from each event what it
/// says of the matter, if anything.
pub open spec fn latest<E, T>(events: Seq<E>, read: spec_fn(E) -> Option<T>) -> Option<T>
    decreases events.len(),
{
    if events.len() == 0 {
        None
    } else {
        match read(events.last()) {
            Some(x) => Some(x),
            None => latest(events.drop_last(), read),
        }
    }
}

/// The latest reading in a history, or `first` where there is none yet.
pub open spec fn latest_or<E, T>(events: Seq<E>, read: spec_fn(E) -> Option<T>, first: T) -> T {
    match latest(events, read) {
        Some(x) => x,
        None => first,
    }
}

/// The latest reading is that of the last event that has one.
pub proof fn law_latest_is_the_last_reading<E, T>(
    events: Seq<E>,
    read: spec_fn(E) -> Option<T>,
    k: int,
)
    requires
        0 <= k < events.len(),
        read(events[k]) is Some,
        forall|j: int| k < j < events.len() ==> read(#[trigger] events[j]) is None,
    ensures
        latest(events, read) == read(events[k]),
    decreases events.len(),
{
    if k < events.len() - 1 {
        let rest = events.drop_last();
        assert(read(events[events.len() - 1]) is None);
        assert forall|j: int| k < j < rest.len() implies read(#[trigger] rest[j]) is None by {
            assert(rest[j] == events[j]);
        }
        law_latest_is_the_last_reading(rest, read, k);
    }
}

/// A history in which no event has a reading has no latest one.
pub proof fn law_no_reading_no_latest<E, T>(events: Seq<E>, read: spec_fn(E) -> Option<T>)
    requires
        forall|j: int| 0 <= j < events.len() ==> read(#[trigger] events[j]) is None,
    ensures
        latest(events, read) is None,
    decreases events.len(),
{
    if events.len() > 0 {
        let rest = events.drop_last();
        assert(read(events[events.len() - 1]) is None);
        assert forall|j: int| 0 <= j < rest.len() implies read(#[trigger] rest[j]) is None by {
            assert(rest[j] == events[j]);
        }
        law_no_reading_no_latest(rest, read);
    }
}

/// Of two histories one after the other, the second has the last word.
pub proof fn lemma_latest_of_two<E, T>(a: Seq<E>, b: Seq<E>, read: spec_fn(E) -> Option<T>)
    ensures
        latest(a + b, read) == match latest(b, read) {
            Some(x) => Some(x),
            None => latest(a, read),
        },
    decreases b.len(),
{
    if b.len() == 0 {
        assert(a + b =~= a);
    } else {
        assert((a + b).drop_last() =~= a + b.drop_last());
        assert((a + b).last() == b.last());
        lemma_latest_of_two(a, b.drop_last(), read);
    }
}

/// One event more.
pub proof fn lemma_latest_of_push<E, T>(a: Seq<E>, e: E, read: spec_fn(E) -> Option<T>)
    ensures
        latest(a.push(e), read) == match read(e) {
            Some(x) => Some(x),
            None => latest(a, read),
        },
{
    assert(a.push(e).drop_last() =~= a);
}

/// Reads off an effect what it publishes on `signal`.
pub open spec fn published_on(signal: Seq<char>) -> spec_fn(Effect) -> Option<Value> {
    |e: Effect|
        match e {
            Effect::Publish { signal: s, value } => if s == signal {
                Some(value)
            } else {
                None
            },
            _ => None,
        }
}

/// Reads off an effect what becomes of the claim of `feature` on `signal`.
pub open spec fn claimed_on(domain: Domain, signal: Seq<char>, feature: FeatureId) -> spec_fn(
    Effect,
) -> Option<Option<(Value, Priority)>> {
    |e: Effect|
        match e {
            Effect::Claim { domain: d, request } => if d == domain && request.signal == signal
                && request.feature_id == feature {
                Some(Some((request.value, request.priority)))
            } else {
                None
            },
            Effect::Release { domain: d, signal: s, feature_id } => if d == domain && s == signal
                && feature_id == feature {
                Some(None)
            } else {
                None
            },
            _ => None,
        }
}

/// The value that the effects leave on `signal`, where they publish one.
pub open spec fn shown(effects: Seq<Effect>, signal: &str) -> Option<Value> {
    latest(effects, published_on(signal@))
}

/// The claim that the effects leave standing for `feature` on `signal`.
pub open spec fn standing(
    effects: Seq<Effect>,
    domain: Domain,
    signal: &str,
    feature: FeatureId,
) -> Option<(Value, Priority)> {
    latest_or(effects, claimed_on(domain, signal@, feature), None)
}

/// The latest reading in a short history.
pub proof fn lemma_latest_of_few<E, T>(events: Seq<E>, read: spec_fn(E) -> Option<T>)
    ensures
        events.len() == 0 ==> latest(events, read) is None,
        events.len() == 1 ==> latest(events, read) == read(events[0]),
        events.len() == 2 ==> latest(events, read) == match read(events[1]) {
            Some(x) => Some(x),
            None => read(events[0]),
        },
        events.len() == 3 ==> latest(events, read) == match read(events[2]) {
            Some(x) => Some(x),
            None => match read(events[1]) {
                Some(x) => Some(x),
                None => read(events[0]),
            },
        },
        events.len() == 4 ==> latest(events, read) == match read(events[3]) {
            Some(x) => Some(x),
            None => match read(events[2]) {
                Some(x) => Some(x),
                None => match read(events[1]) {
                    Some(x) => Some(x),
                    None => read(events[0]),
                },
            },
        },
{
    reveal_with_fuel(latest, 5);
}

} // verus!
