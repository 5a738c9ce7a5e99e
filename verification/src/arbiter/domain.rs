//! Claim/release arbitration of the actuators of one domain.
//!
//! Features claim a signal with a value at a priority and hold the claim until
//! they release it. The winner is the claim of the highest priority, and among
//! claims of equal priority the latest one. With no claim left, or with a
//! physical gate closed, the signal reads off.

use vstd::prelude::*;

use crate::ipc_message::{FeatureId, Priority, SignalValue, Value};
use crate::path_map::PathMap;
use crate::signal_bus::{same_text, ActuatorRequest, Demand, VssPath};

verus! {

/// One row of a domain's static allow-list: a permitted combination of feature,
/// signal and priority.
#[derive(Debug, Clone, Copy)]
pub struct AllowEntry {
    pub feature_id: FeatureId,
    pub signal: VssPath,
    pub priority: Priority,
}

/// A physical-layer suppression rule. While the value of `gate_signal` equals
/// `suppress_when`, `target` is forced off whichever feature is winning.
#[derive(Debug)]
pub struct PhysicalGate {
    pub target: VssPath,
    pub gate_signal: VssPath,
    pub suppress_when: SignalValue,
}

impl Clone for PhysicalGate {
    fn clone(&self) -> (r: Self)
        ensures
            r@ == self@,
    {
        PhysicalGate {
            target: self.target,
            gate_signal: self.gate_signal,
            suppress_when: self.suppress_when.clone(),
        }
    }
}

/// What a [`PhysicalGate`] says.
pub struct Gate {
    pub target: Seq<char>,
    pub gate_signal: Seq<char>,
    pub suppress_when: Value,
}

impl View for PhysicalGate {
    type V = Gate;

    open spec fn view(&self) -> Gate {
        Gate {
            target: self.target@,
            gate_signal: self.gate_signal@,
            suppress_when: self.suppress_when@,
        }
    }
}

impl PhysicalGate {
    /// True iff `value` on its gate signal closes this one.
    pub fn is_closed_by(&self, value: &SignalValue) -> (closed: bool)
        ensures
            closed == (value@ == self.suppress_when@),
    {
        *value == self.suppress_when
    }
}

/// A value to be put on the bus.
#[derive(Debug)]
pub struct Publication {
    pub signal: VssPath,
    pub value: SignalValue,
}

impl View for Publication {
    type V = (Seq<char>, Value);

    open spec fn view(&self) -> (Seq<char>, Value) {
        (self.signal@, self.value@)
    }
}

/// What is to be published, if anything.
pub open spec fn publication_of(p: Option<Publication>) -> Option<(Seq<char>, Value)> {
    match p {
        Some(p) => Some(p@),
        None => None,
    }
}

/// A claim held on a signal.
pub struct Claim {
    pub priority: Priority,
    pub value: Value,
    /// Position in the order in which claims were accepted.
    pub seq: nat,
}

/// Row of the allow-list, as a value.
pub type Permission = (FeatureId, Seq<char>, Priority);

/// State of a domain arbiter.
#[verifier::ext_equal]
pub struct ArbiterState {
    pub allowed: Set<Permission>,
    /// Claims by signal and claiming feature.
    pub claims: Map<(Seq<char>, FeatureId), Claim>,
    /// Last value put on the bus, by signal.
    pub published: Map<Seq<char>, Value>,
    /// Signals whose gate is closed.
    pub closed: Set<Seq<char>>,
    /// Number of claims accepted so far.
    pub accepted: nat,
}

impl Claim {
    /// This claim takes precedence over `other`.
    pub open spec fn outranks(self, other: Claim) -> bool {
        self.priority.rank() > other.priority.rank() || (self.priority == other.priority && self.seq
            > other.seq)
    }
}

impl ArbiterState {
    /// `demand` is permitted by the allow-list.
    pub open spec fn permits(self, demand: Demand) -> bool {
        self.allowed.contains((demand.feature_id, demand.signal, demand.priority))
    }

    /// `feature` holds a claim on `signal`.
    pub open spec fn has_claim(self, signal: Seq<char>, feature: FeatureId) -> bool {
        self.claims.dom().contains((signal, feature))
    }

    /// `feature` holds the claim on `signal` that takes precedence over all others.
    pub open spec fn wins(self, signal: Seq<char>, feature: FeatureId) -> bool {
        &&& self.has_claim(signal, feature)
        &&& forall|other: FeatureId|
            #[trigger] self.has_claim(signal, other) && other != feature ==> self.claims[(signal, feature)].outranks(self.claims[(signal, other)])
    }

    /// The value that `signal` ought to have.
    pub open spec fn resolved(self, signal: Seq<char>) -> Value {
        if self.closed.contains(signal) {
            Value::off()
        } else if exists|f: FeatureId| self.wins(signal, f) {
            self.claims[(signal, choose|f: FeatureId| self.wins(signal, f))].value
        } else {
            Value::off()
        }
    }

    /// What has to be published so that the bus shows the resolved value of `signal`.
    pub open spec fn due(self, signal: Seq<char>) -> Option<(Seq<char>, Value)> {
        if self.published.dom().contains(signal) && self.published[signal] == self.resolved(signal) {
            None
        } else {
            Some((signal, self.resolved(signal)))
        }
    }

    /// The state once the claim that `demand` asks for has been accepted.
    pub open spec fn claimed(self, demand: Demand) -> ArbiterState {
        ArbiterState {
            claims: self.claims.insert(
                (demand.signal, demand.feature_id),
                Claim { priority: demand.priority, value: demand.value, seq: self.accepted + 1 },
            ),
            accepted: self.accepted + 1,
            ..self
        }
    }

    /// The state once the claim of `feature` on `signal` is withdrawn.
    pub open spec fn released(self, signal: Seq<char>, feature: FeatureId) -> ArbiterState {
        ArbiterState { claims: self.claims.remove((signal, feature)), ..self }
    }

    /// The state once `target` has been reported as gated or no longer gated.
    pub open spec fn gated(self, target: Seq<char>, closed: bool) -> ArbiterState {
        ArbiterState {
            closed: if closed {
                self.closed.insert(target)
            } else {
                self.closed.remove(target)
            },
            ..self
        }
    }

    /// The state after a request, and what has to be published. One that the
    /// allow-list does not contain is ignored.
    pub open spec fn requested(self, demand: Demand) -> (
        ArbiterState,
        Option<(Seq<char>, Value)>,
    ) {
        if self.permits(demand) {
            (self.claimed(demand), self.claimed(demand).due(demand.signal))
        } else {
            (self, None)
        }
    }

    /// The state after a release, and what has to be published. One of a claim that
    /// is not held is ignored.
    pub open spec fn withdrawn(self, signal: Seq<char>, feature: FeatureId) -> (
        ArbiterState,
        Option<(Seq<char>, Value)>,
    ) {
        if self.has_claim(signal, feature) {
            (self.released(signal, feature), self.released(signal, feature).due(signal))
        } else {
            (self, None)
        }
    }

    /// The state after a report on the physical gate of `target`, and what has to be
    /// published where that changes something.
    pub open spec fn gate_reported(self, target: Seq<char>, closed: bool) -> (
        ArbiterState,
        Option<(Seq<char>, Value)>,
    ) {
        (
            self.gated(target, closed),
            if self.closed.contains(target) == closed {
                None
            } else {
                self.gated(target, closed).due(target)
            },
        )
    }

    /// The state once `value` has been put on the bus for `signal`.
    pub open spec fn shown(self, signal: Seq<char>, value: Value) -> ArbiterState {
        ArbiterState { published: self.published.insert(signal, value), ..self }
    }

    /// Claims carry distinct positions, none past the number accepted.
    pub open spec fn valid(self) -> bool {
        &&& forall|k: (Seq<char>, FeatureId)| #[trigger]
            self.claims.dom().contains(k) ==> 1 <= self.claims[k].seq <= self.accepted
        &&& forall|k: (Seq<char>, FeatureId), l: (Seq<char>, FeatureId)|
            #[trigger] self.claims.dom().contains(k) && #[trigger] self.claims.dom().contains(l) && k
                != l ==> self.claims[k].seq != self.claims[l].seq
        &&& self.claims.dom().finite()
    }
}

/// One active claim on a signal, held by one feature.
struct ActiveClaim {
    signal: VssPath,
    feature_id: FeatureId,
    priority: Priority,
    value: SignalValue,
    seq: u64,
}

/// A domain-scoped arbiter that resolves priority conflicts per actuator.
pub struct DomainArbiter {
    name: &'static str,
    allow_list: Vec<AllowEntry>,
    gates: Vec<PhysicalGate>,
    claims: Vec<ActiveClaim>,
    last_published: PathMap<SignalValue>,
    gates_closed: PathMap<bool>,
    next_seq: u64,
}

/// What a list of gates says.
pub open spec fn gate_rules(gates: Seq<PhysicalGate>) -> Seq<Gate> {
    gates.map_values(|g: PhysicalGate| g@)
}

/// The rows of an allow-list, as values.
pub open spec fn permissions(rows: Seq<AllowEntry>) -> Seq<Permission> {
    rows.map_values(|e: AllowEntry| (e.feature_id, e.signal@, e.priority))
}

spec fn key_of(c: ActiveClaim) -> (Seq<char>, FeatureId) {
    (c.signal@, c.feature_id)
}

spec fn claim_of(c: ActiveClaim) -> Claim {
    Claim { priority: c.priority, value: c.value@, seq: c.seq as nat }
}

spec fn key_at(claims: Seq<ActiveClaim>, key: (Seq<char>, FeatureId), i: int) -> bool {
    0 <= i < claims.len() && key_of(claims[i]) == key
}

spec fn claim_map(claims: Seq<ActiveClaim>) -> Map<(Seq<char>, FeatureId), Claim> {
    Map::new(
        |k: (Seq<char>, FeatureId)| exists|i: int| key_at(claims, k, i),
        |k: (Seq<char>, FeatureId)| claim_of(claims[choose|i: int| key_at(claims, k, i)]),
    )
}

spec fn distinct_keys(claims: Seq<ActiveClaim>) -> bool {
    forall|i: int, j: int|
        0 <= i < j < claims.len() ==> key_of(#[trigger] claims[i]) != key_of(#[trigger] claims[j])
}

proof fn lemma_claim_at(claims: Seq<ActiveClaim>, i: int)
    requires
        distinct_keys(claims),
        0 <= i < claims.len(),
    ensures
        claim_map(claims).dom().contains(key_of(claims[i])),
        claim_map(claims)[key_of(claims[i])] == claim_of(claims[i]),
{
    let k = key_of(claims[i]);
    assert(key_at(claims, k, i));
    let c = choose|c: int| key_at(claims, k, c);
    assert(c == i);
}

proof fn lemma_claim_found(claims: Seq<ActiveClaim>, k: (Seq<char>, FeatureId)) -> (i: int)
    requires
        distinct_keys(claims),
        claim_map(claims).dom().contains(k),
    ensures
        key_at(claims, k, i),
        claim_map(claims)[k] == claim_of(claims[i]),
{
    let i = choose|i: int| key_at(claims, k, i);
    lemma_claim_at(claims, i);
    i
}

impl View for DomainArbiter {
    type V = ArbiterState;

    closed spec fn view(&self) -> ArbiterState {
        ArbiterState {
            allowed: permissions(self.allow_list@).to_set(),
            claims: claim_map(self.claims@),
            published: self.last_published@.map_values(|v: SignalValue| v@),
            closed: Set::new(
                |p: Seq<char>| self.gates_closed@.dom().contains(p) && self.gates_closed@[p],
            ),
            accepted: self.next_seq as nat,
        }
    }
}

impl DomainArbiter {
    /// Well-formedness: every feature holds at most one claim per signal, and
    /// the positions of the claims are distinct.
    pub closed spec fn wf(&self) -> bool {
        &&& distinct_keys(self.claims@)
        &&& self.last_published.wf()
        &&& self.gates_closed.wf()
        &&& self@.valid()
    }

    /// The state of a well-formed arbiter is valid, so that the laws of valid states
    /// hold of it.
    pub proof fn lemma_wf_is_valid(&self)
        requires
            self.wf(),
        ensures
            self@.valid(),
    {
    }

    /// The physical gates of this domain.
    pub closed spec fn gate_list(&self) -> Seq<Gate> {
        gate_rules(self.gates@)
    }

    /// The name of this domain.
    pub closed spec fn label(&self) -> Seq<char> {
        self.name@
    }

    /// The name of this domain.
    pub fn name(&self) -> (r: &'static str)
        ensures
            r@ == self.label(),
    {
        self.name
    }

    /// An arbiter with its static allow-list.
    pub fn new(name: &'static str, allow_list: Vec<AllowEntry>) -> (r: DomainArbiter)
        ensures
            r.wf(),
            r@.valid(),
            r.label() == name@,
            r.gate_list() == Seq::<Gate>::empty(),
            r@ == initial(permissions(allow_list@)),
    {
        Self::new_with_gates(name, allow_list, Vec::new())
    }

    /// Like `new`, with physical gates that suppress target signals.
    pub fn new_with_gates(
        name: &'static str,
        allow_list: Vec<AllowEntry>,
        gates: Vec<PhysicalGate>,
    ) -> (r: DomainArbiter)
        ensures
            r.wf(),
            r@.valid(),
            r.label() == name@,
            r.gate_list() == gate_rules(gates@),
            r@ == initial(permissions(allow_list@)),
    {
        let r = DomainArbiter {
            name,
            allow_list,
            gates,
            claims: Vec::new(),
            last_published: PathMap::new(),
            gates_closed: PathMap::new(),
            next_seq: 0,
        };
        proof {
            assert(r@.claims =~= Map::<(Seq<char>, FeatureId), Claim>::empty());
            assert(r@.published =~= Map::<Seq<char>, Value>::empty());
            assert(r@.closed =~= Set::<Seq<char>>::empty());
            assert(r@ =~= initial(permissions(allow_list@)));
        }
        r
    }

    /// The physical gates that have to be watched for this domain.
    pub fn gates(&self) -> (r: &Vec<PhysicalGate>)
        ensures
            gate_rules(r@) == self.gate_list(),
    {
        &self.gates
    }

    fn is_allowed(&self, req: &ActuatorRequest) -> (r: bool)
        ensures
            r == self@.permits(req@),
    {
        let ghost p: Permission = (req.feature_id, req.signal@, req.priority);
        let mut i: usize = 0;
        while i < self.allow_list.len()
            invariant
                i <= self.allow_list@.len(),
                p == (req.feature_id, req.signal@, req.priority),
                forall|j: int| 0 <= j < i ==> #[trigger] permissions(self.allow_list@)[j] != p,
            decreases self.allow_list@.len() - i,
        {
            let entry = &self.allow_list[i];
            if entry.feature_id == req.feature_id && same_text(entry.signal, req.signal)
                && entry.priority == req.priority {
                assert(permissions(self.allow_list@)[i as int] == p);
                return true;
            }
            assert(permissions(self.allow_list@)[i as int] != p);
            i += 1;
        }
        false
    }

    fn find_claim(&self, signal: &str, feature_id: FeatureId) -> (r: Option<usize>)
        requires
            distinct_keys(self.claims@),
        ensures
            match r {
                Some(i) => key_at(self.claims@, (signal@, feature_id), i as int)
                    && self@.has_claim(signal@, feature_id),
                None => !self@.has_claim(signal@, feature_id),
            },
    {
        let mut i: usize = 0;
        while i < self.claims.len()
            invariant
                distinct_keys(self.claims@),
                i <= self.claims@.len(),
                forall|j: int| 0 <= j < i ==> !key_at(self.claims@, (signal@, feature_id), j),
            decreases self.claims@.len() - i,
        {
            if same_text(self.claims[i].signal, signal) && self.claims[i].feature_id == feature_id {
                proof {
                    lemma_claim_at(self.claims@, i as int);
                }
                return Some(i);
            }
            i += 1;
        }
        assert(forall|j: int| !key_at(self.claims@, (signal@, feature_id), j));
        None
    }

    /// The value that `signal` ought to have under the claims and gates in force.
    pub fn resolve(&self, signal: VssPath) -> (r: SignalValue)
        requires
            self.wf(),
        ensures
            r@ == self@.resolved(signal@),
    {
        let gated = match self.gates_closed.get(signal) {
            Some(closed) => *closed,
            None => false,
        };
        if gated {
            return SignalValue::Bool(false);
        }
        let mut best: Option<usize> = None;
        let mut i: usize = 0;
        while i < self.claims.len()
            invariant
                self.wf(),
                i <= self.claims@.len(),
                match best {
                    Some(b) => {
                        &&& b < i
                        &&& self.claims@[b as int].signal@ == signal@
                        &&& forall|j: int|
                            0 <= j < i && j != b && (#[trigger] self.claims@[j]).signal@ == signal@
                                ==> claim_of(self.claims@[b as int]).outranks(claim_of(self.claims@[j]))
                    },
                    None => forall|j: int|
                        0 <= j < i ==> (#[trigger] self.claims@[j]).signal@ != signal@,
                },
            decreases self.claims@.len() - i,
        {
            if same_text(self.claims[i].signal, signal) {
                match best {
                    None => {
                        best = Some(i);
                    },
                    Some(b) => {
                        proof {
                            lemma_claim_at(self.claims@, b as int);
                            lemma_claim_at(self.claims@, i as int);
                            assert(key_of(self.claims@[b as int]) != key_of(self.claims@[i as int]));
                        }
                        let held = &self.claims[b];
                        let next = &self.claims[i];
                        if next.priority.level() > held.priority.level() || (next.priority
                            == held.priority && next.seq > held.seq) {
                            best = Some(i);
                        }
                    },
                }
            }
            i += 1;
        }
        let r = match best {
            Some(b) => self.claims[b].value.clone(),
            None => SignalValue::Bool(false),
        };
        proof {
            match best {
                Some(b) => {
                    let f = self.claims@[b as int].feature_id;
                    lemma_claim_at(self.claims@, b as int);
                    assert forall|other: FeatureId|
                        #[trigger] self@.has_claim(signal@, other) && other != f implies self@.claims[(signal@, f)].outranks(self@.claims[(signal@, other)]) by {
                        let j = lemma_claim_found(self.claims@, (signal@, other));
                    }
                    assert(self@.wins(signal@, f));
                    lemma_one_winner(self@, signal@, f);
                },
                None => {
                    assert forall|f: FeatureId| !self@.wins(signal@, f) by {
                        if self@.has_claim(signal@, f) {
                            let j = lemma_claim_found(self.claims@, (signal@, f));
                        }
                    }
                },
            }
        }
        r
    }

    fn publication_due(&self, signal: VssPath) -> (r: Option<Publication>)
        requires
            self.wf(),
        ensures
            publication_of(r) == self@.due(signal@),
    {
        let value = self.resolve(signal);
        match self.last_published.get(signal) {
            Some(last) => {
                if *last == value {
                    return None;
                }
            },
            None => {},
        }
        Some(Publication { signal, value })
    }

    /// True iff another claim can be numbered.
    pub fn accepts_more(&self) -> (r: bool)
        ensures
            r == (self@.accepted < u64::MAX),
    {
        self.next_seq < u64::MAX
    }

    /// Submits a claim. It replaces an earlier claim of the same feature on the
    /// same signal, and stays in force until it is released. A request that the
    /// allow-list does not contain is ignored.
    pub fn request(&mut self, req: ActuatorRequest) -> (r: Option<Publication>)
        requires
            old(self).wf(),
            old(self)@.accepted < u64::MAX,
        ensures
            final(self).wf(),
            final(self)@.valid(),
            final(self).label() == old(self).label(),
            final(self).gate_list() == old(self).gate_list(),
            (final(self)@, publication_of(r)) == old(self)@.requested(req@),
    {
        let ghost before = *self;
        if !self.is_allowed(&req) {
            return None;
        }
        let seq: u64 = self.next_seq + 1;
        self.next_seq = seq;
        let signal = req.signal;
        let ghost key = (req.signal@, req.feature_id);
        let claim = ActiveClaim {
            signal: req.signal,
            feature_id: req.feature_id,
            priority: req.priority,
            value: req.value,
            seq,
        };
        let ghost c = claim_of(claim);
        match self.find_claim(req.signal, req.feature_id) {
            Some(i) => {
                self.claims.set(i, claim);
                proof {
                    lemma_replaced(before.claims@, self.claims@, i as int);
                }
            },
            None => {
                self.claims.push(claim);
                proof {
                    lemma_appended(before.claims@, self.claims@);
                }
            },
        }
        proof {
            assert(self@.claims =~= before@.claims.insert(key, c));
            assert(self@ =~= before@.claimed(req@));
            lemma_claimed_valid(before@, req@);
        }
        self.publication_due(signal)
    }

    /// Withdraws a feature's claim on a signal, if it holds one.
    pub fn release(&mut self, signal: VssPath, feature_id: FeatureId) -> (r: Option<Publication>)
        requires
            old(self).wf(),
        ensures
            final(self).wf(),
            final(self)@.valid(),
            final(self).label() == old(self).label(),
            final(self).gate_list() == old(self).gate_list(),
            (final(self)@, publication_of(r)) == old(self)@.withdrawn(signal@, feature_id),
    {
        let ghost before = *self;
        match self.find_claim(signal, feature_id) {
            None => None,
            Some(i) => {
                let _ = self.claims.remove(i);
                proof {
                    lemma_removed(before.claims@, self.claims@, i as int);
                    assert(self@ =~= before@.released(signal@, feature_id));
                    lemma_released_valid(before@, signal@, feature_id);
                }
                self.publication_due(signal)
            },
        }
    }

    /// Reports `target` as gated or no longer gated.
    pub fn gate_changed(&mut self, target: VssPath, closed: bool) -> (r: Option<Publication>)
        requires
            old(self).wf(),
        ensures
            final(self).wf(),
            final(self)@.valid(),
            final(self).label() == old(self).label(),
            final(self).gate_list() == old(self).gate_list(),
            (final(self)@, publication_of(r)) == old(self)@.gate_reported(target@, closed),
    {
        let ghost before = *self;
        let was_closed = match self.gates_closed.get(target) {
            Some(c) => *c,
            None => false,
        };
        self.gates_closed.insert(target, closed);
        proof {
            assert(self@.closed =~= before@.gated(target@, closed).closed);
            assert(self@ =~= before@.gated(target@, closed));
        }
        if was_closed != closed {
            self.publication_due(target)
        } else {
            None
        }
    }

    /// Records that a publication has reached the bus.
    pub fn confirm(&mut self, publication: Publication)
        requires
            old(self).wf(),
        ensures
            final(self).wf(),
            final(self)@.valid(),
            final(self).label() == old(self).label(),
            final(self).gate_list() == old(self).gate_list(),
            final(self)@ == old(self)@.shown(publication@.0, publication@.1),
    {
        let ghost before = *self;
        let ghost (signal, value) = publication@;
        self.last_published.insert(publication.signal, publication.value);
        proof {
            assert(self@.published =~= before@.shown(signal, value).published);
            assert(self@ =~= before@.shown(signal, value));
        }
    }
}

/// The state of an arbiter that has seen nothing yet.
pub open spec fn initial(table: Seq<Permission>) -> ArbiterState {
    ArbiterState {
        allowed: table.to_set(),
        claims: Map::empty(),
        published: Map::empty(),
        closed: Set::empty(),
        accepted: 0,
    }
}

proof fn lemma_replaced(before: Seq<ActiveClaim>, after: Seq<ActiveClaim>, i: int)
    requires
        distinct_keys(before),
        0 <= i < before.len(),
        after == before.update(i, after[i]),
        key_of(after[i]) == key_of(before[i]),
    ensures
        distinct_keys(after),
        claim_map(after) == claim_map(before).insert(key_of(after[i]), claim_of(after[i])),
{
    let m = claim_map(before).insert(key_of(after[i]), claim_of(after[i]));
    assert forall|k: (Seq<char>, FeatureId)|
        claim_map(after).dom().contains(k) == #[trigger] m.dom().contains(k) by {
        if claim_map(after).dom().contains(k) {
            let j = choose|j: int| key_at(after, k, j);
            assert(key_at(before, k, j));
        }
        if claim_map(before).dom().contains(k) {
            let j = choose|j: int| key_at(before, k, j);
            assert(key_at(after, k, j));
        }
        assert(key_at(after, key_of(after[i]), i));
    }
    assert forall|k: (Seq<char>, FeatureId)|
        claim_map(after).dom().contains(k) implies claim_map(after)[k] == #[trigger] m[k] by {
        let j = lemma_claim_found(after, k);
        lemma_claim_at(before, j);
        lemma_claim_at(after, i);
    }
    assert(claim_map(after) =~= m);
}

proof fn lemma_appended(before: Seq<ActiveClaim>, after: Seq<ActiveClaim>)
    requires
        distinct_keys(before),
        after.len() == before.len() + 1,
        after == before.push(after.last()),
        !claim_map(before).dom().contains(key_of(after.last())),
    ensures
        distinct_keys(after),
        claim_map(after) == claim_map(before).insert(key_of(after.last()), claim_of(after.last())),
{
    let n = before.len() as int;
    let m = claim_map(before).insert(key_of(after.last()), claim_of(after.last()));
    assert forall|j: int| 0 <= j < n implies key_of(#[trigger] before[j]) != key_of(after.last()) by {
        lemma_claim_at(before, j);
    }
    assert forall|k: (Seq<char>, FeatureId)|
        claim_map(after).dom().contains(k) == #[trigger] m.dom().contains(k) by {
        if claim_map(after).dom().contains(k) {
            let j = choose|j: int| key_at(after, k, j);
            if j < n {
                assert(key_at(before, k, j));
            }
        }
        if claim_map(before).dom().contains(k) {
            let j = choose|j: int| key_at(before, k, j);
            assert(key_at(after, k, j));
        }
        assert(key_at(after, key_of(after[n]), n));
    }
    assert forall|k: (Seq<char>, FeatureId)|
        claim_map(after).dom().contains(k) implies claim_map(after)[k] == #[trigger] m[k] by {
        let j = lemma_claim_found(after, k);
        if j < n {
            lemma_claim_at(before, j);
        }
    }
    assert(claim_map(after) =~= m);
}

proof fn lemma_removed(before: Seq<ActiveClaim>, after: Seq<ActiveClaim>, i: int)
    requires
        distinct_keys(before),
        0 <= i < before.len(),
        after == before.remove(i),
    ensures
        distinct_keys(after),
        claim_map(after) == claim_map(before).remove(key_of(before[i])),
{
    let m = claim_map(before).remove(key_of(before[i]));
    assert forall|k: (Seq<char>, FeatureId)|
        claim_map(after).dom().contains(k) == #[trigger] m.dom().contains(k) by {
        if claim_map(after).dom().contains(k) {
            let j = choose|j: int| key_at(after, k, j);
            let j0 = if j < i { j } else { j + 1 };
            assert(key_at(before, k, j0));
        }
        if m.dom().contains(k) {
            let j0 = choose|j: int| key_at(before, k, j);
            let j = if j0 < i { j0 } else { j0 - 1 };
            assert(key_at(after, k, j));
        }
    }
    assert forall|k: (Seq<char>, FeatureId)|
        claim_map(after).dom().contains(k) implies claim_map(after)[k] == #[trigger] m[k] by {
        let j = lemma_claim_found(after, k);
        let j0 = if j < i { j } else { j + 1 };
        lemma_claim_at(before, j0);
    }
    assert(claim_map(after) =~= m);
}

pub proof fn lemma_claimed_valid(s: ArbiterState, demand: Demand)
    requires
        s.valid(),
    ensures
        s.claimed(demand).valid(),
{
}

pub proof fn lemma_released_valid(s: ArbiterState, signal: Seq<char>, feature: FeatureId)
    requires
        s.valid(),
    ensures
        s.released(signal, feature).valid(),
{
}

/// At most one feature wins a signal.
pub proof fn lemma_one_winner(s: ArbiterState, signal: Seq<char>, f: FeatureId)
    requires
        s.wins(signal, f),
    ensures
        forall|g: FeatureId| #[trigger] s.wins(signal, g) ==> g == f,
{
    assert forall|g: FeatureId| #[trigger] s.wins(signal, g) implies g == f by {
        if g != f {
            assert(s.has_claim(signal, f));
            assert(s.has_claim(signal, g));
        }
    }
}

} // verus!
