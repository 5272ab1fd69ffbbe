//! A mathematical model of the centralized sense-reversing barrier protocol.
//!
//! The shared coordination state of one barrier group is modelled by
//! [`RoundState`]: the fixed capacity, the counter of arrivals still missing
//! in the current round, and the round sense flag.  An arrival is one atomic
//! step on that state ([`step`] in specifications, [`arrive`] in executable
//! code): the counter decrement of the real barrier linearizes every arrival,
//! so an interleaved round of `capacity` concurrent arrivals acts on the
//! shared state exactly as `capacity` consecutive steps do.
//!
//! The lemmas in this module prove the round invariants of the protocol over
//! this model: every arrival but the last merely decrements the counter and
//! leaves the sense flag alone (so no waiter is released early), the last
//! arrival alone is the leader and resets the state for the next round, and
//! rounds can be repeated indefinitely with exactly one leader per round.
//!
//! A finer model, [`GroupModel`], adds each participant's private sense bit
//! and the set of participants that have arrived, and discharges the
//! assumption the round lemmas make: since every participant flips its own
//! bit exactly once per call, all arrivals of a round carry one common sense
//! value, and a completed round leaves every bit equal to the new shared
//! sense.

use vstd::prelude::*;

use vstd::set::axiom_set_empty_finite;
use vstd::set::axiom_set_empty_len;
use vstd::set::axiom_set_insert_finite;
use vstd::set::axiom_set_insert_len;
use vstd::set_lib::lemma_int_range;
use vstd::set_lib::set_int_range;

verus! {

/// The shared coordination state of one barrier group, as a plain value.
///
/// `capacity` is the fixed number of participants, `remaining` counts the
/// participants that have not yet arrived in the current round, and `sense`
/// is the flag whose flip releases the waiters of the round.
#[derive(Clone, Copy)]
pub struct RoundState {
    /// Fixed number of participants of the group; at least 1, never changed.
    pub capacity: usize,
    /// Participants still missing in the current round.
    pub remaining: usize,
    /// The round sense flag; flips exactly once per completed round.
    pub sense: bool,
}

/// Invariant of the shared state: between arrivals, the counter always holds
/// a value from 1 up to the capacity.
pub open spec fn state_ok(s: RoundState) -> bool {
    1 <= s.remaining && s.remaining <= s.capacity
}

/// A state at a round boundary: every participant of the round is still
/// missing.
pub open spec fn fresh_round(s: RoundState) -> bool {
    state_ok(s) && s.remaining == s.capacity
}

/// The arrival that observes this state is the last of its round, and hence
/// the leader of the round.
pub open spec fn is_last(s: RoundState) -> bool {
    s.remaining == 1
}

/// One arrival, taken as a single atomic step on the shared state.  The
/// arriving participant carries its local sense `lsense`; the last arrival
/// resets the counter and publishes `lsense` as the new round sense, any
/// other arrival only decrements the counter.
pub open spec fn step(s: RoundState, lsense: bool) -> RoundState {
    if s.remaining == 1 {
        RoundState { capacity: s.capacity, remaining: s.capacity, sense: lsense }
    } else {
        RoundState {
            capacity: s.capacity,
            remaining: (s.remaining - 1) as usize,
            sense: s.sense,
        }
    }
}

/// The shared state after `k` arrivals, all carrying the same local sense
/// `lsense` (within one round all participants agree on it, since each flips
/// its private copy of the initial sense exactly once per call).
pub open spec fn run(s: RoundState, lsense: bool, k: nat) -> RoundState
    decreases k,
{
    if k == 0 {
        s
    } else {
        step(run(s, lsense, (k - 1) as nat), lsense)
    }
}

/// How many of the first `k` arrivals were the leader of their round.
pub open spec fn leaders(s: RoundState, lsense: bool, k: nat) -> nat
    decreases k,
{
    if k == 0 {
        0
    } else if is_last(run(s, lsense, (k - 1) as nat)) {
        leaders(s, lsense, (k - 1) as nat) + 1
    } else {
        leaders(s, lsense, (k - 1) as nat)
    }
}

/// One arrival at the shared state, executable form of [`step`].  Returns the
/// new state together with the leader designation of this arrival.
pub fn arrive(s: RoundState, lsense: bool) -> (r: (RoundState, bool))
    requires
        state_ok(s),
    ensures
        r.0 == step(s, lsense),
        r.1 <==> is_last(s),
        state_ok(r.0),
{
    if s.remaining == 1 {
        (RoundState { capacity: s.capacity, remaining: s.capacity, sense: lsense }, true)
    } else {
        (RoundState { capacity: s.capacity, remaining: s.remaining - 1, sense: s.sense }, false)
    }
}

/// Before the round completes, the shared state only counts down: after
/// `k < capacity` arrivals into a fresh round, the counter holds
/// `capacity - k`, the sense flag is untouched, and no arrival so far was
/// the leader.
pub proof fn lemma_round_prefix(s: RoundState, lsense: bool, k: nat)
    requires
        fresh_round(s),
        k < s.capacity,
    ensures
        run(s, lsense, k) == (RoundState {
            capacity: s.capacity,
            remaining: (s.capacity - k) as usize,
            sense: s.sense,
        }),
        leaders(s, lsense, k) == 0,
    decreases k,
{
    if k > 0 {
        lemma_round_prefix(s, lsense, (k - 1) as nat);
    }
}

/// A full round of `capacity` arrivals completes the rendezvous: the final
/// arrival (and it alone) is the leader, the published sense is the arrivals'
/// local sense, and the state is fresh again for the next round.
pub proof fn lemma_round_completes(s: RoundState, lsense: bool)
    requires
        fresh_round(s),
    ensures
        is_last(run(s, lsense, (s.capacity - 1) as nat)),
        leaders(s, lsense, s.capacity as nat) == 1,
        run(s, lsense, s.capacity as nat) == (RoundState {
            capacity: s.capacity,
            remaining: s.capacity,
            sense: lsense,
        }),
        fresh_round(run(s, lsense, s.capacity as nat)),
{
    lemma_round_prefix(s, lsense, (s.capacity - 1) as nat);
    assert(run(s, lsense, s.capacity as nat) == step(
        run(s, lsense, (s.capacity - 1) as nat),
        lsense,
    ));
}

/// No early release: while at least one participant of the round is missing,
/// the sense flag still differs from the waiters' local sense, so no waiter
/// observes its release condition, and no arrival was designated leader yet.
/// (The waiters' local sense is the negation of the round's initial sense,
/// since each participant flips its private copy on arrival.)
pub proof fn lemma_no_early_release(s: RoundState, lsense: bool, k: nat)
    requires
        fresh_round(s),
        lsense == !s.sense,
        k < s.capacity,
    ensures
        run(s, lsense, k).sense != lsense,
        leaders(s, lsense, k) == 0,
{
    lemma_round_prefix(s, lsense, k);
}

/// A sole participant: in a group of capacity 1 every arrival is immediately
/// the last of its round, so it is the leader and has no release to wait for.
pub proof fn lemma_solo_leader(s: RoundState, lsense: bool)
    requires
        fresh_round(s),
        s.capacity == 1,
    ensures
        is_last(s),
        leaders(s, lsense, 1) == 1,
        fresh_round(run(s, lsense, 1)),
        run(s, lsense, 1).sense == lsense,
{
    lemma_round_completes(s, lsense);
}

/// The shared state after one complete round whose participants carry the
/// flipped sense, as every participant does when it arrives for the round.
pub open spec fn next_round(s: RoundState) -> RoundState {
    run(s, !s.sense, s.capacity as nat)
}

/// The shared state after `r` complete rounds.
pub open spec fn run_rounds(s: RoundState, r: nat) -> RoundState
    decreases r,
{
    if r == 0 {
        s
    } else {
        next_round(run_rounds(s, (r - 1) as nat))
    }
}

/// Reusability: starting from a fresh group, any number of consecutive full
/// rounds can be run; each leaves the state fresh for the next round, keeps
/// the capacity, flips the sense flag exactly once, and designates exactly
/// one leader.
pub proof fn lemma_rounds_reusable(s: RoundState, r: nat)
    requires
        fresh_round(s),
    ensures
        fresh_round(run_rounds(s, r)),
        run_rounds(s, r).capacity == s.capacity,
        run_rounds(s, r).sense == (if r % 2 == 0 {
            s.sense
        } else {
            !s.sense
        }),
        forall|i: nat|
            i < r ==> leaders(
                #[trigger] run_rounds(s, i),
                !run_rounds(s, i).sense,
                s.capacity as nat,
            ) == 1,
    decreases r,
{
    if r > 0 {
        lemma_rounds_reusable(s, (r - 1) as nat);
        lemma_round_completes(run_rounds(s, (r - 1) as nat), !run_rounds(s, (r - 1) as nat).sense);
    }
}

/// One barrier group together with the participants' private state: the
/// shared coordination state, each participant's local sense bit, and the
/// set of participants that have already arrived in the current round.
///
/// The lemmas over [`RoundState`] alone assume that all arrivals of a round
/// carry one common local sense.  This finer model discharges that
/// assumption: each participant flips its own bit on arrival, and the round
/// invariant [`mid_round`] shows that the bits of a group never disagree
/// within a round.
pub struct GroupModel {
    /// The shared coordination state.
    pub shared: RoundState,
    /// The local sense bit of each participant, indexed by participant.
    pub locals: Seq<bool>,
    /// The participants that have already arrived in the current round.
    pub arrived: Set<int>,
}

/// The round invariant of a group whose current round began with shared
/// sense `base`: participants that have arrived carry the flipped sense,
/// the ones still missing carry `base`, the counter holds exactly the
/// number of missing participants, and the shared sense flag is still
/// `base` — so no waiter observes its release condition yet.
pub open spec fn mid_round(g: GroupModel, base: bool) -> bool {
    &&& 1 <= g.shared.capacity
    &&& g.locals.len() == g.shared.capacity
    &&& g.arrived.finite()
    &&& (forall|i: int| g.arrived.contains(i) ==> 0 <= i < g.shared.capacity)
    &&& g.arrived.len() < g.shared.capacity
    &&& (forall|i: int|
        0 <= i < g.shared.capacity ==> g.locals[i] == (if g.arrived.contains(i) {
            !base
        } else {
            base
        }))
    &&& g.shared.sense == base
    &&& g.shared.remaining == g.shared.capacity - g.arrived.len()
}

/// A group of `n` participants as constructed: nobody has arrived and every
/// participant's local sense equals the initial shared sense.
pub open spec fn initial_group(n: usize, sense: bool) -> GroupModel {
    GroupModel {
        shared: RoundState { capacity: n, remaining: n, sense: sense },
        locals: Seq::new(n as nat, |i: int| sense),
        arrived: Set::empty(),
    }
}

/// One participant's checkpoint call, at the model level: participant `i`
/// flips its local sense bit and arrives at the shared state carrying the
/// flipped value.
pub open spec fn participant_arrives(g: GroupModel, i: int) -> GroupModel {
    GroupModel {
        shared: step(g.shared, !g.locals[i]),
        locals: g.locals.update(i, !g.locals[i]),
        arrived: g.arrived.insert(i),
    }
}

/// A freshly constructed group stands at the start of its first round.
pub proof fn lemma_initial_group_mid_round(n: usize, sense: bool)
    requires
        1 <= n,
    ensures
        mid_round(initial_group(n, sense), sense),
{
    broadcast use axiom_set_empty_finite;
    broadcast use axiom_set_empty_len;
}

/// Sense agreement, arrival that leaves the round open: a participant that
/// had not arrived yet still carried the round's base sense, so its flipped
/// arrival sense agrees with every earlier arrival of the round; it is not
/// designated leader, and the round invariant still holds — in particular
/// the shared sense flag is untouched, so nobody has been released.
pub proof fn lemma_arrival_keeps_round_open(g: GroupModel, base: bool, i: int)
    requires
        mid_round(g, base),
        0 <= i < g.shared.capacity,
        !g.arrived.contains(i),
        g.arrived.len() + 1 < g.shared.capacity,
    ensures
        g.locals[i] == base,
        participant_arrives(g, i).locals[i] == !base,
        !is_last(g.shared),
        mid_round(participant_arrives(g, i), base),
{
    axiom_set_insert_finite(g.arrived, i);
    axiom_set_insert_len(g.arrived, i);
}

/// Sense agreement, final arrival: the last missing participant arrives
/// carrying the same flipped sense as everyone before it, is designated
/// leader, publishes the flipped sense, and leaves the shared state fresh —
/// with every local bit equal to the new shared sense, ready for the next
/// round.
pub proof fn lemma_arrival_completes_round(g: GroupModel, base: bool, i: int)
    requires
        mid_round(g, base),
        0 <= i < g.shared.capacity,
        !g.arrived.contains(i),
        g.arrived.len() + 1 == g.shared.capacity,
    ensures
        g.locals[i] == base,
        is_last(g.shared),
        fresh_round(participant_arrives(g, i).shared),
        participant_arrives(g, i).shared.sense == !base,
        forall|j: int| 0 <= j < g.shared.capacity ==> participant_arrives(g, i).locals[j] == !base,
{
    axiom_set_insert_finite(g.arrived, i);
    axiom_set_insert_len(g.arrived, i);
    let g2 = participant_arrives(g, i);
    let n = g.shared.capacity as int;
    let rng = set_int_range(0, n);
    lemma_int_range(0, n);
    assert forall|j: int| 0 <= j < n implies g2.locals[j] == !base by {
        if !g2.arrived.contains(j) {
            // impossible: the arrival set now has `capacity` members, all in
            // the range of participants, so it cannot miss one of them
            assert(g2.arrived.subset_of(rng));
            g2.arrived.lemma_subset_not_in_lt(rng, j);
        }
    }
}

/// Reusability at the participant level: once a round has completed, taking
/// the flipped sense as the new base restores the round invariant with an
/// empty arrival set, so the next round proceeds under the same argument.
pub proof fn lemma_round_restarts(g: GroupModel, base: bool)
    requires
        1 <= g.shared.capacity,
        g.locals.len() == g.shared.capacity,
        fresh_round(g.shared),
        g.shared.sense == !base,
        forall|j: int| 0 <= j < g.shared.capacity ==> g.locals[j] == !base,
    ensures
        mid_round(GroupModel { shared: g.shared, locals: g.locals, arrived: Set::empty() }, !base),
{
    broadcast use axiom_set_empty_finite;
    broadcast use axiom_set_empty_len;
}

} // verus!
