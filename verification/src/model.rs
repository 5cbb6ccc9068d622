//! Mathematical model of the token store.
//!
//! The store is modelled as three unbounded integers (capacity, refill
//! amount, available count) and two atomic operations on them. The laws at
//! the bottom of this module hold of every sequence of those operations.

use vstd::prelude::*;

verus! {

/// The abstract state of a token store: its static configuration and the
/// number of currently available tokens, as unbounded integers.
pub struct StoreModel {
    pub capacity: int,
    pub refill_amount: int,
    pub available: int,
}

/// One atomic operation on a token store.
pub enum Op {
    /// An attempt by a consumer to take a single token.
    Take,
    /// One tick of the periodic refill schedule.
    Refill,
}

/// A take succeeds exactly when a token is available.
pub open spec fn take_succeeds(s: StoreModel) -> bool {
    s.available > 0
}

/// The invariant of a meaningful bucket: the available count lies in
/// `[0, capacity]`.
pub open spec fn in_range(s: StoreModel) -> bool {
    0 <= s.available && s.available <= s.capacity
}

/// The store after one atomic operation. A successful take removes one
/// token and a failed one changes nothing; a refill adds `refill_amount`
/// tokens, clamped to exactly `capacity`. The clamp recomputes from the
/// current count each time, so no excess is carried over to later ticks.
pub open spec fn step(s: StoreModel, op: Op) -> StoreModel {
    match op {
        Op::Take => StoreModel {
            available: if s.available > 0 { s.available - 1 } else { s.available },
            ..s
        },
        Op::Refill => StoreModel {
            available: if s.available + s.refill_amount < s.capacity {
                s.available + s.refill_amount
            } else {
                s.capacity
            },
            ..s
        },
    }
}

/// The store after a sequence of atomic operations, applied left to right.
pub open spec fn run(s: StoreModel, trace: Seq<Op>) -> StoreModel
    decreases trace.len(),
{
    if trace.len() == 0 {
        s
    } else {
        run(step(s, trace[0]), trace.drop_first())
    }
}

/// A sequence of `n` consecutive take attempts.
pub open spec fn all_takes(n: nat) -> Seq<Op> {
    Seq::new(n, |i: int| Op::Take)
}

/// One operation keeps the available count inside `[0, capacity]`, and
/// never changes the configuration.
pub proof fn lemma_step_in_range(s: StoreModel, op: Op)
    requires
        in_range(s),
        s.refill_amount >= 0,
    ensures
        in_range(step(s, op)),
        step(s, op).capacity == s.capacity,
        step(s, op).refill_amount == s.refill_amount,
{
}

/// For every sequence of takes and refills started inside the invariant,
/// the available count never leaves `[0, capacity]`.
pub proof fn lemma_run_in_range(s: StoreModel, trace: Seq<Op>)
    requires
        in_range(s),
        s.refill_amount >= 0,
    ensures
        in_range(run(s, trace)),
        run(s, trace).capacity == s.capacity,
        run(s, trace).refill_amount == s.refill_amount,
    decreases trace.len(),
{
    if trace.len() > 0 {
        lemma_step_in_range(s, trace[0]);
        lemma_run_in_range(step(s, trace[0]), trace.drop_first());
    }
}

/// `n` consecutive takes from a store holding at least `n` tokens all
/// succeed, leaving exactly `n` fewer tokens and the configuration intact.
pub proof fn lemma_takes_drain(s: StoreModel, n: int)
    requires
        0 <= n <= s.available,
    ensures
        run(s, all_takes(n as nat)) == (StoreModel { available: s.available - n, ..s }),
    decreases n,
{
    if n == 0 {
        assert(run(s, all_takes(0)) == s);
    } else {
        assert(all_takes(n as nat).drop_first() =~= all_takes((n - 1) as nat));
        lemma_takes_drain(step(s, Op::Take), n - 1);
    }
}

/// Starting from a full bucket, exactly `capacity` consecutive takes
/// succeed, and the very next one fails, with no refill in between.
pub proof fn lemma_full_bucket_drains_exactly(s: StoreModel)
    requires
        s.capacity >= 0,
        s.available == s.capacity,
    ensures
        forall|n: int| 0 <= n < s.capacity ==> take_succeeds(#[trigger] run(s, all_takes(n as nat))),
        !take_succeeds(run(s, all_takes(s.capacity as nat))),
{
    assert forall|n: int| 0 <= n < s.capacity implies take_succeeds(
        #[trigger] run(s, all_takes(n as nat)),
    ) by {
        lemma_takes_drain(s, n);
    }
    lemma_takes_drain(s, s.capacity);
}

/// After a failed take (no token available), one refill tick makes the
/// next take succeed if and only if the refill amount is positive. This
/// needs a positive capacity: with a zero capacity every refill clamps the
/// count back to zero and no take can ever succeed.
pub proof fn lemma_refill_revives_iff_positive(s: StoreModel)
    requires
        in_range(s),
        s.capacity > 0,
        s.refill_amount >= 0,
        !take_succeeds(s),
    ensures
        take_succeeds(step(s, Op::Refill)) <==> s.refill_amount > 0,
{
}

} // verus!
