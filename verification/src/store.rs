//! The shared token store and its two atomic operations.
//!
//! A `TokenStore` is the single piece of state that the refill task and
//! all consumers act on, each under mutual exclusion. Every public
//! operation is described exactly, over the model in [`crate::model`].

use vstd::prelude::*;

use crate::model;
use crate::model::Op;
use crate::model::StoreModel;

verus! {

/// A bounded counter of available tokens together with the static
/// configuration it is replenished under. The bucket starts full
/// (`available == capacity`); `try_take` consumes one token at a time and
/// `refill` adds `refill_amount` tokens, clamped to `capacity`.
///
/// The fields are private: the counter is read and written only through
/// the atomic operations, never directly.
pub struct TokenStore {
    capacity: i32,
    refill_amount: i32,
    available: i32,
}

impl View for TokenStore {
    type V = StoreModel;

    closed spec fn view(&self) -> StoreModel {
        StoreModel {
            capacity: self.capacity as int,
            refill_amount: self.refill_amount as int,
            available: self.available as int,
        }
    }
}

impl TokenStore {
    /// Holds of every observable store: the refill amount is non-negative,
    /// and the available count lies in `[0, capacity]` — except under the
    /// degenerate non-positive capacity, where the count stays pinned at
    /// `capacity` and no take can ever succeed.
    #[verifier::type_invariant]
    closed spec fn wf(self) -> bool {
        &&& self.refill_amount >= 0
        &&& if self.capacity >= 0 {
            0 <= self.available && self.available <= self.capacity
        } else {
            self.available == self.capacity
        }
    }

    /// Creates a full bucket: the available count starts at `capacity`.
    ///
    /// A non-positive `capacity` is deliberately not rejected; it yields a
    /// bucket that can never be consumed from.
    pub fn new(capacity: i32, refill_amount: i32) -> (store: Self)
        requires
            refill_amount >= 0,
        ensures
            store@.capacity == capacity,
            store@.refill_amount == refill_amount,
            store@.available == capacity,
    {
        TokenStore { capacity, refill_amount, available: capacity }
    }

    /// Atomically, if a token is available, takes one and reports success;
    /// otherwise reports failure and leaves the store unchanged.
    pub fn try_take(&mut self) -> (granted: bool)
        ensures
            granted == model::take_succeeds(old(self)@),
            final(self)@ == model::step(old(self)@, Op::Take),
            granted ==> final(self)@.available == old(self)@.available - 1,
            !granted ==> final(self)@ == old(self)@,
    {
        proof {
            use_type_invariant(&*self);
        }
        if self.available > 0 {
            self.available = self.available - 1;
            true
        } else {
            false
        }
    }

    /// Atomically adds `refill_amount` tokens, clamped to exactly
    /// `capacity`. The clamp recomputes from the current count, so a tick
    /// that hits the ceiling drops the excess rather than banking it.
    pub fn refill(&mut self)
        ensures
            final(self)@ == model::step(old(self)@, Op::Refill),
    {
        proof {
            use_type_invariant(&*self);
        }
        if self.refill_amount < self.capacity - self.available {
            self.available = self.available + self.refill_amount;
        } else {
            self.available = self.capacity;
        }
    }

    /// The number of currently available tokens. Observing the counter
    /// also reports the invariant every reachable store keeps: the count
    /// lies inside `[0, capacity]`, except under the degenerate
    /// non-positive capacity, where it is pinned to `capacity` itself.
    pub fn available(&self) -> (n: i32)
        ensures
            n == self@.available,
            self@.refill_amount >= 0,
            self@.capacity >= 0 ==> model::in_range(self@),
            self@.capacity < 0 ==> self@.available == self@.capacity,
    {
        proof {
            use_type_invariant(&*self);
        }
        self.available
    }

    /// The maximum number of tokens the bucket can hold.
    pub fn capacity(&self) -> (n: i32)
        ensures
            n == self@.capacity,
    {
        self.capacity
    }

    /// The number of tokens added per refill tick.
    pub fn refill_amount(&self) -> (n: i32)
        ensures
            n == self@.refill_amount,
    {
        self.refill_amount
    }
}

} // verus!
