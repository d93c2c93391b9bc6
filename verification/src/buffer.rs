//! The in-memory queue of snapshots that have not been delivered yet.
//!
//! The queue keeps insertion order. It grows while deliveries fail, and the
//! eviction policy bounds that growth: once a failed delivery leaves more than
//! [`OVERFLOW_FACTOR`] batches queued, the whole queue is dropped.

use vstd::prelude::*;

verus! {

/// How many batches' worth of snapshots may pile up before a failed delivery
/// drops the whole queue.
pub const OVERFLOW_FACTOR: usize = 5;

/// The largest queue length that survives a failed delivery.
pub open spec fn ceiling(batch_size: usize) -> int {
    OVERFLOW_FACTOR as int * batch_size as int
}

/// Whether a queue of `len` snapshots has reached the size of one batch.
pub open spec fn at_or_above_threshold(len: nat, batch_size: usize) -> bool {
    len >= batch_size as nat
}

/// Whether a queue of `len` snapshots is dropped by a failed delivery.
pub open spec fn overflows(len: nat, batch_size: usize) -> bool {
    len as int > ceiling(batch_size)
}

/// What a failed delivery leaves of `queue`: nothing once it overflows, all of
/// it otherwise.
pub open spec fn after_failure<T>(queue: Seq<T>, batch_size: usize) -> Seq<T> {
    if overflows(queue.len(), batch_size) {
        Seq::empty()
    } else {
        queue
    }
}

/// A first-in, first-out queue of undelivered snapshots.
pub struct BoundedBatchBuffer<T> {
    items: Vec<T>,
}

impl<T> View for BoundedBatchBuffer<T> {
    type V = Seq<T>;

    closed spec fn view(&self) -> Seq<T> {
        self.items@
    }
}

impl<T> BoundedBatchBuffer<T> {
    /// An empty queue.
    pub fn new() -> (buffer: Self)
        ensures
            buffer@ == Seq::<T>::empty(),
    {
        BoundedBatchBuffer { items: Vec::new() }
    }

    /// Appends `snapshot` behind everything already queued.
    pub fn push(&mut self, snapshot: T)
        ensures
            final(self)@ == old(self)@.push(snapshot),
    {
        self.items.push(snapshot);
    }

    /// The number of queued snapshots.
    pub fn len(&self) -> (n: usize)
        ensures
            n == self@.len(),
    {
        self.items.len()
    }

    /// Whether nothing is queued.
    pub fn is_empty(&self) -> (empty: bool)
        ensures
            empty == (self@.len() == 0),
    {
        self.items.len() == 0
    }

    /// The queued snapshots, oldest first.
    pub fn pending(&self) -> (items: &Vec<T>)
        ensures
            items@ == self@,
    {
        &self.items
    }

    /// Whether a full batch is waiting.
    pub fn is_at_or_above_threshold(&self, batch_size: usize) -> (reached: bool)
        ensures
            reached == at_or_above_threshold(self@.len(), batch_size),
    {
        self.items.len() >= batch_size
    }

    /// Whether more than `OVERFLOW_FACTOR` batches are waiting.
    pub fn exceeds_ceiling(&self, batch_size: usize) -> (over: bool)
        ensures
            over == overflows(self@.len(), batch_size),
    {
        let queued: usize = self.items.len();
        match OVERFLOW_FACTOR.checked_mul(batch_size) {
            Some(limit) => queued > limit,
            // The ceiling itself is beyond any length a queue can have.
            None => false,
        }
    }

    /// Takes every queued snapshot out, oldest first, and leaves the queue
    /// empty.
    pub fn drain(&mut self) -> (batch: Vec<T>)
        ensures
            batch@ == old(self)@,
            final(self)@ == Seq::<T>::empty(),
    {
        let mut batch: Vec<T> = Vec::new();
        std::mem::swap(&mut self.items, &mut batch);
        batch
    }

    /// Drops every queued snapshot.
    pub fn clear(&mut self)
        ensures
            final(self)@ == Seq::<T>::empty(),
    {
        self.items.clear();
    }

    /// Applies the eviction policy after a failed delivery and returns how many
    /// snapshots were dropped.
    ///
    /// The queue is cleared exactly when it holds more than `OVERFLOW_FACTOR`
    /// batches; otherwise it is kept whole, in order, for the next attempt.
    /// Either way no more than `OVERFLOW_FACTOR` batches remain.
    pub fn evict_after_failure(&mut self, batch_size: usize) -> (dropped: usize)
        ensures
            final(self)@ == after_failure(old(self)@, batch_size),
            overflows(old(self)@.len(), batch_size) ==> dropped == old(self)@.len(),
            !overflows(old(self)@.len(), batch_size) ==> dropped == 0,
            final(self)@.len() <= ceiling(batch_size),
    {
        if self.exceeds_ceiling(batch_size) {
            let dropped: usize = self.items.len();
            self.items.clear();
            dropped
        } else {
            0
        }
    }
}

/// Whatever was pushed before it, a failed delivery clears the queue if and
/// only if it holds more than `OVERFLOW_FACTOR` batches, and what it leaves
/// never exceeds that ceiling.
pub proof fn lemma_eviction_bound<T>(queue: Seq<T>, batch_size: usize)
    ensures
        after_failure(queue, batch_size).len() <= ceiling(batch_size),
        queue.len() <= ceiling(batch_size) ==> after_failure(queue, batch_size) == queue,
        queue.len() > ceiling(batch_size) ==> after_failure(queue, batch_size) == Seq::<T>::empty(),
{
}

} // verus!
