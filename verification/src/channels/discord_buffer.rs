//! In-memory buffer for batched Discord archive writes.
//!
//! Messages from the gateway listener accumulate here and are flushed to
//! the archive in batches. The buffer is passive: it signals when it has
//! reached its capacity but does not flush by itself.

use vstd::prelude::*;

verus! {

/// Accumulates messages until a batch is due.
///
/// `capacity` is a flush threshold, not a limit: [`push`](Self::push)
/// always succeeds, and [`should_flush`](Self::should_flush) holds once the
/// buffer holds at least `capacity` messages.
pub struct MessageBuffer<T> {
    capacity: usize,
    inner: Vec<T>,
}

impl<T> MessageBuffer<T> {
    /// The buffered messages, oldest first.
    pub closed spec fn messages(&self) -> Seq<T> {
        self.inner@
    }

    /// The flush threshold.
    pub closed spec fn threshold(&self) -> nat {
        self.capacity as nat
    }

    /// An empty buffer that signals a flush at `capacity` messages; the
    /// capacity must be positive.
    pub fn new(capacity: usize) -> (b: Self)
        requires
            capacity > 0,
        ensures
            b.messages().len() == 0,
            b.threshold() == capacity,
    {
        MessageBuffer { capacity, inner: Vec::new() }
    }

    /// Appends a message.
    pub fn push(&mut self, msg: T)
        ensures
            final(self).messages() == old(self).messages().push(msg),
            final(self).threshold() == old(self).threshold(),
    {
        self.inner.push(msg);
    }

    /// Whether the buffer holds at least its capacity of messages.
    pub fn should_flush(&self) -> (r: bool)
        ensures
            r == (self.messages().len() >= self.threshold()),
    {
        self.inner.len() >= self.capacity
    }

    /// The number of buffered messages.
    pub fn len(&self) -> (n: usize)
        ensures
            n == self.messages().len(),
    {
        self.inner.len()
    }

    /// Whether the buffer is empty.
    pub fn is_empty(&self) -> (r: bool)
        ensures
            r == (self.messages().len() == 0),
    {
        self.inner.len() == 0
    }

    /// Takes all buffered messages out, oldest first, leaving the buffer
    /// empty.
    pub fn drain(&mut self) -> (r: Vec<T>)
        ensures
            r@ == old(self).messages(),
            final(self).messages().len() == 0,
            final(self).threshold() == old(self).threshold(),
    {
        let mut taken: Vec<T> = Vec::new();
        std::mem::swap(&mut taken, &mut self.inner);
        taken
    }
}

} // verus!
