//! A bounded first-in first-out history that drops its oldest entry when full.

use vstd::prelude::*;

verus! {

/// The last `n` items of `s`, or all of them when there are fewer.
pub open spec fn keep_last<T>(s: Seq<T>, n: nat) -> Seq<T> {
    if s.len() > n {
        s.subrange(s.len() - n, s.len() as int)
    } else {
        s
    }
}

/// The contents after adding each of `items` in turn to a buffer of `capacity`
/// that held `start`.
pub open spec fn after_adds<T>(start: Seq<T>, items: Seq<T>, capacity: nat) -> Seq<T>
    decreases items.len(),
{
    if items.len() == 0 {
        start
    } else {
        after_adds(keep_last(start.push(items[0]), capacity), items.drop_first(), capacity)
    }
}

/// A bounded history of the most recent entries.
#[derive(Debug, Clone)]
pub struct RollingBuffer<T> {
    capacity: usize,
    items: Vec<T>,
}

impl<T> View for RollingBuffer<T> {
    type V = Seq<T>;

    /// The entries held, oldest first.
    closed spec fn view(&self) -> Seq<T> {
        self.items@
    }
}

impl<T> RollingBuffer<T> {
    /// The most entries the buffer holds.
    pub closed spec fn spec_capacity(&self) -> nat {
        self.capacity as nat
    }

    /// The buffer never holds more than its capacity.
    pub closed spec fn wf(&self) -> bool {
        self.items@.len() <= self.capacity
    }

    /// An empty buffer that keeps at most `capacity` entries.
    pub fn new(capacity: usize) -> (r: Self)
        ensures
            r.wf(),
            r@ == Seq::<T>::empty(),
            r.spec_capacity() == capacity,
    {
        RollingBuffer { capacity, items: Vec::new() }
    }

    /// The most entries the buffer holds.
    pub fn capacity(&self) -> (r: usize)
        ensures
            r == self.spec_capacity(),
    {
        self.capacity
    }

    /// The number of entries held.
    pub fn len(&self) -> (r: usize)
        ensures
            r == self@.len(),
    {
        self.items.len()
    }

    /// The entry at position `i`, counting from the oldest.
    pub fn get(&self, i: usize) -> (r: &T)
        requires
            i < self@.len(),
        ensures
            *r == self@[i as int],
    {
        &self.items[i]
    }

    /// Adds `item` at the back, dropping the oldest entry when the buffer would
    /// hold more than its capacity.
    pub fn add(&mut self, item: T)
        requires
            old(self).wf(),
        ensures
            final(self).wf(),
            final(self).spec_capacity() == old(self).spec_capacity(),
            final(self)@ == keep_last(old(self)@.push(item), old(self).spec_capacity()),
    {
        let ghost pushed = self.items@.push(item);
        self.items.push(item);
        if self.items.len() > self.capacity {
            self.items.remove(0);
            assert(self.items@ =~= keep_last(pushed, self.capacity as nat));
        }
    }

    /// Takes the entries out, oldest first.
    pub fn into_values(self) -> (r: Vec<T>)
        ensures
            r@ == self@,
    {
        self.items
    }
}

impl<T: Clone> RollingBuffer<T> {
    /// A copy of the entries, oldest first; the buffer is left as it is.
    pub fn values(&self) -> (r: Vec<T>)
        ensures
            r@.len() == self@.len(),
            forall|i: int| 0 <= i < r@.len() ==> cloned::<T>(self@[i], #[trigger] r@[i]),
    {
        self.items.clone()
    }
}

/// Keeping the last `n` of what the last `n` of `s` and then `t` make is keeping
/// the last `n` of `s` and then `t`.
pub proof fn lemma_keep_last_append<T>(s: Seq<T>, t: Seq<T>, n: nat)
    ensures
        keep_last(keep_last(s, n) + t, n) == keep_last(s + t, n),
{
    if s.len() > n {
        let k = keep_last(s, n);
        assert((k + t).len() == n + t.len());
        if (s + t).len() > n {
            assert(keep_last(k + t, n) =~= keep_last(s + t, n));
        }
    }
}

/// Adding items one by one to a buffer leaves exactly the last `capacity` of
/// everything it held and was given, in the order they came.
pub proof fn lemma_after_adds<T>(start: Seq<T>, items: Seq<T>, capacity: nat)
    requires
        start.len() <= capacity,
    ensures
        after_adds(start, items, capacity) == keep_last(start + items, capacity),
    decreases items.len(),
{
    if items.len() == 0 {
        assert(start + items =~= start);
    } else {
        let next = keep_last(start.push(items[0]), capacity);
        lemma_after_adds(next, items.drop_first(), capacity);
        lemma_keep_last_append(start.push(items[0]), items.drop_first(), capacity);
        assert(start.push(items[0]) + items.drop_first() =~= start + items);
    }
}

/// Filling an empty buffer of capacity at least one with `capacity + k` items
/// keeps exactly the last `capacity` of them, in the order they were added.
pub proof fn lemma_rolling_keeps_last<T>(items: Seq<T>, capacity: nat)
    requires
        capacity >= 1,
        items.len() >= capacity,
    ensures
        after_adds(Seq::<T>::empty(), items, capacity) == items.subrange(
            items.len() - capacity,
            items.len() as int,
        ),
        after_adds(Seq::<T>::empty(), items, capacity).len() == capacity,
{
    lemma_after_adds(Seq::<T>::empty(), items, capacity);
    assert(Seq::<T>::empty() + items =~= items);
}

} // verus!
