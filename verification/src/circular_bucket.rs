use crate::mut_slice::front_mut;
use vstd::prelude::*;

verus! {

/// The slot that lies `offset` slots after `start` in a ring of `capacity`
/// slots, for a `start` inside the ring and an `offset` of at most one turn.
pub open spec fn ring_slot(start: int, offset: int, capacity: int) -> int {
    if start + offset >= capacity {
        start + offset - capacity
    } else {
        start + offset
    }
}

/// The newest `capacity` elements of a sequence.
pub open spec fn newest<T>(s: Seq<T>, capacity: nat) -> Seq<T> {
    if s.len() <= capacity {
        s
    } else {
        s.skip(s.len() - capacity)
    }
}

/// Appending to the newest elements and trimming again gives the newest
/// elements of the longer sequence.
pub proof fn lemma_newest_push<T>(s: Seq<T>, capacity: nat, value: T)
    requires
        capacity > 0,
    ensures
        newest(newest(s, capacity).push(value), capacity) == newest(s.push(value), capacity),
{
    assert(newest(newest(s, capacity).push(value), capacity) =~= newest(
        s.push(value),
        capacity,
    ));
}

/// A ring buffer with a fixed capacity and a current length.
///
/// Its view is the sequence of the retained elements, oldest first.
pub struct CircularBucket<T> {
    data: Vec<T>,
    index: usize,
    length: usize,
}

impl<T> View for CircularBucket<T> {
    type V = Seq<T>;

    closed spec fn view(&self) -> Seq<T> {
        Seq::new(
            self.length as nat,
            |i: int| self.data@[ring_slot(self.oldest(), i, self.data@.len() as int)],
        )
    }
}

impl<T> CircularBucket<T> {
    /// The retained length never exceeds the capacity, and the write
    /// position lies inside the ring.
    pub closed spec fn wf(&self) -> bool {
        &&& self.length <= self.data@.len()
        &&& (self.index < self.data@.len() || (self.data@.len() == 0 && self.index == 0))
    }

    /// The number of elements that the ring can hold.
    pub closed spec fn spec_capacity(&self) -> nat {
        self.data@.len()
    }

    /// The whole backing storage, in slot order.
    pub closed spec fn raw(&self) -> Seq<T> {
        self.data@
    }

    /// The slot of the oldest retained element.
    pub closed spec fn oldest(&self) -> int {
        ring_slot(
            self.index as int,
            self.data@.len() - self.length,
            self.data@.len() as int,
        )
    }

    /// The ring never retains more than its capacity.
    pub proof fn lemma_length_bounded(&self)
        requires
            self.wf(),
        ensures
            self@.len() <= self.spec_capacity(),
    {
    }

    /// The retained elements lie in the backing storage from the slot of
    /// the oldest on, around the end of the storage and back to its start.
    pub proof fn lemma_view_lies_in_raw(&self, i: int)
        requires
            self.wf(),
            0 <= i < self@.len(),
        ensures
            self.raw().len() == self.spec_capacity(),
            0 <= self.oldest() < self.spec_capacity(),
            0 <= ring_slot(self.oldest(), i, self.spec_capacity() as int) < self.spec_capacity(),
            self@[i] == self.raw()[ring_slot(self.oldest(), i, self.spec_capacity() as int)],
    {
    }

    /// Empties the ring and moves the write position to the first slot,
    /// without releasing the storage.
    pub fn reset(&mut self)
        ensures
            final(self)@ == Seq::<T>::empty(),
            final(self).spec_capacity() == old(self).spec_capacity(),
            final(self).raw() == old(self).raw(),
            final(self).wf(),
    {
        self.index = 0;
        self.length = 0;
        assert(self@ =~= Seq::<T>::empty());
    }

    /// The number of elements retained.
    pub fn length(&self) -> (n: usize)
        requires
            self.wf(),
        ensures
            n == self@.len(),
    {
        self.length
    }

    /// The number of elements that the ring can hold.
    pub fn capacity(&self) -> (n: usize)
        ensures
            n == self.spec_capacity(),
    {
        self.data.len()
    }

    /// Whether the ring retains as many elements as it can hold.
    pub fn is_full(&self) -> (full: bool)
        requires
            self.wf(),
        ensures
            full <==> self@.len() == self.spec_capacity(),
    {
        self.length == self.data.len()
    }

    /// A cursor over the retained elements, oldest first.
    pub fn iter<'a>(&'a self) -> (it: Iter<'a, T>)
        requires
            self.wf(),
        ensures
            it.wf(),
            it.remaining() == self@,
    {
        let capacity: usize = self.data.len();
        let unused: usize = capacity - self.length;
        let start: usize = if unused >= capacity - self.index {
            unused - (capacity - self.index)
        } else {
            self.index + unused
        };
        let it = Iter {
            data: self.data.as_slice(),
            index: start,
            capacity,
            remain_length: self.length,
        };
        assert(it.remaining() =~= self@);
        it
    }

    /// The whole backing storage as a slice, in slot order.
    pub fn raw_slice(&self) -> (s: &[T])
        ensures
            s@ == self.raw(),
            s@.len() == self.spec_capacity(),
    {
        self.data.as_slice()
    }

    /// The whole backing storage as a mutable slice, in slot order. The
    /// length and the write position stay as they are: what is written to
    /// the slot of a retained element replaces that element.
    pub fn raw_slice_mut(&mut self) -> (s: &mut [T])
        requires
            old(self).wf(),
        ensures
            s@ == old(self).raw(),
            s@.len() == old(self).spec_capacity(),
            final(s)@.len() == s@.len(),
            final(self).raw() == final(s)@,
            final(self)@.len() == old(self)@.len(),
            final(self).oldest() == old(self).oldest(),
            final(self).spec_capacity() == old(self).spec_capacity(),
            final(self).wf(),
    {
        let capacity: usize = self.data.len();
        front_mut(&mut self.data, capacity)
    }

    /// The retained element at a position, counted from the oldest.
    pub fn get(&self, index: usize) -> (value: &T)
        requires
            self.wf(),
            index < self@.len(),
        ensures
            *value == self@[index as int],
    {
        let capacity: usize = self.data.len();
        let unused: usize = capacity - self.length;
        let start: usize = if unused >= capacity - self.index {
            unused - (capacity - self.index)
        } else {
            self.index + unused
        };
        let slot: usize = if index >= capacity - start {
            index - (capacity - start)
        } else {
            start + index
        };
        &self.data[slot]
    }

    /// Replaces the retained element at a position, counted from the oldest.
    pub fn set(&mut self, index: usize, value: T)
        requires
            old(self).wf(),
            index < old(self)@.len(),
        ensures
            final(self).wf(),
            final(self).spec_capacity() == old(self).spec_capacity(),
            final(self)@ == old(self)@.update(index as int, value),
    {
        let capacity: usize = self.data.len();
        let unused: usize = capacity - self.length;
        let start: usize = if unused >= capacity - self.index {
            unused - (capacity - self.index)
        } else {
            self.index + unused
        };
        let slot: usize = if index >= capacity - start {
            index - (capacity - start)
        } else {
            start + index
        };
        self.data[slot] = value;
        assert(self@ =~= old(self)@.update(index as int, value));
    }

    /// Writes one element at the write position; a full ring loses its
    /// oldest element.
    fn push(&mut self, value: T)
        requires
            old(self).wf(),
            old(self).spec_capacity() > 0,
        ensures
            final(self).wf(),
            final(self).spec_capacity() == old(self).spec_capacity(),
            final(self)@ == newest(old(self)@.push(value), old(self).spec_capacity()),
    {
        let capacity: usize = self.data.len();
        self.data[self.index] = value;
        self.index = if self.index + 1 == capacity {
            0
        } else {
            self.index + 1
        };
        if self.length < capacity {
            self.length += 1;
        }
        assert(self@ =~= newest(old(self)@.push(value), old(self).spec_capacity()));
    }
}

impl<T: Default + Copy> CircularBucket<T> {
    /// Creates an empty ring of the given capacity.
    pub fn new(capacity: usize) -> (bucket: Self)
        ensures
            bucket.wf(),
            bucket@ == Seq::<T>::empty(),
            bucket.spec_capacity() == capacity,
    {
        let bucket = Self { data: vec![T::default(); capacity], index: 0, length: 0 };
        assert(bucket@ =~= Seq::<T>::empty());
        bucket
    }

    /// Copies the front of `buf` into the ring and returns the number of
    /// elements copied. With `consume_all` the whole of `buf` is copied and
    /// the ring keeps the newest elements; without it copying stops when the
    /// ring is full.
    pub fn consume(&mut self, buf: &[T], consume_all: bool) -> (total_read: usize)
        requires
            old(self).wf(),
        ensures
            final(self).wf(),
            final(self).spec_capacity() == old(self).spec_capacity(),
            total_read == (if consume_all {
                buf@.len() as int
            } else {
                vstd::math::min(old(self).spec_capacity() - old(self)@.len(), buf@.len() as int)
            }),
            final(self)@ == newest(
                old(self)@ + buf@.take(total_read as int),
                old(self).spec_capacity(),
            ),
    {
        let capacity: usize = self.data.len();
        let remain: usize = capacity - self.length;
        let total_read: usize = if consume_all || buf.len() < remain {
            buf.len()
        } else {
            remain
        };
        if capacity == 0 {
            assert(self@ =~= newest(old(self)@ + buf@.take(total_read as int), 0));
            return total_read;
        }
        assert(old(self)@ + buf@.take(0) =~= old(self)@);
        let mut i: usize = 0;
        while i < total_read
            invariant
                i <= total_read <= buf@.len(),
                self.wf(),
                self.spec_capacity() == capacity,
                capacity > 0,
                self@ == newest(old(self)@ + buf@.take(i as int), capacity as nat),
            decreases total_read - i,
        {
            proof {
                lemma_newest_push(old(self)@ + buf@.take(i as int), capacity as nat, buf@[i as int]);
                assert((old(self)@ + buf@.take(i as int)).push(buf@[i as int]) =~= old(self)@
                    + buf@.take(i + 1));
            }
            self.push(buf[i]);
            i += 1;
        }
        total_read
    }
}

/// A cursor over the retained elements of a ring, oldest first.
pub struct Iter<'a, T> {
    data: &'a [T],
    index: usize,
    capacity: usize,
    remain_length: usize,
}

impl<'a, T> Iter<'a, T> {
    /// The cursor lies inside its ring and has at most one turn left.
    pub closed spec fn wf(&self) -> bool {
        &&& self.data@.len() == self.capacity
        &&& self.remain_length <= self.capacity
        &&& (self.index < self.capacity || (self.capacity == 0 && self.index == 0))
    }

    /// The elements that the cursor has yet to yield, in order.
    pub closed spec fn remaining(&self) -> Seq<T> {
        Seq::new(
            self.remain_length as nat,
            |j: int| self.data@[ring_slot(self.index as int, j, self.capacity as int)],
        )
    }

    /// Yields the next element, or `None` when none is left.
    pub fn next(&mut self) -> (item: Option<&'a T>)
        requires
            old(self).wf(),
        ensures
            final(self).wf(),
            match item {
                Some(value) => {
                    &&& old(self).remaining().len() > 0
                    &&& *value == old(self).remaining()[0]
                    &&& final(self).remaining() == old(self).remaining().skip(1)
                },
                None => {
                    &&& old(self).remaining().len() == 0
                    &&& final(self).remaining() == old(self).remaining()
                },
            },
    {
        if self.remain_length == 0 {
            return None;
        }
        let value = &self.data[self.index];
        self.index = if self.index + 1 == self.capacity {
            0
        } else {
            self.index + 1
        };
        self.remain_length -= 1;
        assert(self.remaining() =~= old(self).remaining().skip(1));
        Some(value)
    }
}

} // verus!
