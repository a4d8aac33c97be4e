use crate::circular_bucket::Iter;
use crate::mut_slice::front_mut;
use vstd::prelude::*;

verus! {

/// A linear buffer with a fixed capacity and a current length.
///
/// Its view is the sequence of the elements stored so far, oldest first.
pub struct LinearBucket<T> {
    data: Vec<T>,
    length: usize,
}

impl<T> View for LinearBucket<T> {
    type V = Seq<T>;

    closed spec fn view(&self) -> Seq<T> {
        self.data@.take(self.length as int)
    }
}

impl<T> LinearBucket<T> {
    /// The stored length never exceeds the capacity.
    pub closed spec fn wf(&self) -> bool {
        self.length <= self.data@.len()
    }

    /// The number of elements that the buffer can hold.
    pub closed spec fn spec_capacity(&self) -> nat {
        self.data@.len()
    }

    /// The whole backing storage, including the slots that are not in use.
    pub closed spec fn raw(&self) -> Seq<T> {
        self.data@
    }

    /// The stored elements are the front of the backing storage.
    pub proof fn lemma_view_is_front_of_raw(&self)
        requires
            self.wf(),
        ensures
            self@.len() <= self.spec_capacity(),
            self.raw().len() == self.spec_capacity(),
            self@ == self.raw().take(self@.len() as int),
    {
    }

    /// Empties the buffer without releasing its storage.
    pub fn reset(&mut self)
        ensures
            final(self)@ == Seq::<T>::empty(),
            final(self).spec_capacity() == old(self).spec_capacity(),
            final(self).raw() == old(self).raw(),
            final(self).wf(),
    {
        self.length = 0;
    }

    /// The number of elements stored.
    pub fn length(&self) -> (n: usize)
        requires
            self.wf(),
        ensures
            n == self@.len(),
    {
        self.length
    }

    /// The number of elements that the buffer can hold.
    pub fn capacity(&self) -> (n: usize)
        ensures
            n == self.spec_capacity(),
    {
        self.data.len()
    }

    /// Whether no further element fits.
    pub fn is_full(&self) -> (full: bool)
        requires
            self.wf(),
        ensures
            full <==> self@.len() == self.spec_capacity(),
    {
        self.length == self.data.len()
    }

    /// The stored elements as a slice.
    pub fn iter(&self) -> (s: &[T])
        requires
            self.wf(),
        ensures
            s@ == self@,
    {
        vstd::slice::slice_subrange(self.data.as_slice(), 0, self.length)
    }

    /// The stored elements as a mutable slice. What is written through it
    /// replaces the stored elements; the unused slots keep their contents.
    pub fn iter_mut(&mut self) -> (s: &mut [T])
        requires
            old(self).wf(),
        ensures
            s@ == old(self)@,
            final(s)@.len() == s@.len(),
            final(self)@ == final(s)@,
            final(self).raw() == final(s)@ + old(self).raw().skip(old(self)@.len() as int),
            final(self).spec_capacity() == old(self).spec_capacity(),
            final(self).wf(),
    {
        front_mut(&mut self.data, self.length)
    }

    /// The whole backing storage as a slice.
    pub fn raw_slice(&self) -> (s: &[T])
        ensures
            s@ == self.raw(),
            s@.len() == self.spec_capacity(),
    {
        self.data.as_slice()
    }

    /// The whole backing storage as a mutable slice. The length stays as
    /// it is: what is written to the slots in use replaces the stored
    /// elements.
    pub fn raw_slice_mut(&mut self) -> (s: &mut [T])
        requires
            old(self).wf(),
        ensures
            s@ == old(self).raw(),
            s@.len() == old(self).spec_capacity(),
            final(s)@.len() == s@.len(),
            final(self).raw() == final(s)@,
            final(self)@ == final(s)@.take(old(self)@.len() as int),
            final(self).spec_capacity() == old(self).spec_capacity(),
            final(self).wf(),
    {
        let capacity: usize = self.data.len();
        front_mut(&mut self.data, capacity)
    }

    /// The element stored at a position.
    pub fn get(&self, index: usize) -> (value: &T)
        requires
            self.wf(),
            index < self@.len(),
        ensures
            *value == self@[index as int],
    {
        &self.data[index]
    }

    /// Replaces the element stored at a position.
    pub fn set(&mut self, index: usize, value: T)
        requires
            old(self).wf(),
            index < old(self)@.len(),
        ensures
            final(self).wf(),
            final(self).spec_capacity() == old(self).spec_capacity(),
            final(self)@ == old(self)@.update(index as int, value),
    {
        self.data[index] = value;
        assert(self@ =~= old(self)@.update(index as int, value));
    }
}

impl<T: Default + Copy> LinearBucket<T> {
    /// Creates an empty buffer of the given capacity.
    pub fn new(capacity: usize) -> (bucket: Self)
        ensures
            bucket.wf(),
            bucket@ == Seq::<T>::empty(),
            bucket.spec_capacity() == capacity,
    {
        Self { data: vec![T::default(); capacity], length: 0 }
    }

    /// Copies the front of `buf` into the buffer until it is full, and
    /// returns the number of elements copied.
    pub fn consume(&mut self, buf: &[T]) -> (total_read: usize)
        requires
            old(self).wf(),
        ensures
            final(self).wf(),
            final(self).spec_capacity() == old(self).spec_capacity(),
            total_read == vstd::math::min(
                old(self).spec_capacity() - old(self)@.len(),
                buf@.len() as int,
            ),
            final(self)@ == old(self)@ + buf@.take(total_read as int),
    {
        let remain: usize = self.data.len() - self.length;
        let total_read: usize = if buf.len() < remain {
            buf.len()
        } else {
            remain
        };
        let start: usize = self.length;
        let mut i: usize = 0;
        while i < total_read
            invariant
                i <= total_read,
                start + total_read <= usize::MAX,
                start + total_read <= self.data@.len(),
                total_read <= buf@.len(),
                self.length == start,
                self.data@.len() == old(self).data@.len(),
                self.data@.take(start as int) == old(self).data@.take(start as int),
                self.data@.subrange(start as int, start + i) == buf@.take(i as int),
            decreases total_read - i,
        {
            self.data[start + i] = buf[i];
            i += 1;
            assert(self.data@.take(start as int) =~= old(self).data@.take(start as int));
            assert(self.data@.subrange(start as int, start + i) =~= buf@.take(i as int));
        }
        self.length = start + total_read;
        assert(self@ =~= old(self)@ + buf@.take(total_read as int));
        total_read
    }

    /// Takes elements from a ring iterator until the buffer is full or the
    /// iterator is exhausted, and returns the number of elements taken.
    pub fn consume_from_iterator(&mut self, iter: Iter<'_, T>) -> (total_read: usize)
        requires
            old(self).wf(),
            iter.wf(),
        ensures
            final(self).wf(),
            final(self).spec_capacity() == old(self).spec_capacity(),
            total_read == vstd::math::min(
                old(self).spec_capacity() - old(self)@.len(),
                iter.remaining().len() as int,
            ),
            final(self)@ == old(self)@ + iter.remaining().take(total_read as int),
    {
        let mut iter = iter;
        let ghost source = iter.remaining();
        let mut total_read: usize = 0;
        loop
            invariant
                self.wf(),
                iter.wf(),
                self.data@.len() == old(self).data@.len(),
                self.length == old(self).length + total_read,
                total_read <= source.len(),
                iter.remaining() == source.skip(total_read as int),
                self@ == old(self)@ + source.take(total_read as int),
            ensures
                total_read == vstd::math::min(
                    old(self).spec_capacity() - old(self)@.len(),
                    source.len() as int,
                ),
            decreases self.data@.len() - self.length,
        {
            if self.length == self.data.len() {
                break ;
            }
            let value = match iter.next() {
                None => {
                    break ;
                },
                Some(value) => *value,
            };
            let ghost before = self@;
            self.data[self.length] = value;
            self.length += 1;
            total_read += 1;
            assert(self@ =~= before.push(value));
            assert(source.take(total_read as int) =~= source.take(total_read - 1).push(value));
            assert(self@ =~= old(self)@ + source.take(total_read as int));
        }
        total_read
    }
}

} // verus!
