use vstd::prelude::*;

verus! {

/// What can go wrong when a barrier is used.
#[derive(Debug, Clone, Copy, PartialEq, Eq, Structural)]
pub enum BarrierError {
    /// The barrier is closed.
    Closed,
}

/// What a barrier holds: a value that one side sets and the other side
/// waits for, and whether the barrier has been closed. Whoever shares a
/// barrier between threads keeps this state behind a lock and wakes the
/// waiting threads after every change.
#[derive(Debug)]
pub struct BarrierState<T> {
    /// The value that waiters test.
    pub data: T,
    /// Once closed, a barrier refuses every wait, update and close.
    pub is_closed: bool,
}

impl<T> BarrierState<T> {
    /// Creates the state of an open barrier.
    pub fn new(initial_data: T) -> (state: Self)
        ensures
            state.data == initial_data,
            !state.is_closed,
    {
        Self { data: initial_data, is_closed: false }
    }

    /// Closes the barrier. Closing a closed barrier is an error and
    /// changes nothing.
    pub fn close(&mut self) -> (result: Result<(), BarrierError>)
        ensures
            result is Err <==> old(self).is_closed,
            final(self).is_closed,
            final(self).data == old(self).data,
    {
        if self.is_closed {
            return Err(BarrierError::Closed);
        }
        self.is_closed = true;
        Ok(())
    }

    /// Replaces the value. On a closed barrier this is an error and
    /// changes nothing.
    pub fn set(&mut self, new_data: T) -> (result: Result<(), BarrierError>)
        ensures
            result is Err <==> old(self).is_closed,
            final(self).is_closed == old(self).is_closed,
            final(self).data == (if old(self).is_closed {
                old(self).data
            } else {
                new_data
            }),
    {
        if self.is_closed {
            return Err(BarrierError::Closed);
        }
        self.data = new_data;
        Ok(())
    }

    /// Decides what a waiter does next, given whether its predicate holds
    /// of the value: a closed barrier ends the wait with an error, whatever
    /// the predicate says; otherwise the wait is over when the predicate
    /// holds, and goes on when it does not.
    pub fn check_wait(&self, is_satisfied: bool) -> (result: Result<bool, BarrierError>)
        ensures
            result == (if self.is_closed {
                Err::<bool, BarrierError>(BarrierError::Closed)
            } else {
                Ok::<bool, BarrierError>(is_satisfied)
            }),
    {
        if self.is_closed {
            Err(BarrierError::Closed)
        } else {
            Ok(is_satisfied)
        }
    }
}

} // verus!
