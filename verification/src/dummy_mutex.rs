//! A lock in name only, for a value that is never contended.

use vstd::prelude::*;

verus! {

/// Guards a value without locking: exclusive access to the guard is
/// exclusive access to the value.
pub struct DummyMutex<T> {
    data: T,
}

impl<T> DummyMutex<T> {
    /// The guarded value.
    pub closed spec fn view(&self) -> T {
        self.data
    }

    /// A guard around `data`.
    pub fn new(data: T) -> (mutex: DummyMutex<T>)
        ensures
            mutex@ == data,
    {
        DummyMutex { data }
    }

    /// The guarded value, to be changed in place.
    pub fn get_mut(&mut self) -> (data: &mut T)
        ensures
            *data == old(self)@,
            final(self)@ == *final(data),
    {
        &mut self.data
    }

    /// The guarded value.
    pub fn get(&self) -> (data: &T)
        ensures
            *data == self@,
    {
        &self.data
    }
}

} // verus!
