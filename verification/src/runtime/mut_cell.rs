//! A cell around a value that one thread at a time works on.

use vstd::prelude::*;

verus! {

/// Holds a value for whoever has the cell: shared access to read it,
/// exclusive access to change it.
pub struct MutCell<T> {
    data: T,
}

impl<T> MutCell<T> {
    /// The value in the cell.
    pub closed spec fn view(&self) -> T {
        self.data
    }

    /// A cell that holds `data`.
    pub fn new(data: T) -> (cell: MutCell<T>)
        ensures
            cell@ == data,
    {
        MutCell { data }
    }

    /// The value in the cell, to be changed in place.
    pub fn get_mut(&mut self) -> (data: &mut T)
        ensures
            *data == old(self)@,
            final(self)@ == *final(data),
    {
        &mut self.data
    }

    /// The value in the cell.
    pub fn get(&self) -> (data: &T)
        ensures
            *data == self@,
    {
        &self.data
    }
}

} // verus!
