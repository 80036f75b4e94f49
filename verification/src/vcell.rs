//! Cells of DMA-visible memory.
//!
//! A `VCell` stands for one memory location that both the driver and the EHCI
//! controller access. The cell holds the value that the driver last loaded from,
//! or decided to store to, that location.

use vstd::prelude::*;

verus! {

/// A memory location of a DMA structure.
#[derive(Debug, PartialEq, Eq)]
pub struct VCell<T>(pub T);

impl<T: Copy> Clone for VCell<T> {
    fn clone(&self) -> (cell: Self)
        ensures
            cell == *self,
    {
        *self
    }
}

impl<T: Copy> Copy for VCell<T> {

}

impl<T> VCell<T> {
    /// The value that the cell holds.
    pub open spec fn view(self) -> T {
        self.0
    }

    /// Construct a `VCell` that's initialized to `val`.
    pub fn new(val: T) -> (cell: Self)
        ensures
            cell@ == val,
    {
        VCell(val)
    }
}

impl<T: Copy> VCell<T> {
    /// The value at this memory location.
    pub fn read(&self) -> (val: T)
        ensures
            val == self@,
    {
        self.0
    }

    /// Set the value at this memory location.
    pub fn write(&mut self, val: T)
        ensures
            final(self)@ == val,
    {
        self.0 = val;
    }
}

} // verus!
