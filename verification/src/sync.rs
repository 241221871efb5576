use vstd::prelude::*;

verus! {

/// A cell for data that lives on a single hart and is accessed by one
/// borrower at a time.
///
/// Exclusive access is granted through `&mut`, so the borrow checker
/// enforces at compile time the single-borrower rule that a run-time
/// flag would otherwise check.
pub struct UPSafeCell<T> {
    inner: T,
}

impl<T> UPSafeCell<T> {
    /// The value held by the cell.
    pub closed spec fn value(&self) -> T {
        self.inner
    }

    /// Wraps `value` in a cell.
    pub fn new(value: T) -> (cell: Self)
        ensures
            cell.value() == value,
    {
        UPSafeCell { inner: value }
    }

    /// Shared access to the held value, for reading.
    pub fn get(&self) -> (r: &T)
        ensures
            *r == self.value(),
    {
        &self.inner
    }

    /// Exclusive access to the held value: the reference starts at the
    /// current value, and whatever it holds when the borrow ends is the
    /// cell's new value.
    pub fn access(&mut self) -> (r: &mut T)
        ensures
            *r == old(self).value(),
            final(self).value() == *final(r),
    {
        &mut self.inner
    }
}

} // verus!
