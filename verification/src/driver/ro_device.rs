//! A device that clients can only read.

use crate::device::ReadWriteCompat;
use vstd::prelude::*;

verus! {

/// A device that only its driver writes to.
#[derive(Debug)]
pub struct ReadOnlyDevice<T> {
    /// The value that was reported last.
    pub last: Option<T>,
}

impl<T: ReadWriteCompat> ReadOnlyDevice<T> {
    /// A device that has not reported anything yet.
    pub fn new() -> (r: Self)
        ensures
            r.last is None,
    {
        ReadOnlyDevice { last: None }
    }

    /// Takes note of a reading. Returns the value to be written to the backend.
    pub fn report_update(&mut self, value: T) -> (r: T)
        ensures
            r == value,
            final(self).last == Some(value),
    {
        self.last = Some(value.duplicate());
        value
    }
}

} // verus!
