//! The cursor tracker: how far into its log a source has been read.

use vstd::prelude::*;

verus! {

/// The byte offset up to which a log has been consumed. It is set when the
/// watcher starts and moves forward only.
#[derive(Clone, Copy, Debug, PartialEq, Eq)]
pub struct Cursor {
    offset: u64,
}

impl View for Cursor {
    type V = nat;

    closed spec fn view(&self) -> nat {
        self.offset as nat
    }
}

impl Cursor {
    /// A cursor at `start`, the length of the log when watching begins.
    pub fn new(start: u64) -> (cursor: Cursor)
        ensures
            cursor@ == start,
    {
        Cursor { offset: start }
    }

    /// The offset tracked now.
    pub fn offset(&self) -> (offset: u64)
        ensures
            offset == self@,
    {
        self.offset
    }

    /// Moves the cursor to `new_length`. A length below the cursor leaves it
    /// where it is: the cursor never moves back.
    pub fn advance(&mut self, new_length: u64)
        ensures
            final(self)@ == if new_length >= old(self)@ {
                new_length as nat
            } else {
                old(self)@
            },
            final(self)@ >= old(self)@,
        no_unwind
    {
        if new_length >= self.offset {
            self.offset = new_length;
        }
    }
}

} // verus!
