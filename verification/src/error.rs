//! What can go wrong in one watcher cycle.

use vstd::prelude::*;

verus! {

/// A failure of one read, decode and dispatch cycle. None of them ends the
/// watcher: the cycle is given up and the watcher waits for the next change.
#[derive(Clone, Copy, Debug, PartialEq, Eq, Structural)]
pub enum WatchError {
    /// The line has too few fields to hold a trade.
    MalformedRecord,
    /// The log could not be opened or read, or it is shorter than the cursor.
    FileAccessFailure,
    /// The sink did not take the notification.
    DeliveryFailure,
}

} // verus!
