//! The change watcher: it compares the clipboard's change count with the one
//! it saw last and asks for a capture only when the two differ.

use vstd::prelude::*;

verus! {

/// How long the watcher sleeps between two looks at the change count, in
/// milliseconds.
pub const CLIPBOARD_POLL_INTERVAL_MS: u64 = 500;

/// What the watcher remembers between two looks: the change count it saw
/// last.
#[derive(Debug)]
pub struct ChangeWatcher {
    pub last_count: i64,
}

impl ChangeWatcher {
    /// A watcher that has seen `count`.
    pub fn new(count: i64) -> (watcher: ChangeWatcher)
        ensures
            watcher.last_count == count,
    {
        ChangeWatcher { last_count: count }
    }

    /// Takes note of the current change count and says whether the clipboard
    /// is to be read: it is when the count differs from the one seen last.
    /// Either way the watcher has then seen `count`.
    pub fn observe(&mut self, count: i64) -> (changed: bool)
        ensures
            changed == (count != old(self).last_count),
            final(self).last_count == count,
    {
        let changed = count != self.last_count;
        self.last_count = count;
        changed
    }
}

} // verus!
