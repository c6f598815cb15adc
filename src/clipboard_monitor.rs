//! State of the clipboard watcher: the last selection seen and the quiet
//! time between two checks.

use vstd::prelude::*;

verus! {

/// The quiet time between two clipboard checks, in milliseconds.
pub const DEBOUNCE_MILLIS: u64 = 500;

/// What the clipboard watcher remembers between checks.
pub struct ClipboardMonitor {
    /// The last selection seen.
    pub last_selection: String,
    /// The quiet time between two checks, in milliseconds.
    pub debounce_millis: u64,
}

impl ClipboardMonitor {
    /// A watcher that has seen nothing yet.
    pub fn new() -> (r: Self)
        ensures
            r.last_selection@ == Seq::<char>::empty(),
            r.debounce_millis == DEBOUNCE_MILLIS,
    {
        ClipboardMonitor { last_selection: String::new(), debounce_millis: DEBOUNCE_MILLIS }
    }
}

} // verus!
