//! The polling watcher's run-flag state machine.
//!
//! The running watcher shares this flag between the controller and one
//! background loop behind a lock; the thread, the lock and the fixed
//! one-second sleep are concurrency plumbing that lives outside the crate.
//! The decisions — what each call does to the flag, and that the loop
//! continues exactly while the flag is set — are verified here.
use vstd::prelude::*;

use super::SerialPortWatcher;

verus! {

/// A polling watcher: stopped or running, as its run flag says.
pub struct SerialPortPollWatcher {
    pub polling: bool,
}

impl SerialPortWatcher for SerialPortPollWatcher {
    open spec fn spec_polling(&self) -> bool {
        self.polling
    }

    fn new() -> (r: Self) {
        SerialPortPollWatcher { polling: false }
    }

    fn watch(&mut self) {
        self.polling = true;
    }

    fn unwatch(&mut self) {
        self.polling = false;
    }
}

impl SerialPortPollWatcher {
    /// The check the loop makes at each tick boundary, before working and
    /// again after sleeping: tick exactly while the run flag is set.
    pub fn should_continue(&self) -> (r: bool)
        ensures
            r == self.spec_polling(),
    {
        self.polling
    }
}

} // verus!
