//! The generic polling change-watcher.
//!
//! A watcher owns a run flag and an event-handler capability. While the
//! flag is set, a background loop invokes the handler once per tick and
//! sleeps a fixed interval; clearing the flag stops the loop at the next
//! tick boundary. The thread, the sleep and the handler's outside work live
//! beyond this crate; verified here are the run-flag state machine, the
//! notify-only-on-change tick rule, and the laws that govern a whole run:
//! an unchanged snapshot produces no notification, a changed one produces
//! exactly one carrying the full current snapshot, and once the flag is
//! clear no further tick contributes anything.
use vstd::prelude::*;

pub mod poll;

verus! {

/// The event-handler capability a watcher drives: one operation, invoked
/// once per tick by the owning loop. Implementations do the outside work of
/// a tick (re-enumerating a data source, delivering notifications).
pub trait SerialPortEventHandler: Send + 'static {
    fn handle_event(&mut self);
}

/// A start/stoppable polling watcher. `spec_polling` is the run flag: the
/// background loop keeps ticking exactly while it is set.
pub trait SerialPortWatcher: Sized {
    spec fn spec_polling(&self) -> bool;

    /// A fresh watcher is stopped.
    fn new() -> (r: Self)
        ensures
            !r.spec_polling(),
    ;

    /// Transition to running: the polling loop may tick.
    fn watch(&mut self)
        ensures
            final(self).spec_polling(),
    ;

    /// Clear the run flag. A tick already in progress finishes; the loop
    /// exits at the next boundary, within one poll interval.
    fn unwatch(&mut self)
        ensures
            !final(self).spec_polling(),
    ;
}

/// The watcher implementation the rest of the crate names.
pub type SerialPortWatcherImpl = poll::SerialPortPollWatcher;

/// One tick of the change-diffing rule: compare the freshly polled
/// snapshot with the one remembered from the previous tick; on any
/// difference (exact sequence equality — reordering counts as a change)
/// remember the new snapshot and notify, otherwise stay silent.
/// Returns the remembered snapshot after the tick and whether it notified.
pub open spec fn spec_tick<T>(last: Seq<T>, current: Seq<T>) -> (Seq<T>, bool) {
    if current != last {
        (current, true)
    } else {
        (last, false)
    }
}

/// The notifications of a whole polling run, starting at tick boundary `i`
/// remembering `last`: `flags[j]` is the run flag as observed at boundary
/// `j`, `snaps[j]` the snapshot the handler would poll at tick `j`. The
/// loop stops at the first boundary whose flag is clear.
pub open spec fn spec_watch_notes<T>(
    last: Seq<T>,
    flags: Seq<bool>,
    snaps: Seq<Seq<T>>,
    i: int,
) -> Seq<Seq<T>>
    decreases flags.len() - i,
{
    if i < 0 || i >= flags.len() || i >= snaps.len() || !flags[i] {
        seq![]
    } else {
        let stepped = spec_tick(last, snaps[i]);
        (if stepped.1 {
            seq![snaps[i]]
        } else {
            seq![]
        }) + spec_watch_notes(stepped.0, flags, snaps, i + 1)
    }
}

/// Ticking over an unchanged snapshot notifies nothing: after any tick
/// polled `s`, a second consecutive tick that polls `s` again is silent
/// and remembers `s` unchanged.
pub proof fn lemma_unchanged_tick_silent<T>(last: Seq<T>, s: Seq<T>)
    ensures
        spec_tick(spec_tick(last, s).0, s) == (s, false),
{
}

/// A tick whose polled snapshot differs from the remembered one — for
/// example, exactly one device's derived state changed — produces exactly
/// one notification, and that notification carries the full current
/// snapshot.
pub proof fn lemma_changed_tick_notifies<T>(last: Seq<T>, current: Seq<T>)
    requires
        current != last,
    ensures
        spec_tick(last, current) == (current, true),
{
}

/// Once the run flag is clear from boundary `k` on, the run's
/// notifications are exactly those of the run truncated at `k`: no tick at
/// or after `k` contributes anything, however the data source behaves
/// there.
pub proof fn lemma_unwatch_silences<T>(
    last: Seq<T>,
    flags: Seq<bool>,
    snaps: Seq<Seq<T>>,
    i: int,
    k: int,
)
    requires
        0 <= i,
        i <= k <= flags.len(),
        flags.len() == snaps.len(),
        forall|j: int| k <= j < flags.len() ==> !flags[j],
    ensures
        spec_watch_notes(last, flags, snaps, i) == spec_watch_notes(
            last,
            flags.subrange(0, k),
            snaps.subrange(0, k),
            i,
        ),
    decreases k - i,
{
    let truncated = spec_watch_notes(last, flags.subrange(0, k), snaps.subrange(0, k), i);
    if i >= k {
        assert(spec_watch_notes(last, flags, snaps, i) =~= seq![]);
        assert(truncated =~= seq![]);
    } else {
        let stepped = spec_tick(last, snaps[i]);
        lemma_unwatch_silences(stepped.0, flags, snaps, i + 1, k);
    }
}

} // verus!
