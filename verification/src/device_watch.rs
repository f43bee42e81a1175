//! The device-list specialization of the change-watcher.
//!
//! Each tick re-enumerates the attached devices and diffs the result, by
//! exact sequence equality, against the previous tick's; only a change is
//! notified, and the notification carries the full current device list.
//! The enumeration itself and the channel that delivers notifications are
//! outside work; the diffing decision of each tick, and the whole-run
//! behaviour of the loop around it, are verified here against
//! [`crate::serialport_watcher::spec_tick`].
use vstd::prelude::*;

use crate::device::{Device, DeviceModel};
use crate::serialport_watcher::{spec_tick, spec_watch_notes, SerialPortWatcherImpl};

verus! {

/// The mathematical value of a device-list snapshot.
pub open spec fn snapshot_model(v: Seq<Device>) -> Seq<DeviceModel> {
    v.map_values(|d: Device| d@)
}

/// Exact value equality of two device lists, as the diffing rule uses it.
pub fn devices_eq(a: &Vec<Device>, b: &Vec<Device>) -> (r: bool)
    ensures
        r == (snapshot_model(a@) == snapshot_model(b@)),
{
    if a.len() != b.len() {
        assert(snapshot_model(a@).len() != snapshot_model(b@).len());
        return false;
    }
    let n = a.len();
    let mut i: usize = 0;
    while i < n
        invariant
            i <= n,
            n == a@.len(),
            n == b@.len(),
            forall|j: int| 0 <= j < i ==> (#[trigger] a@[j]@) == b@[j]@,
        decreases n - i,
    {
        let same_id = crate::text::str_eq(a[i].identifier.as_str(), b[i].identifier.as_str());
        let same_state = a[i].state == b[i].state;
        if !(same_id && same_state) {
            assert(snapshot_model(a@)[i as int] != snapshot_model(b@)[i as int]);
            return false;
        }
        i = i + 1;
    }
    assert(snapshot_model(a@) =~= snapshot_model(b@));
    true
}

/// A copy of a device list with the same value.
pub fn clone_devices(v: &Vec<Device>) -> (r: Vec<Device>)
    ensures
        snapshot_model(r@) == snapshot_model(v@),
{
    let mut out: Vec<Device> = Vec::new();
    let n = v.len();
    let mut i: usize = 0;
    while i < n
        invariant
            i <= n,
            n == v@.len(),
            out@.len() == i,
            forall|j: int| 0 <= j < i ==> (#[trigger] out@[j]@) == v@[j]@,
        decreases n - i,
    {
        out.push(v[i].clone());
        i = i + 1;
    }
    assert(snapshot_model(out@) =~= snapshot_model(v@));
    out
}

/// The per-tick state of the device watcher's handler: the snapshot
/// remembered from the previous tick.
pub struct WatcherHandler {
    pub last_devices: Vec<Device>,
}

impl WatcherHandler {
    /// A fresh handler remembers the empty snapshot, so the first tick of
    /// a watch over a non-empty device list notifies.
    pub fn new() -> (r: WatcherHandler)
        ensures
            snapshot_model(r.last_devices@) == Seq::<DeviceModel>::empty(),
    {
        let r = WatcherHandler { last_devices: Vec::new() };
        proof {
            assert(snapshot_model(r.last_devices@) =~= Seq::<DeviceModel>::empty());
        }
        r
    }

    /// One tick: diff the freshly enumerated `current_devices` against the
    /// previous tick's snapshot. Exactly the tick rule: on any value
    /// difference, remember the new snapshot and hand back the full list
    /// to be sent; otherwise change nothing and send nothing.
    pub fn handle_event(&mut self, current_devices: Vec<Device>) -> (notification: Option<
        Vec<Device>,
    >)
        ensures
            ({
                let stepped = spec_tick(
                    snapshot_model(old(self).last_devices@),
                    snapshot_model(current_devices@),
                );
                &&& snapshot_model(final(self).last_devices@) == stepped.0
                &&& match notification {
                    Some(sent) => stepped.1 && snapshot_model(sent@) == snapshot_model(
                        current_devices@,
                    ),
                    None => !stepped.1,
                }
            }),
    {
        if devices_eq(&current_devices, &self.last_devices) {
            None
        } else {
            self.last_devices = clone_devices(&current_devices);
            Some(current_devices)
        }
    }
}

/// A whole polling run of the device watcher, against a recorded behaviour
/// of the outside world: `flags[i]` is the run flag as observed at tick
/// boundary `i`, `snapshots[i]` what enumeration would return at tick `i`.
/// The returned lists are the notifications the run sends, in order —
/// exactly the model's.
pub fn run_watch_loop(
    handler: &mut WatcherHandler,
    flags: &Vec<bool>,
    snapshots: &Vec<Vec<Device>>,
) -> (notes: Vec<Vec<Device>>)
    requires
        flags@.len() == snapshots@.len(),
    ensures
        notes@.map_values(|v: Vec<Device>| snapshot_model(v@)) == spec_watch_notes(
            snapshot_model(old(handler).last_devices@),
            flags@,
            snapshots@.map_values(|v: Vec<Device>| snapshot_model(v@)),
            0,
        ),
{
    let ghost snap_models = snapshots@.map_values(|v: Vec<Device>| snapshot_model(v@));
    let ghost full = spec_watch_notes(snapshot_model(handler.last_devices@), flags@, snap_models, 0);
    let mut notes: Vec<Vec<Device>> = Vec::new();
    let n = flags.len();
    let mut i: usize = 0;
    while i < n
        invariant
            i <= n,
            n == flags@.len(),
            n == snapshots@.len(),
            snap_models == snapshots@.map_values(|v: Vec<Device>| snapshot_model(v@)),
            full == spec_watch_notes(
                snapshot_model(old(handler).last_devices@),
                flags@,
                snap_models,
                0,
            ),
            full =~= notes@.map_values(|v: Vec<Device>| snapshot_model(v@)) + spec_watch_notes(
                snapshot_model(handler.last_devices@),
                flags@,
                snap_models,
                i as int,
            ),
        decreases n - i,
    {
        if !flags[i] {
            proof {
                assert(spec_watch_notes(
                    snapshot_model(handler.last_devices@),
                    flags@,
                    snap_models,
                    i as int,
                ) =~= Seq::<Seq<DeviceModel>>::empty());
                assert(full =~= notes@.map_values(|v: Vec<Device>| snapshot_model(v@)));
            }
            return notes;
        }
        let current = clone_devices(&snapshots[i]);
        proof {
            assert(snapshot_model(current@) == snap_models[i as int]);
        }
        let sent = handler.handle_event(current);
        match sent {
            Some(list) => {
                notes.push(list);
            },
            None => {},
        }
        i = i + 1;
    }
    proof {
        assert(spec_watch_notes(
            snapshot_model(handler.last_devices@),
            flags@,
            snap_models,
            n as int,
        ) =~= Seq::<Seq<DeviceModel>>::empty());
        assert(full =~= notes@.map_values(|v: Vec<Device>| snapshot_model(v@)));
    }
    notes
}

/// The watcher a host application holds while it watches the device list.
pub struct InnerWatcher {
    pub watcher: SerialPortWatcherImpl,
}

/// The handle under which a host application stores a running device
/// watcher; the lock that guards it in the host lives outside this crate.
pub struct WatcherResource(pub InnerWatcher);

impl WatcherResource {
    pub fn new(watcher: SerialPortWatcherImpl) -> (r: Self)
        ensures
            r.0.watcher == watcher,
    {
        Self(InnerWatcher { watcher })
    }
}

} // verus!
