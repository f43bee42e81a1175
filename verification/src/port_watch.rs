//! Serial-port listing and the port-name specialization of the watcher.
//!
//! The operating system's port enumeration is outside work; it hands the
//! library the raw port names. Verified here are the platform allow-list
//! filter applied to that listing, and the port-name diffing tick, against
//! the same tick rule as the device watcher.
use vstd::prelude::*;

use crate::serialport_watcher::{spec_tick, SerialPortWatcherImpl};
use crate::text::{seq_starts_with, str_starts_with};

verus! {

/// The platform the tool runs on, as far as the port filter cares.
#[derive(PartialEq, Eq, Structural, Clone, Copy, Debug)]
pub enum Platform {
    /// Restrict to the USB-serial device path prefixes.
    Linux,
    /// Restrict to the USB call-up device path prefix.
    MacOs,
    /// Pass every reported port through.
    Other,
}

/// The platform allow-list: a non-normative convenience filter that keeps
/// only known USB-serial path prefixes where the platform has them.
pub open spec fn spec_port_allowed(name: Seq<char>, platform: Platform) -> bool {
    match platform {
        Platform::Linux => seq_starts_with(name, "/dev/ttyUSB"@) || seq_starts_with(
            name,
            "/dev/ttyACM"@,
        ),
        Platform::MacOs => seq_starts_with(name, "/dev/cu.usb"@),
        Platform::Other => true,
    }
}

/// The mathematical value of a port-name snapshot.
pub open spec fn ports_model(v: Seq<String>) -> Seq<Seq<char>> {
    v.map_values(|s: String| s@)
}

/// The filtered listing: the reported names, in order, that the platform
/// allow-list keeps.
pub open spec fn spec_filtered_ports(names: Seq<Seq<char>>, platform: Platform) -> Seq<Seq<char>> {
    names.filter(|n: Seq<char>| spec_port_allowed(n, platform))
}

/// Whether one port name passes the platform allow-list.
pub fn port_allowed(name: &String, platform: Platform) -> (r: bool)
    ensures
        r == spec_port_allowed(name@, platform),
{
    match platform {
        Platform::Linux => {
            let usb = str_starts_with(name.as_str(), "/dev/ttyUSB");
            let acm = str_starts_with(name.as_str(), "/dev/ttyACM");
            usb || acm
        },
        Platform::MacOs => str_starts_with(name.as_str(), "/dev/cu.usb"),
        Platform::Other => true,
    }
}

/// Filter an enumerated port listing by the platform allow-list, keeping
/// order. Enumeration failure is handled before this point by degrading to
/// an empty listing, so this call never fails.
pub fn list_ports(names: Vec<String>, platform: Platform) -> (kept: Vec<String>)
    ensures
        ports_model(kept@) == spec_filtered_ports(ports_model(names@), platform),
{
    let ghost name_models = ports_model(names@);
    let mut kept: Vec<String> = Vec::new();
    let n = names.len();
    let mut i: usize = 0;
    proof {
        reveal(Seq::filter);
        assert(name_models.subrange(0, 0) =~= Seq::<Seq<char>>::empty());
        assert(ports_model(kept@) =~= spec_filtered_ports(name_models.subrange(0, 0), platform));
    }
    while i < n
        invariant
            i <= n,
            n == names@.len(),
            name_models == ports_model(names@),
            ports_model(kept@) == spec_filtered_ports(name_models.subrange(0, i as int), platform),
        decreases n - i,
    {
        let allowed = port_allowed(&names[i], platform);
        proof {
            reveal(Seq::filter);
            let prefix = name_models.subrange(0, i as int);
            let next = name_models.subrange(0, i + 1 as int);
            assert(next.drop_last() =~= prefix);
            assert(next.last() == name_models[i as int]);
        }
        if allowed {
            kept.push(names[i].clone());
            proof {
                assert(ports_model(kept@) =~= spec_filtered_ports(
                    name_models.subrange(0, i as int),
                    platform,
                ).push(name_models[i as int]));
            }
        }
        i = i + 1;
    }
    proof {
        assert(name_models.subrange(0, n as int) =~= name_models);
    }
    kept
}

/// Exact value equality of two port listings, as the diffing rule uses it.
pub fn ports_eq(a: &Vec<String>, b: &Vec<String>) -> (r: bool)
    ensures
        r == (ports_model(a@) == ports_model(b@)),
{
    if a.len() != b.len() {
        assert(ports_model(a@).len() != ports_model(b@).len());
        return false;
    }
    let n = a.len();
    let mut i: usize = 0;
    while i < n
        invariant
            i <= n,
            n == a@.len(),
            n == b@.len(),
            forall|j: int| 0 <= j < i ==> (#[trigger] a@[j]@) == b@[j]@,
        decreases n - i,
    {
        if !crate::text::str_eq(a[i].as_str(), b[i].as_str()) {
            assert(ports_model(a@)[i as int] != ports_model(b@)[i as int]);
            return false;
        }
        i = i + 1;
    }
    assert(ports_model(a@) =~= ports_model(b@));
    true
}

/// A copy of a port listing with the same value.
pub fn clone_ports(v: &Vec<String>) -> (r: Vec<String>)
    ensures
        ports_model(r@) == ports_model(v@),
{
    let mut out: Vec<String> = Vec::new();
    let n = v.len();
    let mut i: usize = 0;
    while i < n
        invariant
            i <= n,
            n == v@.len(),
            out@.len() == i,
            forall|j: int| 0 <= j < i ==> (#[trigger] out@[j]@) == v@[j]@,
        decreases n - i,
    {
        out.push(v[i].clone());
        i = i + 1;
    }
    assert(ports_model(out@) =~= ports_model(v@));
    out
}

/// The per-tick state of the port watcher's handler: the listing
/// remembered from the previous tick.
pub struct WatcherHandler {
    pub last_ports: Vec<String>,
}

impl WatcherHandler {
    /// A fresh handler remembers the empty listing.
    pub fn new() -> (r: WatcherHandler)
        ensures
            ports_model(r.last_ports@) == Seq::<Seq<char>>::empty(),
    {
        let r = WatcherHandler { last_ports: Vec::new() };
        proof {
            assert(ports_model(r.last_ports@) =~= Seq::<Seq<char>>::empty());
        }
        r
    }

    /// One tick: diff the freshly listed `current_ports` against the
    /// previous tick's listing; on any value difference remember and send
    /// the full current listing, otherwise stay silent.
    pub fn handle_event(&mut self, current_ports: Vec<String>) -> (notification: Option<
        Vec<String>,
    >)
        ensures
            ({
                let stepped = spec_tick(
                    ports_model(old(self).last_ports@),
                    ports_model(current_ports@),
                );
                &&& ports_model(final(self).last_ports@) == stepped.0
                &&& match notification {
                    Some(sent) => stepped.1 && ports_model(sent@) == ports_model(current_ports@),
                    None => !stepped.1,
                }
            }),
    {
        if ports_eq(&current_ports, &self.last_ports) {
            None
        } else {
            self.last_ports = clone_ports(&current_ports);
            Some(current_ports)
        }
    }
}

/// The watcher a host application holds while it watches the port listing.
pub struct InnerWatcher {
    pub watcher: SerialPortWatcherImpl,
}

/// The handle under which a host application stores a running port
/// watcher; the lock that guards it in the host lives outside this crate.
pub struct WatcherResource(pub InnerWatcher);

impl WatcherResource {
    pub fn new(watcher: SerialPortWatcherImpl) -> (r: Self)
        ensures
            r.0.watcher == watcher,
    {
        Self(InnerWatcher { watcher })
    }
}

} // verus!
