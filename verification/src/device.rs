//! Device enumeration model: classification of enumerated devices and
//! lookup by identifier.
//!
//! USB enumeration itself (walking the bus, opening each device, reading its
//! serial-number string descriptor, checking the protocol interface
//! signature) is device I/O and happens outside this crate; it hands the
//! library the serial numbers of the protocol-capable devices it found.
//! Everything after that point — deriving each device's reported state from
//! its identifier and finding a device by identifier — is decided here.
use vstd::prelude::*;

use crate::text::{seq_starts_with, str_starts_with};

verus! {

/// The identifier prefix that marks a device booted into its secondary
/// (recovery/bootloader) mode rather than its normal runtime.
pub open spec fn spec_recovery_prefix() -> Seq<char> {
    "BOOT-"@
}

/// The reported state of an enumerated device.
#[derive(PartialEq, Eq, Structural, Clone, Copy, Debug)]
pub enum DeviceState {
    /// Normal runtime mode.
    Device,
    /// Secondary/recovery boot mode, recognised by the identifier prefix.
    Recovery,
}

/// One enumerated protocol-capable device: its stable identifier (the USB
/// serial-number descriptor) and the state derived from it.
#[derive(Debug)]
pub struct Device {
    pub identifier: String,
    pub state: DeviceState,
}

impl Clone for Device {
    fn clone(&self) -> (r: Self)
        ensures
            r@ == self@,
    {
        Device { identifier: self.identifier.clone(), state: self.state }
    }
}

/// The mathematical value of a [`Device`].
pub ghost struct DeviceModel {
    pub identifier: Seq<char>,
    pub state: DeviceState,
}

impl View for Device {
    type V = DeviceModel;

    open spec fn view(&self) -> DeviceModel {
        DeviceModel { identifier: self.identifier@, state: self.state }
    }
}

impl PartialEq for Device {
    fn eq(&self, other: &Device) -> (r: bool) {
        let same_id = self.identifier == other.identifier;
        let same_state = self.state == other.state;
        same_id && same_state
    }
}

impl vstd::std_specs::cmp::PartialEqSpecImpl for Device {
    open spec fn obeys_eq_spec() -> bool {
        true
    }

    open spec fn eq_spec(&self, other: &Device) -> bool {
        self@ == other@
    }
}

/// The state an identifier denotes: `Recovery` exactly when it carries the
/// recovery-mode prefix.
pub open spec fn spec_classify(identifier: Seq<char>) -> DeviceState {
    if seq_starts_with(identifier, spec_recovery_prefix()) {
        DeviceState::Recovery
    } else {
        DeviceState::Device
    }
}

/// A device is well formed when its state is the one its identifier denotes.
pub open spec fn device_wf(d: DeviceModel) -> bool {
    d.state == spec_classify(d.identifier)
}

/// Classify one identifier by the recovery-mode prefix rule.
pub fn classify(identifier: &str) -> (state: DeviceState)
    ensures
        state == spec_classify(identifier@),
{
    if str_starts_with(identifier, "BOOT-") {
        DeviceState::Recovery
    } else {
        DeviceState::Device
    }
}

/// The device list an enumeration result denotes: one device per reported
/// serial number, in enumeration order, each classified by its identifier.
pub open spec fn spec_devices_of(serials: Seq<Seq<char>>) -> Seq<DeviceModel> {
    serials.map_values(
        |s: Seq<char>| DeviceModel { identifier: s, state: spec_classify(s) },
    )
}

/// Build the reported device list from the serial numbers that USB
/// enumeration handed over. Enumeration never fails: a problematic device
/// was already dropped before this point, so every given serial yields
/// exactly one reported device.
pub fn devices_from_serials(serials: Vec<String>) -> (devices: Vec<Device>)
    ensures
        devices@.map_values(|d: Device| d@) =~= spec_devices_of(
            serials@.map_values(|s: String| s@),
        ),
        forall|i: int| 0 <= i < devices@.len() ==> device_wf(#[trigger] devices@[i]@),
{
    let mut devices: Vec<Device> = Vec::new();
    let n = serials.len();
    let ghost serial_views = serials@.map_values(|s: String| s@);
    let mut i: usize = 0;
    while i < n
        invariant
            i <= n,
            n == serials@.len(),
            serial_views == serials@.map_values(|s: String| s@),
            devices@.len() == i,
            forall|j: int|
                0 <= j < i ==> (#[trigger] devices@[j]@).identifier == serial_views[j]
                    && devices@[j]@.state == spec_classify(serial_views[j]),
        decreases n - i,
    {
        let serial = serials[i].clone();
        let state = classify(serial.as_str());
        devices.push(Device { identifier: serial, state });
        i = i + 1;
    }
    assert(devices@.map_values(|d: Device| d@) =~= spec_devices_of(serial_views));
    assert forall|j: int| 0 <= j < devices@.len() implies device_wf(#[trigger] devices@[j]@) by {
        assert(devices@[j]@.identifier == serial_views[j]);
    };
    devices
}

/// The index of the first device whose identifier matches, if any.
pub open spec fn spec_find_index(devices: Seq<DeviceModel>, identifier: Seq<char>) -> int
    decreases devices.len(),
{
    if devices.len() == 0 {
        -1
    } else if devices[0].identifier == identifier {
        0
    } else {
        let rest = spec_find_index(devices.drop_first(), identifier);
        if rest == -1 {
            -1
        } else {
            rest + 1
        }
    }
}

/// Find a device by identifier in an enumerated list: a linear scan that
/// returns the first match, or nothing when the device is absent (for
/// example, unplugged between enumerations).
pub fn find_device(devices: Vec<Device>, identifier: &str) -> (found: Option<Device>)
    ensures
        match found {
            Some(d) => {
                let idx = spec_find_index(devices@.map_values(|x: Device| x@), identifier@);
                &&& 0 <= idx < devices@.len()
                &&& d@ == devices@[idx]@
                &&& d@.identifier == identifier@
            },
            None => forall|i: int|
                0 <= i < devices@.len() ==> (#[trigger] devices@[i]@).identifier != identifier@,
        },
{
    let ghost models = devices@.map_values(|x: Device| x@);
    let n = devices.len();
    let mut i: usize = 0;
    while i < n
        invariant
            i <= n,
            n == devices@.len(),
            models == devices@.map_values(|x: Device| x@),
            forall|j: int| 0 <= j < i ==> (#[trigger] devices@[j]@).identifier != identifier@,
        decreases n - i,
    {
        if crate::text::str_eq(devices[i].identifier.as_str(), identifier) {
            let d = devices[i].clone();
            proof {
                assert forall|j: int| 0 <= j < i implies (#[trigger] models[j]).identifier
                    != identifier@ by {
                    assert(models[j] == devices@[j]@);
                };
                assert(models[i as int] == devices@[i as int]@);
                lemma_find_index_first(models, identifier@, i as int);
            }
            return Some(d);
        }
        i = i + 1;
    }
    None
}

/// If every index below `k` mismatches and index `k` matches, the first
/// matching index is `k`.
proof fn lemma_find_index_first(devices: Seq<DeviceModel>, identifier: Seq<char>, k: int)
    requires
        0 <= k < devices.len(),
        devices[k].identifier == identifier,
        forall|j: int| 0 <= j < k ==> (#[trigger] devices[j]).identifier != identifier,
    ensures
        spec_find_index(devices, identifier) == k,
    decreases k,
{
    if k == 0 {
    } else {
        lemma_find_index_first(devices.drop_first(), identifier, k - 1);
    }
}

/// Identifiers mirror serial-number descriptors exactly: in any one
/// enumeration result, two reported devices share an identifier if and only
/// if the serial numbers they were built from are identical.
pub proof fn lemma_identifiers_match_serials(serials: Seq<Seq<char>>, i: int, j: int)
    requires
        0 <= i < serials.len(),
        0 <= j < serials.len(),
    ensures
        (spec_devices_of(serials)[i].identifier == spec_devices_of(serials)[j].identifier)
            <==> (serials[i] == serials[j]),
{
}

} // verus!
