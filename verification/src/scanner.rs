//! Selecting a device from scan results.
//!
//! The transport layer enumerates every peripheral it observed during the
//! scan window; this module holds the pure rule that picks one: the first
//! descriptor, in arrival order, whose advertised services contain the
//! target service UUID. Matching is by service UUID only; the optional
//! name is display-only.

use vstd::prelude::*;

verus! {

/// An immutable record of one discovered peripheral: an opaque handle the
/// transport layer understands, the advertised service UUIDs, an optional
/// human-readable name, and the device address.
pub struct DeviceDescriptor {
    /// Opaque connection handle: an index the embedding application maps
    /// back to its transport-level peripheral object.
    pub handle: usize,
    /// The service UUIDs the peripheral advertised, in 128-bit form.
    pub services: Vec<u128>,
    /// Advertised local name, if any. Never used for matching.
    pub name: Option<String>,
    /// The 48-bit device address, widened.
    pub address: u64,
}

/// Whether a descriptor advertises the given service.
pub open spec fn device_matches(d: &DeviceDescriptor, service_filter: u128) -> bool {
    d.services@.contains(service_filter)
}

/// Whether `i` is the index of the first descriptor that advertises the
/// service.
pub open spec fn is_first_match(devices: Seq<DeviceDescriptor>, service_filter: u128, i: int) -> bool {
    &&& 0 <= i < devices.len()
    &&& device_matches(&devices[i], service_filter)
    &&& forall|j: int| 0 <= j < i ==> !device_matches(&devices[j], service_filter)
}

/// Whether no descriptor at all advertises the service.
pub open spec fn no_match(devices: Seq<DeviceDescriptor>, service_filter: u128) -> bool {
    forall|j: int| 0 <= j < devices.len() ==> !device_matches(&devices[j], service_filter)
}

/// Whether some advertised service UUID equals `service_filter`.
fn services_contain(services: &Vec<u128>, service_filter: u128) -> (r: bool)
    ensures
        r == services@.contains(service_filter),
{
    let mut k: usize = 0;
    while k < services.len()
        invariant
            k <= services@.len(),
            forall|j: int| 0 <= j < k ==> services@[j] != service_filter,
        decreases services@.len() - k,
    {
        if services[k] == service_filter {
            assert(services@.contains(service_filter));
            return true;
        }
        k = k + 1;
    }
    false
}

/// Pick the first descriptor, in arrival order, that advertises the
/// service: `Some(i)` where `i` is the earliest matching index, `None`
/// when no descriptor matches.
pub fn select_device(devices: &Vec<DeviceDescriptor>, service_filter: u128) -> (r: Option<usize>)
    ensures
        match r {
            Some(i) => is_first_match(devices@, service_filter, i as int),
            None => no_match(devices@, service_filter),
        },
{
    let mut i: usize = 0;
    while i < devices.len()
        invariant
            i <= devices@.len(),
            forall|j: int| 0 <= j < i ==> !device_matches(&devices@[j], service_filter),
        decreases devices@.len() - i,
    {
        if services_contain(&devices[i].services, service_filter) {
            return Some(i);
        }
        i = i + 1;
    }
    None
}

} // verus!
