//! Device records and selection. Discovery (a network query) happens
//! outside this crate and hands in a plain list of records; selection is a
//! linear scan: the first record carrying the requested identifier, or the
//! first record of the list when no identifier was requested.

use vstd::prelude::*;
use vstd::string::StringExecFns;
use crate::error::BridgeError;

verus! {

/// A snapshot of one display device as discovery reported it.
#[derive(Debug)]
pub struct DeviceRecord {
    pub device_id: String,
    pub device_name: String,
    pub device_private_ip: String,
}

impl Clone for DeviceRecord {
    fn clone(&self) -> (r: Self)
        ensures
            r == *self,
    {
        DeviceRecord {
            device_id: self.device_id.clone(),
            device_name: self.device_name.clone(),
            device_private_ip: self.device_private_ip.clone(),
        }
    }
}

/// The listing line printed for one discovered device.
pub open spec fn spec_device_line(d: DeviceRecord) -> Seq<char> {
    "Device ID: "@ + d.device_id@ + " | Device Name: "@ + d.device_name@ + " | Device IP: "@
        + d.device_private_ip@
}

/// Format one discovered device for the listing.
pub fn device_line(d: &DeviceRecord) -> (r: String)
    ensures
        r@ == spec_device_line(*d),
{
    let mut line: String = String::from_str("Device ID: ");
    line.append(d.device_id.as_str());
    line.append(" | Device Name: ");
    line.append(d.device_name.as_str());
    line.append(" | Device IP: ");
    line.append(d.device_private_ip.as_str());
    line
}

/// The lines the device listing prints: one per discovered device, or a
/// single notice when discovery found nothing.
pub fn device_listing(devices: &Vec<DeviceRecord>) -> (r: Vec<String>)
    ensures
        devices@.len() == 0 ==> r@.len() == 1 && r@[0]@ == "No devices found."@,
        devices@.len() > 0 ==> r@.len() == devices@.len() && forall|i: int|
            0 <= i < r@.len() ==> r@[i]@ == spec_device_line(devices@[i]),
{
    if devices.len() == 0 {
        let mut lines: Vec<String> = Vec::new();
        lines.push(String::from_str("No devices found."));
        lines
    } else {
        let n: usize = devices.len();
        let mut lines: Vec<String> = Vec::new();
        let mut k: usize = 0;
        while k < n
            invariant
                n == devices@.len(),
                k <= n,
                lines@.len() == k,
                forall|i: int| 0 <= i < k ==> lines@[i]@ == spec_device_line(devices@[i]),
            decreases n - k,
        {
            lines.push(device_line(&devices[k]));
            k += 1;
        }
        lines
    }
}

/// The index of the first record whose identifier is `id`, if any.
pub open spec fn spec_first_match(devices: Seq<DeviceRecord>, id: Seq<char>) -> Option<int>
    decreases devices.len(),
{
    if devices.len() == 0 {
        None
    } else if devices[0].device_id@ == id {
        Some(0)
    } else {
        match spec_first_match(devices.subrange(1, devices.len() as int), id) {
            Some(i) => Some(i + 1),
            None => None,
        }
    }
}

/// A record that matches at `i`, with no match before it, is the first match.
proof fn lemma_first_match_at(devices: Seq<DeviceRecord>, id: Seq<char>, i: int)
    requires
        0 <= i < devices.len(),
        devices[i].device_id@ == id,
        forall|j: int| 0 <= j < i ==> devices[j].device_id@ != id,
    ensures
        spec_first_match(devices, id) == Some(i),
    decreases devices.len(),
{
    if i == 0 {
    } else {
        let rest = devices.subrange(1, devices.len() as int);
        assert(rest[i - 1] == devices[i]);
        assert forall|j: int| 0 <= j < i - 1 implies rest[j].device_id@ != id by {
            assert(rest[j] == devices[j + 1]);
        }
        lemma_first_match_at(rest, id, i - 1);
    }
}

/// When no record matches, there is no first match.
proof fn lemma_first_match_none(devices: Seq<DeviceRecord>, id: Seq<char>)
    requires
        forall|j: int| 0 <= j < devices.len() ==> devices[j].device_id@ != id,
    ensures
        spec_first_match(devices, id) is None,
    decreases devices.len(),
{
    if devices.len() > 0 {
        let rest = devices.subrange(1, devices.len() as int);
        assert forall|j: int| 0 <= j < rest.len() implies rest[j].device_id@ != id by {
            assert(rest[j] == devices[j + 1]);
        }
        lemma_first_match_none(rest, id);
    }
}

/// What the scan's answer means: a found index is in range and carries
/// `id`; no index at all means no record carries `id`.
pub proof fn lemma_first_match_sound(devices: Seq<DeviceRecord>, id: Seq<char>)
    ensures
        match spec_first_match(devices, id) {
            Some(i) => 0 <= i < devices.len() && devices[i].device_id@ == id,
            None => forall|j: int| 0 <= j < devices.len() ==> devices[j].device_id@ != id,
        },
    decreases devices.len(),
{
    if devices.len() == 0 {
    } else if devices[0].device_id@ == id {
    } else {
        let rest = devices.subrange(1, devices.len() as int);
        lemma_first_match_sound(rest, id);
        match spec_first_match(rest, id) {
            Some(i) => {
                assert(devices[i + 1] == rest[i]);
            },
            None => {
                assert forall|j: int| 0 <= j < devices.len() implies devices[j].device_id@ != id
                by {
                    if j > 0 {
                        assert(devices[j] == rest[j - 1]);
                    }
                }
            },
        }
    }
}

/// The scan finds an identifier exactly when some record carries it.
pub proof fn lemma_found_iff_present(devices: Seq<DeviceRecord>, id: Seq<char>)
    ensures
        spec_first_match(devices, id) is Some <==> exists|i: int|
            0 <= i < devices.len() && devices[i].device_id@ == id,
{
    lemma_first_match_sound(devices, id);
    match spec_first_match(devices, id) {
        Some(i) => {
            assert(0 <= i < devices.len() && devices[i].device_id@ == id);
        },
        None => {},
    }
}

/// An identifier carried by exactly one record selects that record: if
/// `devices[i]` has `id` and no other record does, the scan lands on `i`.
pub proof fn lemma_unique_id_selects_its_record(
    devices: Seq<DeviceRecord>,
    id: Seq<char>,
    i: int,
)
    requires
        0 <= i < devices.len(),
        devices[i].device_id@ == id,
        forall|j: int| 0 <= j < devices.len() && j != i ==> devices[j].device_id@ != id,
    ensures
        spec_first_match(devices, id) == Some(i),
{
    lemma_first_match_at(devices, id, i);
}

/// Select the target device from a discovery result.
///
/// With a requested identifier, the first record carrying it is returned,
/// and `DeviceNotFound` exactly when no record carries it. With none, the
/// first record of the list is returned, and `NoDevices` exactly when the
/// list is empty.
pub fn select_device(devices: &Vec<DeviceRecord>, requested_id: Option<&str>) -> (r: Result<
    DeviceRecord,
    BridgeError,
>)
    ensures
        match requested_id {
            Some(id) => {
                &&& r is Ok <==> spec_first_match(devices@, id@) is Some
                &&& (r matches Ok(d) ==> spec_first_match(devices@, id@) matches Some(i)
                    && d == devices@[i])
                &&& (r matches Err(e) ==> e matches BridgeError::DeviceNotFound { device_id }
                    && device_id@ == id@)
            },
            None => {
                &&& devices@.len() > 0 ==> (r matches Ok(d) && d == devices@[0])
                &&& devices@.len() == 0 ==> (r matches Err(e) && e is NoDevices)
            },
        },
{
    match requested_id {
        Some(id) => {
            let wanted: String = id.to_owned();
            let n: usize = devices.len();
            let mut k: usize = 0;
            while k < n
                invariant
                    n == devices@.len(),
                    k <= n,
                    requested_id == Some(id),
                    wanted@ == id@,
                    forall|j: int| 0 <= j < k ==> devices@[j].device_id@ != id@,
                decreases n - k,
            {
                if devices[k].device_id == wanted {
                    proof {
                        lemma_first_match_at(devices@, id@, k as int);
                    }
                    return Ok(devices[k].clone());
                }
                k += 1;
            }
            proof {
                lemma_first_match_none(devices@, id@);
            }
            Err(BridgeError::DeviceNotFound { device_id: wanted })
        },
        None => {
            if devices.len() > 0 {
                Ok(devices[0].clone())
            } else {
                Err(BridgeError::NoDevices)
            }
        },
    }
}

} // verus!
