//! Device discovery: find the hardware address of the first device, across
//! all local radios in enumeration order, that advertises the target service.
//!
//! The platform hands the library what its radio and device enumeration
//! reported, as plain values: one entry per radio, each with the devices the
//! search returned and the service identifiers each device advertises. The
//! search itself — the ordering, the eager first match, and the two failure
//! kinds — is decided here.

use vstd::prelude::*;
use crate::error::EdifierError;

verus! {

/// The 128-bit identifier of the accessory's serial-port service.
pub const SPP_SERVICE_UUID: u128 = 0xEDF00000_EDFE_DFED_FEDF_EDFEDFEDFEDF;

/// Timeout multiplier the device search is issued with.
pub const SEARCH_TIMEOUT_MULTIPLIER: u8 = 2;

/// One device a radio's search returned: its 48-bit hardware address and the
/// service identifiers it advertises.
pub struct DeviceInfo {
    pub address: u64,
    pub services: Vec<u128>,
}

/// One local radio with the devices its search returned, in reported order.
pub struct RadioDevices {
    pub devices: Vec<DeviceInfo>,
}

/// Whether a device advertises the service.
pub open spec fn spec_device_matches(device: DeviceInfo, service_id: u128) -> bool {
    device.services@.contains(service_id)
}

/// Address of the first matching device in one radio's list, if any.
pub open spec fn spec_first_match_in(devices: Seq<DeviceInfo>, service_id: u128) -> Option<u64>
    decreases devices.len(),
{
    if devices.len() == 0 {
        None
    } else if spec_device_matches(devices[0], service_id) {
        Some(devices[0].address)
    } else {
        spec_first_match_in(devices.drop_first(), service_id)
    }
}

/// Address of the first matching device across radios, in enumeration order.
pub open spec fn spec_first_match(radios: Seq<RadioDevices>, service_id: u128) -> Option<u64>
    decreases radios.len(),
{
    if radios.len() == 0 {
        None
    } else {
        match spec_first_match_in(radios[0].devices@, service_id) {
            Some(address) => Some(address),
            None => spec_first_match(radios.drop_first(), service_id),
        }
    }
}

/// Whether the device advertises the wanted service among its installed
/// services.
pub fn has_spp_service(device: &DeviceInfo, service_id: u128) -> (r: bool)
    ensures
        r == spec_device_matches(*device, service_id),
{
    let mut i: usize = 0;
    while i < device.services.len()
        invariant
            i <= device.services@.len(),
            forall|j: int| 0 <= j < i ==> device.services@[j] != service_id,
        decreases device.services@.len() - i,
    {
        if device.services[i] == service_id {
            return true;
        }
        i = i + 1;
    }
    false
}

/// A skipped prefix of non-matching devices does not change the first match.
proof fn lemma_first_match_in_skip(devices: Seq<DeviceInfo>, service_id: u128, i: int)
    requires
        0 <= i <= devices.len(),
        forall|j: int| 0 <= j < i ==> !spec_device_matches(devices[j], service_id),
    ensures
        spec_first_match_in(devices, service_id) == spec_first_match_in(
            devices.skip(i),
            service_id,
        ),
    decreases i,
{
    if i == 0 {
        assert(devices.skip(0) =~= devices);
    } else {
        lemma_first_match_in_skip(devices, service_id, i - 1);
        assert(devices.skip(i - 1)[0] == devices[i - 1]);
        assert(!spec_device_matches(devices[i - 1], service_id));
        assert(devices.skip(i - 1).drop_first() =~= devices.skip(i));
    }
}

/// A skipped prefix of radios without a match does not change the first match.
proof fn lemma_first_match_skip(radios: Seq<RadioDevices>, service_id: u128, i: int)
    requires
        0 <= i <= radios.len(),
        forall|j: int| 0 <= j < i
            ==> spec_first_match_in(#[trigger] radios[j].devices@, service_id) is None,
    ensures
        spec_first_match(radios, service_id) == spec_first_match(radios.skip(i), service_id),
    decreases i,
{
    if i == 0 {
        assert(radios.skip(0) =~= radios);
    } else {
        lemma_first_match_skip(radios, service_id, i - 1);
        assert(radios.skip(i - 1)[0] == radios[i - 1]);
        assert(spec_first_match_in(radios[i - 1].devices@, service_id) is None);
        assert(radios.skip(i - 1).drop_first() =~= radios.skip(i));
    }
}

/// Walks the radios in enumeration order and returns the address of the first
/// device that advertises the service. With no radio at all the search cannot
/// even start; with radios but no match it ends empty-handed. No ranking is
/// applied among several matches: the first reported wins.
pub fn find_device_address(radios: &Vec<RadioDevices>, service_id: u128) -> (r: Result<
    u64,
    EdifierError,
>)
    ensures
        radios@.len() == 0 ==> r == Err::<u64, _>(EdifierError::NoRadioAvailable),
        radios@.len() > 0 && spec_first_match(radios@, service_id) is None ==> r == Err::<u64, _>(
            EdifierError::ServiceNotFound,
        ),
        spec_first_match(radios@, service_id) matches Some(address) ==> r == Ok::<_, EdifierError>(
            address,
        ),
{
    if radios.len() == 0 {
        return Err(EdifierError::NoRadioAvailable);
    }
    let mut i: usize = 0;
    while i < radios.len()
        invariant
            i <= radios@.len(),
            forall|j: int| 0 <= j < i
                ==> spec_first_match_in(#[trigger] radios@[j].devices@, service_id) is None,
        decreases radios@.len() - i,
    {
        let radio = &radios[i];
        let mut d: usize = 0;
        while d < radio.devices.len()
            invariant
                i < radios@.len(),
                radio == radios@[i as int],
                d <= radio.devices@.len(),
                forall|j: int| 0 <= j < d
                    ==> !spec_device_matches(#[trigger] radio.devices@[j], service_id),
                forall|j: int| 0 <= j < i
                    ==> spec_first_match_in(#[trigger] radios@[j].devices@, service_id) is None,
            decreases radio.devices@.len() - d,
        {
            if has_spp_service(&radio.devices[d], service_id) {
                proof {
                    lemma_first_match_in_skip(radio.devices@, service_id, d as int);
                    assert(radio.devices@.skip(d as int)[0] == radio.devices@[d as int]);
                    lemma_first_match_skip(radios@, service_id, i as int);
                    assert(radios@.skip(i as int)[0] == radios@[i as int]);
                }
                return Ok(radio.devices[d].address);
            }
            d = d + 1;
        }
        proof {
            lemma_first_match_in_skip(radio.devices@, service_id, d as int);
            assert(radio.devices@.skip(radio.devices@.len() as int) =~= Seq::empty());
        }
        i = i + 1;
    }
    proof {
        lemma_first_match_skip(radios@, service_id, radios@.len() as int);
        assert(radios@.skip(radios@.len() as int) =~= Seq::empty());
    }
    Err(EdifierError::ServiceNotFound)
}

} // verus!
