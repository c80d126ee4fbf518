//! Checks over what the portal answers: versions, devices, the start response
//! and the numeric response code of a request.

use vstd::prelude::*;
use super::contract::{Failure, Verification};

verus! {

/// Keyboard device bit of the remote desktop portal.
pub const DEVICE_KEYBOARD: u32 = 1;
/// Pointer device bit of the remote desktop portal.
pub const DEVICE_POINTER: u32 = 2;
/// Both requested device bits.
pub const REQUESTED_DEVICES: u32 = 3;
/// Monitor source bit of the screen cast portal.
pub const SOURCE_MONITOR: u32 = 1;

/// One screen cast stream: the private node identity and its properties.
#[derive(Clone, Debug)]
pub struct PortalStream(pub u32, pub PortalStreamProperties);

/// The only stream property the check reads: whether a mapping id exists.
#[derive(Clone, Debug, Default)]
pub struct PortalStreamProperties {
    pub mapping_id: Option<String>,
}

/// The fields of the `Start` response that the start check reads.
#[derive(Clone, Debug, Default)]
pub struct StartResponse {
    pub devices: u32,
    pub streams: Vec<PortalStream>,
    pub restore_token: Option<String>,
}

/// Whether a stream carries a non-empty mapping id.
pub open spec fn has_mapping(s: PortalStream) -> bool {
    s.1.mapping_id matches Some(m) && m@.len() > 0
}

/// How many streams carry a non-empty mapping id.
pub open spec fn mapping_count(streams: Seq<PortalStream>) -> nat
    decreases streams.len(),
{
    if streams.len() == 0 {
        0
    } else {
        mapping_count(streams.drop_last()) + if has_mapping(streams.last()) { 1nat } else { 0nat }
    }
}

proof fn lemma_mapping_count_bound(streams: Seq<PortalStream>)
    ensures
        mapping_count(streams) <= streams.len(),
    decreases streams.len(),
{
    if streams.len() > 0 {
        lemma_mapping_count_bound(streams.drop_last());
    }
}

/// Whether both requested device bits are set in `devices`.
pub open spec fn grants_both_devices(devices: u32) -> bool {
    devices & REQUESTED_DEVICES == REQUESTED_DEVICES
}

fn count_mapped(streams: &Vec<PortalStream>) -> (r: usize)
    ensures
        r == mapping_count(streams@),
{
    let mut count: usize = 0;
    let mut i: usize = 0;
    while i < streams.len()
        invariant
            i <= streams@.len(),
            count == mapping_count(streams@.take(i as int)),
            count <= i,
        decreases streams@.len() - i,
    {
        let mapped = match &streams[i].1.mapping_id {
            Some(m) => m.as_str().unicode_len() > 0,
            None => false,
        };
        proof {
            let p = streams@.take(i + 1);
            assert(p.drop_last() =~= streams@.take(i as int));
            assert(p.last() == streams@[i as int]);
        }
        if mapped {
            count = count + 1;
        }
        i = i + 1;
    }
    assert(streams@.take(i as int) =~= streams@);
    count
}

/// What projecting `start` gives: the failure of the first check that fails
/// (both devices granted, a stream exists, a stream carries a mapping id), or
/// the evidence with the versions, both device classes and the stream counts.
pub open spec fn start_projection(start: StartResponse, remote_desktop_version: u32, screen_cast_version: u32,
    r: Result<Verification, Failure>) -> bool {
    &&& !grants_both_devices(start.devices) ==> (r matches Err(f)
        && f.code@ == "REQUIRED_DEVICES_NOT_GRANTED"@ && f.stage@ == "start"@)
    &&& grants_both_devices(start.devices) && start.streams@.len() == 0 ==> (r matches Err(f)
        && f.code@ == "SCREEN_CAST_STREAM_MISSING"@ && f.stage@ == "start"@)
    &&& grants_both_devices(start.devices) && start.streams@.len() > 0
        && mapping_count(start.streams@) == 0 ==> (r matches Err(f)
        && f.code@ == "MAPPING_ID_MISSING"@ && f.stage@ == "start"@)
    &&& grants_both_devices(start.devices) && mapping_count(start.streams@) > 0 ==> (r matches Ok(v)
        && v.remote_desktop_version == remote_desktop_version
        && v.screen_cast_version == screen_cast_version
        && v.authorized_device_classes@.len() == 2
        && v.authorized_device_classes@[0]@ == "keyboard"@
        && v.authorized_device_classes@[1]@ == "pointer"@
        && v.stream_count == start.streams@.len()
        && v.mapping_id_count == mapping_count(start.streams@))
}

/// Projects a start response into publishable facts: both devices must be
/// granted, at least one stream must exist and at least one stream must carry
/// a mapping id. Node identities and the restore token are dropped.
pub fn project_start(start: StartResponse, remote_desktop_version: u32, screen_cast_version: u32) -> (r: Result<Verification, Failure>)
    ensures
        start_projection(start, remote_desktop_version, screen_cast_version, r),
        !grants_both_devices(start.devices) ==> (r matches Err(f)
            && f.code@ == "REQUIRED_DEVICES_NOT_GRANTED"@ && f.stage@ == "start"@),
        grants_both_devices(start.devices) && start.streams@.len() == 0 ==> (r matches Err(f)
            && f.code@ == "SCREEN_CAST_STREAM_MISSING"@ && f.stage@ == "start"@),
        grants_both_devices(start.devices) && start.streams@.len() > 0
            && mapping_count(start.streams@) == 0 ==> (r matches Err(f)
            && f.code@ == "MAPPING_ID_MISSING"@ && f.stage@ == "start"@),
        grants_both_devices(start.devices) && mapping_count(start.streams@) > 0 ==> (r matches Ok(v)
            && v.remote_desktop_version == remote_desktop_version
            && v.screen_cast_version == screen_cast_version
            && v.authorized_device_classes@.len() == 2
            && v.authorized_device_classes@[0]@ == "keyboard"@
            && v.authorized_device_classes@[1]@ == "pointer"@
            && v.stream_count == start.streams@.len()
            && v.mapping_id_count == mapping_count(start.streams@)),
{
    proof { lemma_mapping_count_bound(start.streams@); }
    if start.devices & REQUESTED_DEVICES != REQUESTED_DEVICES {
        return Err(Failure::new("REQUIRED_DEVICES_NOT_GRANTED", "start"));
    }
    if start.streams.len() == 0 {
        return Err(Failure::new("SCREEN_CAST_STREAM_MISSING", "start"));
    }
    let mapping_id_count = count_mapped(&start.streams);
    if mapping_id_count == 0 {
        return Err(Failure::new("MAPPING_ID_MISSING", "start"));
    }
    let mut classes: Vec<&'static str> = Vec::new();
    classes.push("keyboard");
    classes.push("pointer");
    Ok(Verification {
        remote_desktop_version,
        screen_cast_version,
        authorized_device_classes: classes,
        stream_count: start.streams.len(),
        mapping_id_count,
    })
}

/// Maps the numeric response code of a portal request: 0 succeeds, 1 is a
/// user cancellation, 2 a dismissal, anything else a protocol error.
pub fn response_outcome(response: u32, stage: &'static str) -> (r: Result<(), Failure>)
    ensures
        response == 0 <==> r is Ok,
        r matches Err(f) ==> f.stage == stage && f.code@ == (if response == 1 {
            "PORTAL_CANCELLED"@
        } else if response == 2 {
            "PORTAL_DISMISSED"@
        } else {
            "PORTAL_PROTOCOL_ERROR"@
        }),
{
    match response {
        0 => Ok(()),
        1 => Err(Failure::new("PORTAL_CANCELLED", stage)),
        2 => Err(Failure::new("PORTAL_DISMISSED", stage)),
        _ => Err(Failure::new("PORTAL_PROTOCOL_ERROR", stage)),
    }
}

/// Accepts the portal interface versions: remote desktop at least 2 and
/// screen cast at least 5.
pub fn check_portal_versions(remote_version: u32, screen_cast_version: u32) -> (r: Result<(u32, u32), Failure>)
    ensures
        (remote_version >= 2 && screen_cast_version >= 5) ==> r == Ok::<(u32, u32), Failure>((remote_version, screen_cast_version)),
        !(remote_version >= 2 && screen_cast_version >= 5) ==> (r matches Err(f)
            && f.code@ == "PORTAL_VERSION_UNSUPPORTED"@ && f.stage@ == "preflight"@),
{
    if remote_version < 2 || screen_cast_version < 5 {
        return Err(Failure::new("PORTAL_VERSION_UNSUPPORTED", "preflight"));
    }
    Ok((remote_version, screen_cast_version))
}

/// Accepts the advertised device types only when keyboard and pointer are both offered.
pub fn check_available_devices(devices: u32) -> (r: Result<(), Failure>)
    ensures
        grants_both_devices(devices) <==> r is Ok,
        r matches Err(f) ==> f.code@ == "REQUIRED_DEVICES_UNAVAILABLE"@ && f.stage@ == "preflight"@,
{
    if devices & REQUESTED_DEVICES != REQUESTED_DEVICES {
        return Err(Failure::new("REQUIRED_DEVICES_UNAVAILABLE", "preflight"));
    }
    Ok(())
}

/// Accepts an option reply that must be empty (device and source selection).
pub fn expect_empty_results(result_count: usize, stage: &'static str) -> (r: Result<(), Failure>)
    ensures
        result_count == 0 <==> r is Ok,
        r matches Err(f) ==> f.code@ == "PORTAL_PROTOCOL_ERROR"@ && f.stage == stage,
{
    if result_count != 0 {
        return Err(Failure::new("PORTAL_PROTOCOL_ERROR", stage));
    }
    Ok(())
}

/// A portal owner change is a `NameOwnerChanged` for the portal service whose
/// owner actually changed.
pub fn is_portal_owner_change(name: &str, old_owner: &str, new_owner: &str) -> (r: bool)
    ensures
        r == (name@ == "org.freedesktop.portal.Desktop"@ && old_owner@ != new_owner@),
{
    crate::text::str_eq(name, "org.freedesktop.portal.Desktop") && !crate::text::str_eq(old_owner, new_owner)
}

/// Client-initiated close with a successful reply, or an asynchronous
/// `Closed` signal / owner change, are both valid cleanup evidence.
pub fn session_close_confirmed(method_reply: bool, asynchronous_close: bool) -> (r: bool)
    ensures
        r == (method_reply || asynchronous_close),
{
    method_reply || asynchronous_close
}

} // verus!
