//! The device matcher: given a snapshot of the connected devices and the
//! filter criteria, selects the devices an action targets.
//!
//! The device subsystem itself (enumeration, opening, reading serial
//! numbers) lives outside the library; the matcher works on a snapshot of
//! plain values taken from it. A path filter is decided on the enumerated
//! path, a type filter on the device type, and a serial filter on the
//! serial read after opening — a device that failed to open is silently
//! excluded, never an error.

use vstd::prelude::*;
use crate::config::{spec_filter_count, validate_single_filter};
use crate::error::CliError;
use crate::text::str_eq;

verus! {

/// The supported device families.
#[derive(Clone, Copy, Debug, PartialEq, Eq, Structural)]
pub enum DeviceKind {
    /// Litra Glow.
    Glow,
    /// Litra Beam.
    Beam,
    /// Litra Beam LX.
    BeamLx,
}

/// The name a device type filter uses for a device family.
pub open spec fn spec_kind_name(k: DeviceKind) -> Seq<char> {
    match k {
        DeviceKind::Glow => "glow"@,
        DeviceKind::Beam => "beam"@,
        DeviceKind::BeamLx => "beam_lx"@,
    }
}

/// The filter name of a device family: `glow`, `beam` or `beam_lx`.
pub fn device_type_name(kind: DeviceKind) -> (r: String)
    ensures
        r@ == spec_kind_name(kind),
{
    match kind {
        DeviceKind::Glow => "glow".to_owned(),
        DeviceKind::Beam => "beam".to_owned(),
        DeviceKind::BeamLx => "beam_lx".to_owned(),
    }
}

/// One connected device, as the device subsystem reported it: its family,
/// its path, whether it could be opened, and the serial number read from
/// the opened device (`None` when the device was not opened, or reported
/// none).
#[derive(Debug)]
pub struct CandidateDevice {
    /// The device family.
    pub kind: DeviceKind,
    /// The unique device path.
    pub path: String,
    /// The device could be opened.
    pub opened: bool,
    /// The serial number read from the opened device.
    pub serial: Option<String>,
}

/// The first filtering pass, decided before a device is opened: an exact
/// path match when a path filter is set; else an exact type match when a
/// type filter is set; else every device passes. A serial filter plays no
/// part here, since serials are only readable once a device is open.
pub open spec fn spec_device_prefilter(
    device_path: Option<&str>,
    device_type: Option<&str>,
    kind: DeviceKind,
    path: Seq<char>,
) -> bool {
    match device_path {
        Some(p) => path == p@,
        None => match device_type {
            Some(t) => spec_kind_name(kind) == t@,
            None => true,
        },
    }
}

/// Decides the first filtering pass for one device. A device-path filter
/// takes precedence over a simultaneously set device-type filter.
pub fn check_device_filters(
    _serial_number: Option<&str>,
    device_path: Option<&str>,
    device_type: Option<&str>,
    kind: DeviceKind,
    path: &str,
) -> (r: bool)
    ensures
        r == spec_device_prefilter(device_path, device_type, kind, path@),
{
    if let Some(p) = device_path {
        return str_eq(path, p);
    }
    if let Some(t) = device_type {
        let name = device_type_name(kind);
        return str_eq(name.as_str(), t);
    }
    true
}

/// A device is matched when it passes the first filtering pass, was
/// opened, and carries the required serial number (if one is required).
pub open spec fn spec_device_matches(
    serial_number: Option<&str>,
    device_path: Option<&str>,
    device_type: Option<&str>,
    d: CandidateDevice,
) -> bool {
    &&& spec_device_prefilter(device_path, device_type, d.kind, d.path@)
    &&& d.opened
    &&& (serial_number matches Some(s) ==> (d.serial matches Some(actual) && actual@ == s@))
}

/// `ix` selects exactly the matched devices, in enumeration order.
pub open spec fn spec_is_match_selection(
    ix: Seq<usize>,
    devices: Seq<CandidateDevice>,
    serial_number: Option<&str>,
    device_path: Option<&str>,
    device_type: Option<&str>,
) -> bool {
    &&& forall|j: int|
        0 <= j < ix.len() ==> ix[j] < devices.len() && spec_device_matches(
            serial_number,
            device_path,
            device_type,
            devices[ix[j] as int],
        )
    &&& forall|i: int|
        0 <= i < devices.len() && spec_device_matches(
            serial_number,
            device_path,
            device_type,
            devices[i],
        ) ==> ix.contains(i as usize)
    &&& forall|j1: int, j2: int| 0 <= j1 < j2 < ix.len() ==> ix[j1] < ix[j2]
}

/// The error the matcher reports: more than one filter kind at once, or —
/// only when a device is required — that nothing matched, named by serial
/// number when the filter gave one.
pub open spec fn spec_match_error(
    e: CliError,
    devices: Seq<CandidateDevice>,
    serial_number: Option<&str>,
    device_path: Option<&str>,
    device_type: Option<&str>,
    require_device: bool,
) -> bool {
    if spec_filter_count(serial_number, device_path, device_type) > 1 {
        e is MultipleFiltersSpecified
    } else {
        &&& require_device
        &&& forall|i: int|
            0 <= i < devices.len() ==> !spec_device_matches(
                serial_number,
                device_path,
                device_type,
                devices[i],
            )
        &&& match serial_number {
            Some(s) => e matches CliError::DeviceNotFound(t) && t@ == s@,
            None => e is NoDevicesFound,
        }
    }
}

/// Selects the devices the given filter matches, as indices into the
/// snapshot. At most one filter kind may be set. When a device is
/// required and nothing matched, the absence is an error; otherwise an
/// empty selection is an ordinary result.
pub fn get_all_supported_devices(
    devices: &Vec<CandidateDevice>,
    serial_number: Option<&str>,
    device_path: Option<&str>,
    device_type: Option<&str>,
    require_device: bool,
) -> (r: Result<Vec<usize>, CliError>)
    ensures
        r is Err <==> (spec_filter_count(serial_number, device_path, device_type) > 1 || (
        require_device && (forall|i: int|
            0 <= i < devices@.len() ==> !spec_device_matches(
                serial_number,
                device_path,
                device_type,
                devices@[i],
            )))),
        r matches Ok(ix) ==> spec_is_match_selection(
            ix@,
            devices@,
            serial_number,
            device_path,
            device_type,
        ),
        r matches Err(e) ==> spec_match_error(
            e,
            devices@,
            serial_number,
            device_path,
            device_type,
            require_device,
        ),
{
    match validate_single_filter(serial_number, device_path, device_type) {
        Ok(_) => {},
        Err(e) => {
            return Err(e);
        },
    }
    let mut ix: Vec<usize> = Vec::new();
    let mut i: usize = 0;
    while i < devices.len()
        invariant
            i <= devices@.len(),
            forall|j: int|
                0 <= j < ix@.len() ==> ix@[j] < i && spec_device_matches(
                    serial_number,
                    device_path,
                    device_type,
                    devices@[ix@[j] as int],
                ),
            forall|k: int|
                0 <= k < i && spec_device_matches(
                    serial_number,
                    device_path,
                    device_type,
                    devices@[k],
                ) ==> ix@.contains(k as usize),
            forall|j1: int, j2: int| 0 <= j1 < j2 < ix@.len() ==> ix@[j1] < ix@[j2],
        decreases devices@.len() - i,
    {
        let d = &devices[i];
        let passes = check_device_filters(serial_number, device_path, device_type, d.kind,
            d.path.as_str());
        let serial_ok = match (serial_number, &d.serial) {
            (Some(want), Some(actual)) => str_eq(actual.as_str(), want),
            (Some(_), None) => false,
            (None, _) => true,
        };
        if passes && d.opened && serial_ok {
            let ghost old_ix = ix@;
            ix.push(i);
            proof {
                assert forall|k: int|
                    0 <= k < i + 1 && spec_device_matches(
                        serial_number,
                        device_path,
                        device_type,
                        devices@[k],
                    ) implies ix@.contains(k as usize) by {
                    if k < i {
                        assert(old_ix.contains(k as usize));
                        let j = choose|j: int| 0 <= j < old_ix.len() && old_ix[j] == k as usize;
                        assert(ix@[j] == k as usize);
                    } else {
                        assert(ix@[ix@.len() - 1] == i);
                    }
                }
            }
        } else {
            proof {
                assert(!spec_device_matches(serial_number, device_path, device_type, devices@[
                    i as int]));
            }
        }
        i += 1;
    }
    proof {
        if ix@.len() == 0 {
            assert forall|k: int|
                0 <= k < devices@.len() implies !spec_device_matches(
                serial_number,
                device_path,
                device_type,
                devices@[k],
            ) by {
                if spec_device_matches(serial_number, device_path, device_type, devices@[k]) {
                    assert(ix@.contains(k as usize));
                }
            }
        } else {
            assert(spec_device_matches(serial_number, device_path, device_type, devices@[ix@[0] as int]));
        }
    }
    if ix.len() == 0 && require_device {
        match serial_number {
            Some(s) => Err(CliError::DeviceNotFound(s.to_owned())),
            None => Err(CliError::NoDevicesFound),
        }
    } else {
        Ok(ix)
    }
}

/// The warning rendered when an action found no device to target.
pub open spec fn spec_device_not_found_message(serial_number: Option<&str>) -> Seq<char> {
    match serial_number {
        Some(s) => "Litra device with serial number "@ + s@ + " not found"@,
        None => "No Litra devices found"@,
    }
}

/// Renders the warning that is logged when an action found no device to
/// target.
pub fn print_device_not_found_log(serial_number: Option<&str>) -> (r: String)
    ensures
        r@ == spec_device_not_found_message(serial_number),
{
    match serial_number {
        Some(s) => {
            let mut m = "Litra device with serial number ".to_owned();
            m.append(s);
            m.append(" not found");
            m
        },
        None => "No Litra devices found".to_owned(),
    }
}

/// The serial number as it is logged: the device's own serial when it has
/// one, a dash when it has none.
pub fn get_serial_number_with_fallback(serial_number: Option<&str>) -> (r: String)
    ensures
        match serial_number {
            Some(s) => r@ == s@,
            None => r@ == "-"@,
        },
{
    match serial_number {
        Some(s) => s.to_owned(),
        None => "-".to_owned(),
    }
}

} // verus!
