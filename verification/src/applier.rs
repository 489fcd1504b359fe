//! The device applier: plans which devices a power change targets and
//! renders the log lines of the attempt.
//!
//! The plan is computed before any device is touched and covers every
//! matched device, so one device's failure can never keep a sibling from
//! its attempt; per-device failures are logged and never abort the rest.

use vstd::prelude::*;
use crate::config::spec_filter_count;
use crate::error::CliError;
use crate::matcher::{
    get_all_supported_devices, print_device_not_found_log, spec_device_matches,
    spec_device_not_found_message, spec_is_match_selection, spec_match_error, CandidateDevice,
    DeviceKind,
};

verus! {

/// What a power change will do: the devices to set (all of them,
/// independent of one another), and the warning to log when nothing
/// matched.
#[derive(Debug)]
pub struct TogglePlan {
    /// The power state every targeted device is set to.
    pub on: bool,
    /// The matched devices, as indices into the snapshot.
    pub matched: Vec<usize>,
    /// The not-found warning, present exactly when nothing matched.
    pub not_found: Option<String>,
}

/// The plan a power change makes for a snapshot and a filter.
pub open spec fn spec_is_toggle_plan(
    plan: TogglePlan,
    devices: Seq<CandidateDevice>,
    serial_number: Option<&str>,
    device_path: Option<&str>,
    device_type: Option<&str>,
    on: bool,
) -> bool {
    &&& plan.on == on
    &&& spec_is_match_selection(plan.matched@, devices, serial_number, device_path, device_type)
    &&& (plan.matched@.len() == 0 <==> plan.not_found is Some)
    &&& (plan.not_found matches Some(m) ==> m@ == spec_device_not_found_message(serial_number))
}

fn plan_toggle(
    devices: &Vec<CandidateDevice>,
    serial_number: Option<&str>,
    device_path: Option<&str>,
    device_type: Option<&str>,
    require_device: bool,
    on: bool,
) -> (r: Result<TogglePlan, CliError>)
    ensures
        r is Err <==> (spec_filter_count(serial_number, device_path, device_type) > 1 || (
        require_device && (forall|i: int|
            0 <= i < devices@.len() ==> !spec_device_matches(
                serial_number,
                device_path,
                device_type,
                devices@[i],
            )))),
        r matches Ok(p) ==> spec_is_toggle_plan(
            p,
            devices@,
            serial_number,
            device_path,
            device_type,
            on,
        ),
        r matches Err(e) ==> spec_match_error(
            e,
            devices@,
            serial_number,
            device_path,
            device_type,
            require_device,
        ),
{
    let matched = match get_all_supported_devices(
        devices,
        serial_number,
        device_path,
        device_type,
        require_device,
    ) {
        Ok(ix) => ix,
        Err(e) => {
            return Err(e);
        },
    };
    let not_found = if matched.len() == 0 {
        Some(print_device_not_found_log(serial_number))
    } else {
        None
    };
    Ok(TogglePlan { on, matched, not_found })
}

/// Plans turning the matched devices on. Nothing matching is an error only
/// when a device is required; otherwise the plan carries the not-found
/// warning and targets nothing.
pub fn turn_on_all_supported_devices_and_log(
    devices: &Vec<CandidateDevice>,
    serial_number: Option<&str>,
    device_path: Option<&str>,
    device_type: Option<&str>,
    require_device: bool,
) -> (r: Result<TogglePlan, CliError>)
    ensures
        r is Err <==> (spec_filter_count(serial_number, device_path, device_type) > 1 || (
        require_device && (forall|i: int|
            0 <= i < devices@.len() ==> !spec_device_matches(
                serial_number,
                device_path,
                device_type,
                devices@[i],
            )))),
        r matches Ok(p) ==> spec_is_toggle_plan(
            p,
            devices@,
            serial_number,
            device_path,
            device_type,
            true,
        ),
        r matches Err(e) ==> spec_match_error(
            e,
            devices@,
            serial_number,
            device_path,
            device_type,
            require_device,
        ),
{
    plan_toggle(devices, serial_number, device_path, device_type, require_device, true)
}

/// Plans turning the matched devices off, with the same rules as turning
/// them on.
pub fn turn_off_all_supported_devices_and_log(
    devices: &Vec<CandidateDevice>,
    serial_number: Option<&str>,
    device_path: Option<&str>,
    device_type: Option<&str>,
    require_device: bool,
) -> (r: Result<TogglePlan, CliError>)
    ensures
        r is Err <==> (spec_filter_count(serial_number, device_path, device_type) > 1 || (
        require_device && (forall|i: int|
            0 <= i < devices@.len() ==> !spec_device_matches(
                serial_number,
                device_path,
                device_type,
                devices@[i],
            )))),
        r matches Ok(p) ==> spec_is_toggle_plan(
            p,
            devices@,
            serial_number,
            device_path,
            device_type,
            false,
        ),
        r matches Err(e) ==> spec_match_error(
            e,
            devices@,
            serial_number,
            device_path,
            device_type,
            require_device,
        ),
{
    plan_toggle(devices, serial_number, device_path, device_type, require_device, false)
}

/// One device's share of an executed plan: which device it was, the serial
/// label it is logged under, and the failure text when setting its power
/// failed.
#[derive(Debug)]
pub struct ApplyOutcome {
    /// The device family.
    pub kind: DeviceKind,
    /// The serial number as logged (a dash when the device has none).
    pub serial_label: String,
    /// The failure text, present exactly when setting the power failed.
    pub error: Option<String>,
}

/// The display name of a device family.
pub open spec fn spec_kind_label(k: DeviceKind) -> Seq<char> {
    match k {
        DeviceKind::Glow => "Litra Glow"@,
        DeviceKind::Beam => "Litra Beam"@,
        DeviceKind::BeamLx => "Litra Beam LX"@,
    }
}

/// The display name of a device family: `Litra Glow`, `Litra Beam` or
/// `Litra Beam LX`.
pub fn device_type_label(kind: DeviceKind) -> (r: String)
    ensures
        r@ == spec_kind_label(kind),
{
    match kind {
        DeviceKind::Glow => "Litra Glow".to_owned(),
        DeviceKind::Beam => "Litra Beam".to_owned(),
        DeviceKind::BeamLx => "Litra Beam LX".to_owned(),
    }
}

/// The line announcing one device's attempt.
pub open spec fn spec_attempt_line(on: bool, o: ApplyOutcome) -> Seq<char> {
    (if on {
        "Turning on "@
    } else {
        "Turning off "@
    }) + spec_kind_label(o.kind) + " device (serial number: "@ + o.serial_label@ + ")"@
}

/// The line reporting one device's failure.
pub open spec fn spec_failure_line(on: bool, o: ApplyOutcome, e: Seq<char>) -> Seq<char> {
    (if on {
        "Failed to turn on "@
    } else {
        "Failed to turn off "@
    }) + spec_kind_label(o.kind) + " device (serial number: "@ + o.serial_label@ + "): "@ + e
}

/// The lines one device contributes: its attempt, and its failure when it
/// failed.
pub open spec fn spec_outcome_lines(on: bool, o: ApplyOutcome) -> Seq<Seq<char>> {
    match o.error {
        None => seq![spec_attempt_line(on, o)],
        Some(e) => seq![spec_attempt_line(on, o), spec_failure_line(on, o, e@)],
    }
}

/// The lines an executed plan logs, device by device in plan order.
pub open spec fn spec_toggle_log_lines(on: bool, os: Seq<ApplyOutcome>) -> Seq<Seq<char>>
    decreases os.len(),
{
    if os.len() == 0 {
        Seq::empty()
    } else {
        spec_outcome_lines(on, os.first()) + spec_toggle_log_lines(on, os.drop_first())
    }
}

proof fn lemma_toggle_lines_push(on: bool, os: Seq<ApplyOutcome>, o: ApplyOutcome)
    ensures
        spec_toggle_log_lines(on, os.push(o)) == spec_toggle_log_lines(on, os)
            + spec_outcome_lines(on, o),
    decreases os.len(),
{
    if os.len() == 0 {
        assert(os.push(o).drop_first() =~= os);
        assert(os.push(o).first() == o);
        assert(spec_toggle_log_lines(on, os.push(o)) =~= spec_toggle_log_lines(on, os)
            + spec_outcome_lines(on, o));
    } else {
        assert(os.push(o).drop_first() =~= os.drop_first().push(o));
        assert(os.push(o).first() == os.first());
        lemma_toggle_lines_push(on, os.drop_first(), o);
        assert(spec_toggle_log_lines(on, os.push(o)) =~= spec_toggle_log_lines(on, os)
            + spec_outcome_lines(on, o));
    }
}

/// The line announcing a device found at startup.
pub open spec fn spec_found_line(kind: DeviceKind, serial_label: Seq<char>) -> Seq<char> {
    "Found "@ + spec_kind_label(kind) + " device (serial number: "@ + serial_label + ")"@
}

/// Renders the startup announcement of the devices a first best-effort
/// match found, one line per device in match order.
pub fn found_device_log_lines(found: &Vec<(DeviceKind, String)>) -> (r: Vec<String>)
    ensures
        r@.len() == found@.len(),
        forall|i: int|
            0 <= i < r@.len() ==> r@[i]@ == spec_found_line(found@[i].0, found@[i].1@),
{
    let mut r: Vec<String> = Vec::new();
    let mut i: usize = 0;
    while i < found.len()
        invariant
            i <= found@.len(),
            r@.len() == i,
            forall|j: int|
                0 <= j < i ==> r@[j]@ == spec_found_line(found@[j].0, found@[j].1@),
        decreases found@.len() - i,
    {
        let kind = found[i].0;
        let mut line = "Found ".to_owned();
        let label = device_type_label(kind);
        line.append(label.as_str());
        line.append(" device (serial number: ");
        line.append(found[i].1.as_str());
        line.append(")");
        r.push(line);
        i += 1;
    }
    r
}

/// Renders the log lines of an executed plan: every device's attempt is
/// announced, and a device that failed adds its failure line — the
/// devices around it are reported exactly as if it had succeeded.
pub fn toggle_log_lines(on: bool, outcomes: &Vec<ApplyOutcome>) -> (r: Vec<String>)
    ensures
        r.deep_view() == spec_toggle_log_lines(on, outcomes@),
{
    let mut r: Vec<String> = Vec::new();
    let mut i: usize = 0;
    proof {
        assert(outcomes@.take(0) =~= Seq::<ApplyOutcome>::empty());
        assert(r.deep_view() =~= spec_toggle_log_lines(on, outcomes@.take(0)));
    }
    while i < outcomes.len()
        invariant
            i <= outcomes@.len(),
            r.deep_view() == spec_toggle_log_lines(on, outcomes@.take(i as int)),
        decreases outcomes@.len() - i,
    {
        let ghost prev = r.deep_view();
        let o = &outcomes[i];
        let mut line = if on {
            "Turning on ".to_owned()
        } else {
            "Turning off ".to_owned()
        };
        let label = device_type_label(o.kind);
        line.append(label.as_str());
        line.append(" device (serial number: ");
        line.append(o.serial_label.as_str());
        line.append(")");
        r.push(line);
        proof {
            assert(r.deep_view() =~= prev.push(spec_attempt_line(on, outcomes@[i as int])));
        }
        match &o.error {
            Some(e) => {
                let ghost mid = r.deep_view();
                let mut fail = if on {
                    "Failed to turn on ".to_owned()
                } else {
                    "Failed to turn off ".to_owned()
                };
                let label2 = device_type_label(o.kind);
                fail.append(label2.as_str());
                fail.append(" device (serial number: ");
                fail.append(o.serial_label.as_str());
                fail.append("): ");
                fail.append(e.as_str());
                r.push(fail);
                proof {
                    assert(r.deep_view() =~= mid.push(spec_failure_line(on, outcomes@[i as int],
                        e@)));
                }
            },
            None => {},
        }
        proof {
            lemma_toggle_lines_push(on, outcomes@.take(i as int), outcomes@[i as int]);
            assert(outcomes@.take(i as int).push(outcomes@[i as int]) =~= outcomes@.take(
                i as int + 1));
            assert(r.deep_view() =~= prev + spec_outcome_lines(on, outcomes@[i as int]));
        }
        i += 1;
    }
    proof {
        assert(outcomes@.take(outcomes@.len() as int) =~= outcomes@);
    }
    r
}

} // verus!
