//! The error taxonomy of the autotoggle core, and the exact text each
//! error renders to.

use vstd::prelude::*;

verus! {

/// Everything that can go wrong while matching devices, applying power,
/// or loading configuration.
///
/// Errors raised by the device subsystem or by the platform event feed
/// reach the library as plain text (`DeviceError`, `IoError`); the other
/// variants originate in the library itself.
#[derive(Debug)]
pub enum CliError {
    /// The device subsystem failed (enumeration, refresh, context setup).
    DeviceError(String),
    /// The platform event feed failed.
    IoError(String),
    /// No device matched and one was required.
    NoDevicesFound,
    /// No device with the required serial number matched.
    DeviceNotFound(String),
    /// More than one filter kind was given at once.
    MultipleFiltersSpecified,
    /// The configuration file could not be read or understood.
    ConfigFileError(String),
    /// A device type outside the supported set was named.
    InvalidDeviceType(String),
}

/// The text that `CliError::message` renders for an error.
pub open spec fn spec_cli_error_message(e: CliError) -> Seq<char> {
    match e {
        CliError::DeviceError(t) => t@,
        CliError::IoError(t) => "Input/output error: "@ + t@,
        CliError::NoDevicesFound => "No Litra devices found"@,
        CliError::DeviceNotFound(s) => "Litra device with serial number "@ + s@
            + " not found"@,
        CliError::MultipleFiltersSpecified => "Only one filter (--serial-number, --device-path, or --device-type) can be specified at a time."@,
        CliError::ConfigFileError(t) => "Configuration file error: "@ + t@,
        CliError::InvalidDeviceType(t) => "Invalid device type '"@ + t@
            + "'. Must be one of: glow, beam, beam_lx"@,
    }
}

impl CliError {
    /// Renders the error as the line the program prints before exiting.
    pub fn message(&self) -> (r: String)
        ensures
            r@ == spec_cli_error_message(*self),
    {
        match self {
            CliError::DeviceError(t) => t.clone(),
            CliError::IoError(t) => {
                let mut m = "Input/output error: ".to_owned();
                m.append(t.as_str());
                m
            },
            CliError::NoDevicesFound => "No Litra devices found".to_owned(),
            CliError::DeviceNotFound(s) => {
                let mut m = "Litra device with serial number ".to_owned();
                m.append(s.as_str());
                m.append(" not found");
                m
            },
            CliError::MultipleFiltersSpecified => "Only one filter (--serial-number, --device-path, or --device-type) can be specified at a time.".to_owned(),
            CliError::ConfigFileError(t) => {
                let mut m = "Configuration file error: ".to_owned();
                m.append(t.as_str());
                m
            },
            CliError::InvalidDeviceType(t) => {
                let mut m = "Invalid device type '".to_owned();
                m.append(t.as_str());
                m.append("'. Must be one of: glow, beam, beam_lx");
                m
            },
        }
    }
}

} // verus!
