//! Configuration model: the command-line options, the configuration file
//! values, the filter validation rules, and the merge of the two sources.

use vstd::prelude::*;
use crate::error::CliError;
use crate::text::str_eq;
use crate::yaml::{yaml_from_str, yaml_scalar, yaml_top_entries, YamlScalar, YamlTop};

verus! {

/// The settle delay used when neither the command line nor the
/// configuration file names one, in milliseconds.
pub const DEFAULT_DELAY_MS: u64 = 1500;

/// Values read from the YAML configuration file. Every field is optional;
/// an absent field leaves the command-line value (or its default) in force.
#[derive(Debug)]
pub struct Config {
    /// Target only the device with this serial number.
    pub serial_number: Option<String>,
    /// Target only the device at this path.
    pub device_path: Option<String>,
    /// Target only devices of this type (`glow`, `beam` or `beam_lx`).
    pub device_type: Option<String>,
    /// Fail whenever no device matches.
    pub require_device: Option<bool>,
    /// The video device to monitor for camera activity.
    pub video_device: Option<String>,
    /// The settle delay in milliseconds.
    pub delay: Option<u64>,
    /// Emit detailed log messages.
    pub verbose: Option<bool>,
}

/// The program's effective options, after the command line and the
/// configuration file are merged.
#[derive(Debug)]
pub struct Cli {
    /// Path to the YAML configuration file, if one was given.
    pub config_file: Option<String>,
    /// Target only the device with this serial number.
    pub serial_number: Option<String>,
    /// Target only the device at this path.
    pub device_path: Option<String>,
    /// Target only devices of this type (`glow`, `beam` or `beam_lx`).
    pub device_type: Option<String>,
    /// Fail whenever no device matches.
    pub require_device: bool,
    /// The video device to monitor for camera activity.
    pub video_device: Option<String>,
    /// The settle delay in milliseconds.
    pub delay: u64,
    /// Emit detailed log messages.
    pub verbose: bool,
}

/// How many filter kinds are active in a (serial, path, type) triple.
pub open spec fn spec_filter_count(
    serial_number: Option<&str>,
    device_path: Option<&str>,
    device_type: Option<&str>,
) -> int {
    (if serial_number is Some { 1int } else { 0int })
        + (if device_path is Some { 1int } else { 0int })
        + (if device_type is Some { 1int } else { 0int })
}

/// At most one filter kind may be active at a time.
pub fn validate_single_filter(
    serial_number: Option<&str>,
    device_path: Option<&str>,
    device_type: Option<&str>,
) -> (r: Result<(), CliError>)
    ensures
        r is Ok <==> spec_filter_count(serial_number, device_path, device_type) <= 1,
        r matches Err(e) ==> e is MultipleFiltersSpecified,
{
    let mut filter_count: u8 = 0;
    if serial_number.is_some() {
        filter_count += 1;
    }
    if device_path.is_some() {
        filter_count += 1;
    }
    if device_type.is_some() {
        filter_count += 1;
    }
    if filter_count > 1 {
        Err(CliError::MultipleFiltersSpecified)
    } else {
        Ok(())
    }
}

/// The supported device types, as they are written in a filter.
pub open spec fn is_valid_device_type(s: Seq<char>) -> bool {
    s == "glow"@ || s == "beam"@ || s == "beam_lx"@
}

/// A device type filter must name one of the supported types.
pub fn validate_device_type(device_type: &str) -> (r: Result<(), CliError>)
    ensures
        r is Ok <==> is_valid_device_type(device_type@),
        r matches Err(e) ==> e matches CliError::InvalidDeviceType(t) && t@ == device_type@,
{
    if str_eq(device_type, "glow") || str_eq(device_type, "beam") || str_eq(
        device_type,
        "beam_lx",
    ) {
        Ok(())
    } else {
        Err(CliError::InvalidDeviceType(device_type.to_owned()))
    }
}

/// The options that result from filling the command line's unset values
/// from the configuration file. Command-line values take precedence; the
/// delay from the file is only taken while the command line still carries
/// the default.
pub open spec fn spec_merged_cli(cli: Cli, config: Config) -> Cli {
    Cli {
        config_file: cli.config_file,
        serial_number: if cli.serial_number is Some {
            cli.serial_number
        } else {
            config.serial_number
        },
        device_path: if cli.device_path is Some {
            cli.device_path
        } else {
            config.device_path
        },
        device_type: if cli.device_type is Some {
            cli.device_type
        } else {
            config.device_type
        },
        require_device: cli.require_device || (config.require_device matches Some(true)),
        video_device: if cli.video_device is Some {
            cli.video_device
        } else {
            config.video_device
        },
        delay: if cli.delay == DEFAULT_DELAY_MS && config.delay is Some {
            config.delay->0
        } else {
            cli.delay
        },
        verbose: cli.verbose || (config.verbose matches Some(true)),
    }
}

/// The merged options when a configuration file was loaded, the plain
/// command-line options when none was.
pub open spec fn spec_merge_input(cli: Cli, config: Option<Config>) -> Cli {
    match config {
        Some(c) => spec_merged_cli(cli, c),
        None => cli,
    }
}

/// Merges the configuration file values into the command-line options and
/// validates the resulting device type filter.
pub fn merge_config_with_cli(cli: Cli, config: Option<Config>) -> (r: Result<Cli, CliError>)
    ensures
        ({
            let m = spec_merge_input(cli, config);
            &&& (r is Ok <==> (m.device_type matches Some(t) ==> is_valid_device_type(t@)))
            &&& (r matches Ok(out) ==> out == m)
            &&& (r matches Err(e) ==> (m.device_type matches Some(t) && !is_valid_device_type(
                t@,
            ) && (e matches CliError::InvalidDeviceType(u) && u@ == t@)))
        }),
{
    let mut cli = cli;
    if let Some(c) = config {
        if cli.serial_number.is_none() {
            cli.serial_number = c.serial_number;
        }
        if cli.device_path.is_none() {
            cli.device_path = c.device_path;
        }
        if cli.device_type.is_none() {
            cli.device_type = c.device_type;
        }
        if !cli.require_device {
            cli.require_device = match c.require_device {
                Some(b) => b,
                None => false,
            };
        }
        if cli.video_device.is_none() {
            cli.video_device = c.video_device;
        }
        if cli.delay == DEFAULT_DELAY_MS {
            if let Some(d) = c.delay {
                cli.delay = d;
            }
        }
        if !cli.verbose {
            cli.verbose = match c.verbose {
                Some(b) => b,
                None => false,
            };
        }
    }
    if let Some(ref device_type) = cli.device_type {
        match validate_device_type(device_type.as_str()) {
            Ok(_) => {},
            Err(e) => {
                return Err(e);
            },
        }
    }
    Ok(cli)
}

/// The configuration with no field set, as an empty document leaves it.
pub open spec fn spec_empty_config() -> Config {
    Config {
        serial_number: None,
        device_path: None,
        device_type: None,
        require_device: None,
        video_device: None,
        delay: None,
        verbose: None,
    }
}

/// How many filter kinds a configuration sets.
pub open spec fn spec_config_filter_count(c: Config) -> int {
    (if c.serial_number is Some { 1int } else { 0int })
        + (if c.device_path is Some { 1int } else { 0int })
        + (if c.device_type is Some { 1int } else { 0int })
}

/// Stores one document entry into the configuration: the named field takes
/// the scalar when the scalar has the field's kind; an entry of the wrong
/// kind or under an unknown name is an error, rendered as the text of the
/// `ConfigFileError` it becomes.
pub open spec fn spec_set_field(c: Config, name: Seq<char>, v: YamlScalar) -> Result<
    Config,
    Seq<char>,
> {
    if name == "serial_number"@ {
        match v {
            YamlScalar::Text(s) => Ok(Config { serial_number: Some(s), ..c }),
            _ => Err("Failed to parse YAML: invalid value for field `serial_number`"@),
        }
    } else if name == "device_path"@ {
        match v {
            YamlScalar::Text(s) => Ok(Config { device_path: Some(s), ..c }),
            _ => Err("Failed to parse YAML: invalid value for field `device_path`"@),
        }
    } else if name == "device_type"@ {
        match v {
            YamlScalar::Text(s) => Ok(Config { device_type: Some(s), ..c }),
            _ => Err("Failed to parse YAML: invalid value for field `device_type`"@),
        }
    } else if name == "require_device"@ {
        match v {
            YamlScalar::Flag(b) => Ok(Config { require_device: Some(b), ..c }),
            _ => Err("Failed to parse YAML: invalid value for field `require_device`"@),
        }
    } else if name == "video_device"@ {
        match v {
            YamlScalar::Text(s) => Ok(Config { video_device: Some(s), ..c }),
            _ => Err("Failed to parse YAML: invalid value for field `video_device`"@),
        }
    } else if name == "delay"@ {
        match v {
            YamlScalar::UInt(u) => Ok(Config { delay: Some(u), ..c }),
            _ => Err("Failed to parse YAML: invalid value for field `delay`"@),
        }
    } else if name == "verbose"@ {
        match v {
            YamlScalar::Flag(b) => Ok(Config { verbose: Some(b), ..c }),
            _ => Err("Failed to parse YAML: invalid value for field `verbose`"@),
        }
    } else {
        Err("Failed to parse YAML: unknown field `"@ + name + "`"@)
    }
}

/// Stores the document entries into the configuration from left to right,
/// stopping at the first entry that is in error.
pub open spec fn spec_fill_config(c: Config, fields: Seq<(String, YamlScalar)>) -> Result<
    Config,
    Seq<char>,
> decreases fields.len(),
{
    if fields.len() == 0 {
        Ok(c)
    } else {
        match spec_set_field(c, fields.first().0@, fields.first().1) {
            Ok(c2) => spec_fill_config(c2, fields.drop_first()),
            Err(m) => Err(m),
        }
    }
}

/// Builds the configuration from the document's entries, reduced to plain
/// names and scalars.
pub fn config_from_fields(fields: &Vec<(String, YamlScalar)>) -> (r: Result<Config, CliError>)
    ensures
        ({
            let f = spec_fill_config(spec_empty_config(), fields@);
            &&& (r is Ok <==> f is Ok)
            &&& (r matches Ok(c) ==> f == Ok::<Config, Seq<char>>(c))
            &&& (r matches Err(e) ==> (f matches Err(m) && (e matches CliError::ConfigFileError(t)
                && t@ == m)))
        }),
{
    let mut c = Config {
        serial_number: None,
        device_path: None,
        device_type: None,
        require_device: None,
        video_device: None,
        delay: None,
        verbose: None,
    };
    let mut i: usize = 0;
    proof {
        assert(fields@.skip(0) =~= fields@);
    }
    while i < fields.len()
        invariant
            i <= fields@.len(),
            spec_fill_config(spec_empty_config(), fields@) == spec_fill_config(
                c,
                fields@.skip(i as int),
            ),
        decreases fields@.len() - i,
    {
        proof {
            assert(fields@.skip(i as int).first() == fields@[i as int]);
            assert(fields@.skip(i as int).drop_first() =~= fields@.skip(i as int + 1));
        }
        let name: &String = &fields[i].0;
        let scalar: &YamlScalar = &fields[i].1;
        if str_eq(name.as_str(), "serial_number") {
            match scalar {
                YamlScalar::Text(s) => {
                    c.serial_number = Some(s.clone());
                },
                _ => {
                    return Err(
                        CliError::ConfigFileError(
                            "Failed to parse YAML: invalid value for field `serial_number`".to_owned(),
                        ),
                    );
                },
            }
        } else if str_eq(name.as_str(), "device_path") {
            match scalar {
                YamlScalar::Text(s) => {
                    c.device_path = Some(s.clone());
                },
                _ => {
                    return Err(
                        CliError::ConfigFileError(
                            "Failed to parse YAML: invalid value for field `device_path`".to_owned(),
                        ),
                    );
                },
            }
        } else if str_eq(name.as_str(), "device_type") {
            match scalar {
                YamlScalar::Text(s) => {
                    c.device_type = Some(s.clone());
                },
                _ => {
                    return Err(
                        CliError::ConfigFileError(
                            "Failed to parse YAML: invalid value for field `device_type`".to_owned(),
                        ),
                    );
                },
            }
        } else if str_eq(name.as_str(), "require_device") {
            match scalar {
                YamlScalar::Flag(b) => {
                    c.require_device = Some(*b);
                },
                _ => {
                    return Err(
                        CliError::ConfigFileError(
                            "Failed to parse YAML: invalid value for field `require_device`".to_owned(),
                        ),
                    );
                },
            }
        } else if str_eq(name.as_str(), "video_device") {
            match scalar {
                YamlScalar::Text(s) => {
                    c.video_device = Some(s.clone());
                },
                _ => {
                    return Err(
                        CliError::ConfigFileError(
                            "Failed to parse YAML: invalid value for field `video_device`".to_owned(),
                        ),
                    );
                },
            }
        } else if str_eq(name.as_str(), "delay") {
            match scalar {
                YamlScalar::UInt(u) => {
                    c.delay = Some(*u);
                },
                _ => {
                    return Err(
                        CliError::ConfigFileError(
                            "Failed to parse YAML: invalid value for field `delay`".to_owned(),
                        ),
                    );
                },
            }
        } else if str_eq(name.as_str(), "verbose") {
            match scalar {
                YamlScalar::Flag(b) => {
                    c.verbose = Some(*b);
                },
                _ => {
                    return Err(
                        CliError::ConfigFileError(
                            "Failed to parse YAML: invalid value for field `verbose`".to_owned(),
                        ),
                    );
                },
            }
        } else {
            let mut m = "Failed to parse YAML: unknown field `".to_owned();
            m.append(name.as_str());
            m.append("`");
            return Err(CliError::ConfigFileError(m));
        }
        i += 1;
    }
    Ok(c)
}

/// Loads a configuration from the text of a YAML document and validates
/// it: the device type filter must name a supported type, and at most one
/// filter kind may be set.
pub fn load_config(contents: &str) -> (r: Result<Config, CliError>)
    ensures
        r matches Ok(c) ==> ((c.device_type matches Some(t) ==> is_valid_device_type(t@))
            && spec_config_filter_count(c) <= 1),
        r matches Err(e) ==> (e is ConfigFileError || e is InvalidDeviceType
            || e is MultipleFiltersSpecified),
        r matches Err(e) ==> (e matches CliError::InvalidDeviceType(t) ==> !is_valid_device_type(
            t@,
        )),
{
    let doc = match yaml_from_str(contents) {
        Ok(v) => v,
        Err(e) => {
            let mut m = "Failed to parse YAML: ".to_owned();
            m.append(e.as_str());
            return Err(CliError::ConfigFileError(m));
        },
    };
    let entries = match yaml_top_entries(&doc) {
        YamlTop::Empty => Vec::new(),
        YamlTop::Entries(v) => v,
        YamlTop::NotMapping => {
            return Err(
                CliError::ConfigFileError(
                    "Failed to parse YAML: invalid type: the document is not a mapping".to_owned(),
                ),
            );
        },
    };
    let mut fields: Vec<(String, YamlScalar)> = Vec::new();
    let mut i: usize = 0;
    while i < entries.len()
        invariant
            i <= entries@.len(),
        decreases entries@.len() - i,
    {
        let name = match yaml_scalar(&entries[i].0) {
            YamlScalar::Text(s) => s,
            _ => {
                return Err(
                    CliError::ConfigFileError(
                        "Failed to parse YAML: invalid key: every key must be a string".to_owned(),
                    ),
                );
            },
        };
        let value = yaml_scalar(&entries[i].1);
        fields.push((name, value));
        i += 1;
    }
    let c = match config_from_fields(&fields) {
        Ok(c) => c,
        Err(e) => {
            return Err(e);
        },
    };
    if let Some(ref t) = c.device_type {
        match validate_device_type(t.as_str()) {
            Ok(_) => {},
            Err(e) => {
                return Err(e);
            },
        }
    }
    let serial_number = match &c.serial_number {
        Some(s) => Some(s.as_str()),
        None => None,
    };
    let device_path = match &c.device_path {
        Some(s) => Some(s.as_str()),
        None => None,
    };
    let device_type = match &c.device_type {
        Some(s) => Some(s.as_str()),
        None => None,
    };
    match validate_single_filter(serial_number, device_path, device_type) {
        Ok(_) => {},
        Err(e) => {
            return Err(e);
        },
    }
    Ok(c)
}

} // verus!
