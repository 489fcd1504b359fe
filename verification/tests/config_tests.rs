use litra_autotoggle::config::{
    load_config, merge_config_with_cli, validate_device_type, validate_single_filter, Cli, Config,
    DEFAULT_DELAY_MS,
};
use litra_autotoggle::error::CliError;

fn cli_with_defaults() -> Cli {
    Cli {
        config_file: None,
        serial_number: None,
        device_path: None,
        device_type: None,
        require_device: false,
        video_device: None,
        delay: DEFAULT_DELAY_MS,
        verbose: false,
    }
}

#[test]
fn test_load_valid_config_all_fields() {
    let config_content = r#"
serial_number: "ABC123"
delay: 2000
verbose: true
require_device: true
"#;
    let config = load_config(config_content).unwrap();

    assert_eq!(config.serial_number, Some("ABC123".to_string()));
    assert_eq!(config.delay, Some(2000));
    assert_eq!(config.verbose, Some(true));
    assert_eq!(config.require_device, Some(true));
}

#[test]
fn test_load_valid_config_device_type_glow() {
    let config_content = r#"
device_type: "glow"
"#;
    let config = load_config(config_content).unwrap();

    assert_eq!(config.device_type, Some("glow".to_string()));
}

#[test]
fn test_load_valid_config_device_type_beam() {
    let config_content = r#"
device_type: "beam"
"#;
    let config = load_config(config_content).unwrap();

    assert_eq!(config.device_type, Some("beam".to_string()));
}

#[test]
fn test_load_valid_config_device_type_beam_lx() {
    let config_content = r#"
device_type: "beam_lx"
"#;
    let config = load_config(config_content).unwrap();

    assert_eq!(config.device_type, Some("beam_lx".to_string()));
}

#[test]
fn test_load_valid_config_device_path() {
    let config_content = r#"
device_path: "/dev/hidraw0"
"#;
    let config = load_config(config_content).unwrap();

    assert_eq!(config.device_path, Some("/dev/hidraw0".to_string()));
}

#[test]
fn test_load_valid_config_empty() {
    let config_content = "";
    let config = load_config(config_content).unwrap();

    assert_eq!(config.serial_number, None);
    assert_eq!(config.device_type, None);
    assert_eq!(config.device_path, None);
}

#[test]
fn test_load_invalid_config_unknown_field() {
    let config_content = r#"
device_type: "glow"
unknown_field: "value"
"#;
    let result = load_config(config_content);

    assert!(result.is_err());
    match result {
        Err(CliError::ConfigFileError(msg)) => {
            assert!(msg.contains("unknown field"));
            assert!(msg.contains("unknown_field"));
        }
        _ => panic!("Expected ConfigFileError with unknown field message"),
    }
}

#[test]
fn test_load_invalid_config_invalid_device_type() {
    let config_content = r#"
device_type: "invalid_type"
"#;
    let result = load_config(config_content);

    assert!(result.is_err());
    match result {
        Err(CliError::InvalidDeviceType(device_type)) => {
            assert_eq!(device_type, "invalid_type");
        }
        _ => panic!("Expected InvalidDeviceType error"),
    }
}

#[test]
fn test_load_invalid_config_multiple_filters() {
    let config_content = r#"
serial_number: "ABC123"
device_type: "glow"
"#;
    let result = load_config(config_content);

    assert!(result.is_err());
    match result {
        Err(CliError::MultipleFiltersSpecified) => {}
        _ => panic!("Expected MultipleFiltersSpecified error"),
    }
}

#[test]
fn test_load_invalid_config_invalid_yaml() {
    let config_content = r#"
device_type: [invalid
"#;
    let result = load_config(config_content);

    assert!(result.is_err());
    match result {
        Err(CliError::ConfigFileError(msg)) => {
            assert!(msg.contains("Failed to parse YAML"));
        }
        _ => panic!("Expected ConfigFileError with YAML parse error"),
    }
}

#[test]
fn test_validate_device_type_valid() {
    assert!(validate_device_type("glow").is_ok());
    assert!(validate_device_type("beam").is_ok());
    assert!(validate_device_type("beam_lx").is_ok());
}

#[test]
fn test_validate_device_type_invalid() {
    assert!(validate_device_type("invalid").is_err());
    assert!(validate_device_type("").is_err());
    assert!(validate_device_type("GLOW").is_err()); // Case sensitive
}

#[test]
fn test_validate_single_filter_none() {
    assert!(validate_single_filter(None, None, None).is_ok());
}

#[test]
fn test_validate_single_filter_one() {
    assert!(validate_single_filter(Some("serial"), None, None).is_ok());
    assert!(validate_single_filter(None, Some("path"), None).is_ok());
    assert!(validate_single_filter(None, None, Some("glow")).is_ok());
}

#[test]
fn test_validate_single_filter_multiple() {
    assert!(validate_single_filter(Some("serial"), Some("path"), None).is_err());
    assert!(validate_single_filter(Some("serial"), None, Some("glow")).is_err());
    assert!(validate_single_filter(None, Some("path"), Some("glow")).is_err());
    assert!(validate_single_filter(Some("serial"), Some("path"), Some("glow")).is_err());
}

#[test]
fn test_config_deserialization_with_comments() {
    let config_content = r#"
# This is a comment
device_type: "glow"  # inline comment
delay: 2000
"#;
    let config = load_config(config_content).unwrap();

    assert_eq!(config.device_type, Some("glow".to_string()));
    assert_eq!(config.delay, Some(2000));
}

#[test]
fn test_load_config_rejects_wrong_scalar_kind() {
    let result = load_config("delay: \"soon\"\n");
    match result {
        Err(CliError::ConfigFileError(msg)) => {
            assert!(msg.contains("delay"));
        }
        _ => panic!("Expected ConfigFileError for a non-numeric delay"),
    }
}

#[test]
fn test_merge_cli_takes_precedence() {
    let mut cli = cli_with_defaults();
    cli.serial_number = Some("FROMCLI".to_string());
    let config = Config {
        serial_number: Some("FROMFILE".to_string()),
        device_path: Some("/dev/hidraw9".to_string()),
        device_type: None,
        require_device: Some(true),
        video_device: None,
        delay: Some(2500),
        verbose: Some(true),
    };
    let merged = merge_config_with_cli(cli, Some(config)).unwrap();
    assert_eq!(merged.serial_number, Some("FROMCLI".to_string()));
    assert_eq!(merged.device_path, Some("/dev/hidraw9".to_string()));
    assert!(merged.require_device);
    assert_eq!(merged.delay, 2500);
    assert!(merged.verbose);
}

#[test]
fn test_merge_keeps_non_default_cli_delay() {
    let mut cli = cli_with_defaults();
    cli.delay = 100;
    let config = Config {
        serial_number: None,
        device_path: None,
        device_type: None,
        require_device: None,
        video_device: None,
        delay: Some(2500),
        verbose: None,
    };
    let merged = merge_config_with_cli(cli, Some(config)).unwrap();
    assert_eq!(merged.delay, 100);
}

#[test]
fn test_merge_without_config_keeps_cli() {
    let mut cli = cli_with_defaults();
    cli.device_type = Some("beam".to_string());
    let merged = merge_config_with_cli(cli, None).unwrap();
    assert_eq!(merged.device_type, Some("beam".to_string()));
    assert_eq!(merged.delay, DEFAULT_DELAY_MS);
}

#[test]
fn test_merge_rejects_invalid_device_type_from_config() {
    let cli = cli_with_defaults();
    let config = Config {
        serial_number: None,
        device_path: None,
        device_type: Some("laser".to_string()),
        require_device: None,
        video_device: None,
        delay: None,
        verbose: None,
    };
    match merge_config_with_cli(cli, Some(config)) {
        Err(CliError::InvalidDeviceType(t)) => assert_eq!(t, "laser"),
        _ => panic!("Expected InvalidDeviceType error"),
    }
}
