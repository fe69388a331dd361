//! Capability probing: device-id parsing, driver versions, and the manifest
//! search.

use graphics_switch::probe::{
    NvidiaDevice, SupportedGpus, parse_device_id, chip_id, major_version, find_gpu,
    supports_runtimepm, gpu_supports_runtimepm,
};
use graphics_switch::GraphicsDeviceError;

fn entry(devid: &str, features: &[&str]) -> NvidiaDevice {
    NvidiaDevice {
        devid: String::from(devid),
        subdeviceid: None,
        subvendorid: None,
        name: String::from("GPU"),
        legacybranch: None,
        features: features.iter().map(|f| String::from(*f)).collect(),
    }
}

#[test]
fn device_id_parses_sysfs_text() {
    assert_eq!(parse_device_id("0x1E04\n").unwrap(), 0x1E04);
    assert_eq!(parse_device_id("0x1e04").unwrap(), 0x1E04);
    assert_eq!(parse_device_id("1E04\n").unwrap(), 0x1E04);
    assert!(matches!(
        parse_device_id("not hex"),
        Err(GraphicsDeviceError::SysFs(_))
    ));
    assert!(matches!(parse_device_id(""), Err(GraphicsDeviceError::SysFs(_))));
    // Over 32 bits is rejected.
    assert!(matches!(
        parse_device_id("0x100000000"),
        Err(GraphicsDeviceError::SysFs(_))
    ));
}

#[test]
fn chip_id_is_zero_on_malformed_entries() {
    assert_eq!(chip_id("0x1E04"), 0x1E04);
    assert_eq!(chip_id("garbage"), 0);
    assert_eq!(chip_id(""), 0);
}

#[test]
fn major_version_reads_the_leading_number() {
    assert_eq!(major_version("525.60.11\n"), 525);
    assert_eq!(major_version("470.141.03"), 470);
    assert_eq!(major_version("550\n"), 550);
    assert_eq!(major_version(""), 0);
    assert_eq!(major_version("beta.1"), 0);
}

#[test]
fn manifest_probe_finds_runtimepm() {
    let gpus = SupportedGpus {
        chips: vec![
            entry("0x1BA1", &[]),
            entry("0x1E04", &["runtimepm", "gsp"]),
        ],
    };
    assert_eq!(gpu_supports_runtimepm(&gpus, 0x1E04).unwrap(), true);
    assert_eq!(gpu_supports_runtimepm(&gpus, 0x1BA1).unwrap(), false);
    // An absent id is a not-found manifest error; the mode-selection caller
    // downgrades it to "unsupported".
    let missing = gpu_supports_runtimepm(&gpus, 0x9999);
    assert!(matches!(missing, Err(GraphicsDeviceError::Json(_))));
    assert_eq!(missing.unwrap_or_default(), false);
}

#[test]
fn first_matching_entry_wins_on_duplicate_ids() {
    let gpus = SupportedGpus {
        chips: vec![
            entry("0x1E04", &[]),
            entry("0x1E04", &["runtimepm"]),
        ],
    };
    assert_eq!(find_gpu(&gpus, 0x1E04).unwrap(), 0);
    assert_eq!(gpu_supports_runtimepm(&gpus, 0x1E04).unwrap(), false);
}

#[test]
fn feature_check_matches_exact_tag() {
    assert!(supports_runtimepm(&entry("0x1E04", &["runtimepm"])));
    assert!(!supports_runtimepm(&entry("0x1E04", &["runtime"])));
    assert!(!supports_runtimepm(&entry("0x1E04", &[])));
}
