//! Inventory classification, switchability, and the prober entry points.

use graphics_switch::device::{DriverState, FunctionReport, remove_pass, apply_remove};
use graphics_switch::graphics::{DevScan, Graphics, build_inventory};
use graphics_switch::mode::{modprobe_block, prime_token, sleep_block};
use graphics_switch::{GraphicsDevice, GraphicsDeviceError, GraphicsMode};

fn scan(id: &str, class: u32, vendor: u16) -> DevScan {
    DevScan { id: String::from(id), class, vendor }
}

fn device(id: &str, functions: &[&str]) -> GraphicsDevice {
    GraphicsDevice::new(
        String::from(id),
        functions.iter().map(|f| String::from(*f)).collect(),
    )
}

fn dual_gpu() -> Graphics {
    Graphics {
        amd: vec![device("0000:00:02.0", &["0000:00:02.0"])],
        intel: Vec::new(),
        nvidia: vec![device("0000:01:00.0", &["0000:01:00.0", "0000:01:00.1"])],
        other: Vec::new(),
    }
}

fn integrated_only() -> Graphics {
    Graphics {
        amd: Vec::new(),
        intel: vec![device("0000:00:02.0", &["0000:00:02.0"])],
        nvidia: Vec::new(),
        other: Vec::new(),
    }
}

#[test]
fn classification_buckets_by_vendor_and_groups_by_slot() {
    let devs = vec![
        scan("0000:00:02.0", 0x030000, 0x1002),
        scan("0000:01:00.0", 0x030000, 0x10DE),
        scan("0000:01:00.1", 0x040300, 0),
        scan("0000:02:00.0", 0x030000, 0x8086),
        scan("0000:03:00.0", 0x030000, 0x1234),
        scan("0000:04:00.0", 0x010802, 0),
    ];
    let g = build_inventory(&devs);
    assert_eq!(g.amd.len(), 1);
    assert_eq!(g.nvidia.len(), 1);
    assert_eq!(g.intel.len(), 1);
    assert_eq!(g.other.len(), 1);
    assert_eq!(g.amd[0].id, "0000:00:02.0");
    assert_eq!(g.amd[0].functions, vec![String::from("0000:00:02.0")]);
    // The NVIDIA device's audio function shares its slot and is grouped with
    // it, in enumeration order.
    assert_eq!(g.nvidia[0].id, "0000:01:00.0");
    assert_eq!(
        g.nvidia[0].functions,
        vec![String::from("0000:01:00.0"), String::from("0000:01:00.1")]
    );
    assert_eq!(g.other[0].id, "0000:03:00.0");
}

#[test]
fn non_display_devices_never_enter_a_bucket() {
    let devs = vec![
        scan("0000:00:1f.0", 0x060100, 0),
        scan("0000:04:00.0", 0x010802, 0),
    ];
    let g = build_inventory(&devs);
    assert!(g.amd.is_empty());
    assert!(g.intel.is_empty());
    assert!(g.nvidia.is_empty());
    assert!(g.other.is_empty());
}

#[test]
fn can_switch_needs_nvidia_and_a_fallback() {
    assert!(dual_gpu().can_switch());
    assert!(!integrated_only().can_switch());
    // NVIDIA alone is not switchable: nothing to fall back on.
    let nvidia_only = Graphics {
        amd: Vec::new(),
        intel: Vec::new(),
        nvidia: vec![device("0000:01:00.0", &["0000:01:00.0"])],
        other: Vec::new(),
    };
    assert!(!nvidia_only.can_switch());
    // An "other" bucket does not count as a fallback.
    let nvidia_and_other = Graphics {
        amd: Vec::new(),
        intel: Vec::new(),
        nvidia: vec![device("0000:01:00.0", &["0000:01:00.0"])],
        other: vec![device("0000:03:00.0", &["0000:03:00.0"])],
    };
    assert!(!nvidia_and_other.can_switch());
}

#[test]
fn operations_fail_with_not_switchable() {
    let g = integrated_only();
    assert!(matches!(
        g.get_power(),
        Err(GraphicsDeviceError::NotSwitchable)
    ));
    assert!(matches!(
        g.get_external_displays_require_dgpu(Ok(String::from("oryp6\n"))),
        Err(GraphicsDeviceError::NotSwitchable)
    ));
    assert!(matches!(
        g.get_default_graphics(
            Ok(String::from("oryp6\n")),
            Ok(String::from("System76\n")),
            Ok(true)
        ),
        Err(GraphicsDeviceError::NotSwitchable)
    ));
}

#[test]
fn external_displays_by_chassis_model() {
    let g = dual_gpu();
    assert_eq!(
        g.get_external_displays_require_dgpu(Ok(String::from("oryp6\n"))).unwrap(),
        true
    );
    assert_eq!(
        g.get_external_displays_require_dgpu(Ok(String::from("unknown-model\n"))).unwrap(),
        false
    );
    assert!(matches!(
        g.get_external_displays_require_dgpu(Err(String::from("no such file"))),
        Err(GraphicsDeviceError::SysFs(_))
    ));
}

#[test]
fn default_mode_selection() {
    let g = dual_gpu();
    // Not a System76 machine: assume the user wants full discrete mode.
    assert_eq!(
        g.get_default_graphics(
            Ok(String::from("whatever\n")),
            Ok(String::from("OtherVendor\n")),
            Ok(true)
        )
        .unwrap(),
        GraphicsMode::Discrete
    );
    // System76 with runtime power management: Hybrid.
    assert_eq!(
        g.get_default_graphics(
            Ok(String::from("oryp6\n")),
            Ok(String::from("System76\n")),
            Ok(true)
        )
        .unwrap(),
        GraphicsMode::Hybrid
    );
    // Without it: Integrated.
    assert_eq!(
        g.get_default_graphics(
            Ok(String::from("oryp6\n")),
            Ok(String::from("System76\n")),
            Ok(false)
        )
        .unwrap(),
        GraphicsMode::Integrated
    );
    // A failed probe is downgraded to "unsupported", not an error.
    assert_eq!(
        g.get_default_graphics(
            Ok(String::from("oryp6\n")),
            Ok(String::from("System76\n")),
            Err(GraphicsDeviceError::Json(String::from("missing manifest")))
        )
        .unwrap(),
        GraphicsMode::Integrated
    );
    // A failed DMI read is fatal.
    assert!(matches!(
        g.get_default_graphics(
            Err(String::from("read failed")),
            Ok(String::from("System76\n")),
            Ok(true)
        ),
        Err(GraphicsDeviceError::SysFs(_))
    ));
}

#[test]
fn get_vendor_maps_module_fetch_failure() {
    let g = dual_gpu();
    assert!(matches!(
        g.get_vendor(Err(String::from("cannot read modules")), Some("on-demand\n")),
        Err(GraphicsDeviceError::ModulesFetch(_))
    ));
    let loaded = vec![String::from("nvidia")];
    assert_eq!(
        g.get_vendor(Ok(loaded), Some("on-demand\n")).unwrap(),
        GraphicsMode::Hybrid
    );
    let none = vec![String::from("ext4")];
    assert_eq!(
        g.get_vendor(Ok(none), Some("on-demand\n")).unwrap(),
        GraphicsMode::Integrated
    );
}

#[test]
fn power_off_scenario_removes_unbound_nvidia_functions() {
    // One AMD function, one NVIDIA device with two functions and no driver
    // bound on either: a power-off removes both NVIDIA functions and the
    // device is gone afterwards.
    let devs = vec![
        scan("0000:00:02.0", 0x030000, 0x1002),
        scan("0000:01:00.0", 0x030000, 0x10DE),
        scan("0000:01:00.1", 0x040300, 0),
    ];
    let g = build_inventory(&devs);
    assert!(g.can_switch());
    let nvidia = &g.nvidia[0];
    let reports: Vec<FunctionReport> = nvidia
        .functions
        .iter()
        .map(|f| FunctionReport { func: f.clone(), state: DriverState::Unbound })
        .collect();
    let plan = remove_pass(&nvidia.id, &reports);
    assert!(plan.failure.is_none());
    assert_eq!(plan.actions.len(), 2);
    assert_eq!(plan.actions[0].func, "0000:01:00.0");
    assert_eq!(plan.actions[1].func, "0000:01:00.1");
    // Afterwards every function is off the bus: the power query would report
    // false.
    let after = apply_remove(&reports);
    assert!(after.iter().all(|r| matches!(r.state, DriverState::Missing)));
}

#[test]
fn vendor_planning_is_gated_on_switchability() {
    assert!(matches!(
        integrated_only().plan_vendor(GraphicsMode::Hybrid, true),
        Err(GraphicsDeviceError::NotSwitchable)
    ));
    assert!(matches!(
        integrated_only().switchable_or_fail(),
        Err(GraphicsDeviceError::NotSwitchable)
    ));
    assert!(dual_gpu().switchable_or_fail().is_ok());
    let plan = dual_gpu().plan_vendor(GraphicsMode::Hybrid, true).unwrap();
    assert_eq!(plan.prime, prime_token(GraphicsMode::Hybrid));
    assert_eq!(plan.modprobe, modprobe_block(GraphicsMode::Hybrid));
    assert_eq!(plan.sleep_tuning, Some(sleep_block(true)));
    assert!(!plan.enable_fallback);
}

#[test]
fn device_with_no_functions_is_never_present() {
    let d = GraphicsDevice::new(String::from("0000:01:00.0"), Vec::new());
    assert_eq!(d.id, "0000:01:00.0");
    assert!(d.functions.is_empty());
    assert!(!d.is_present());
}
