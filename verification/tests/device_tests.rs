//! Device lifecycle: the unbind and removal passes on probed bus states.

use graphics_switch::device::{
    DriverState, FunctionReport, unbind_pass, remove_pass, apply_remove,
    merge_function_state, any_present, first_failure,
};
use graphics_switch::pci::DriverLookup;
use graphics_switch::GraphicsDeviceError;

fn report(func: &str, state: DriverState) -> FunctionReport {
    FunctionReport { func: String::from(func), state }
}

#[test]
fn unbind_detaches_bound_functions_in_order() {
    let reports = vec![
        report("0000:01:00.0", DriverState::Bound { driver: String::from("nvidia") }),
        report("0000:01:00.1", DriverState::Unbound),
        report("0000:01:00.2", DriverState::Bound { driver: String::from("snd_hda_intel") }),
    ];
    let plan = unbind_pass("0000:01:00.0", &reports);
    assert!(plan.failure.is_none());
    assert_eq!(plan.actions.len(), 2);
    assert_eq!(plan.actions[0].func, "0000:01:00.0");
    assert_eq!(plan.actions[1].func, "0000:01:00.2");
}

#[test]
fn unbind_surfaces_lookup_failure_as_pci_driver_error() {
    let reports = vec![
        report("0000:01:00.0", DriverState::Unbound),
        report("0000:01:00.1", DriverState::LookupFailed { why: String::from("permission denied") }),
        report("0000:01:00.2", DriverState::Bound { driver: String::from("nvidia") }),
    ];
    let plan = unbind_pass("0000:01:00.0", &reports);
    match plan.failure {
        Some(GraphicsDeviceError::PciDriver { device, why }) => {
            assert_eq!(device, "0000:01:00.0");
            assert_eq!(why, "permission denied");
        }
        other => panic!("expected a PCI driver error, got {:?}", other),
    }
    // The pass stops planning at the failed lookup.
    assert!(plan.actions.is_empty());
}

#[test]
fn remove_unbound_device_succeeds_and_is_idempotent() {
    // No function holds a bound driver: unbind has nothing to do, removal
    // removes both functions, and a second round changes nothing.
    let reports = vec![
        report("0000:01:00.0", DriverState::Unbound),
        report("0000:01:00.1", DriverState::Unbound),
    ];
    let unbind = unbind_pass("0000:01:00.0", &reports);
    assert!(unbind.failure.is_none());
    assert!(unbind.actions.is_empty());

    let plan = remove_pass("0000:01:00.0", &reports);
    assert!(plan.failure.is_none());
    assert_eq!(plan.actions.len(), 2);

    let after = apply_remove(&reports);
    assert_eq!(after.len(), 2);
    assert!(after.iter().all(|r| matches!(r.state, DriverState::Missing)));
    assert_eq!(after[0].func, "0000:01:00.0");
    assert_eq!(after[1].func, "0000:01:00.1");

    // Second round: nothing to unbind, nothing to remove, same end state.
    let unbind_again = unbind_pass("0000:01:00.0", &after);
    assert!(unbind_again.failure.is_none());
    assert!(unbind_again.actions.is_empty());
    let remove_again = remove_pass("0000:01:00.0", &after);
    assert!(remove_again.failure.is_none());
    assert!(remove_again.actions.is_empty());
    let after_again = apply_remove(&after);
    assert_eq!(after_again, after);
}

#[test]
fn remove_refuses_bound_device_and_leaves_it_bound() {
    let reports = vec![
        report("0000:01:00.0", DriverState::Bound { driver: String::from("nvidia") }),
        report("0000:01:00.1", DriverState::Unbound),
    ];
    let plan = remove_pass("0000:01:00.0", &reports);
    match plan.failure {
        Some(GraphicsDeviceError::DeviceInUse { func, driver }) => {
            assert_eq!(func, "0000:01:00.0");
            assert_eq!(driver, "nvidia");
        }
        other => panic!("expected device-in-use, got {:?}", other),
    }
    // Nothing before the bound function, so nothing is removed at all.
    assert!(plan.actions.is_empty());
    let after = apply_remove(&reports);
    assert_eq!(after, reports);
}

#[test]
fn remove_skips_missing_functions() {
    let reports = vec![
        report("0000:01:00.0", DriverState::Missing),
        report("0000:01:00.1", DriverState::Unbound),
    ];
    let plan = remove_pass("0000:01:00.0", &reports);
    assert!(plan.failure.is_none());
    assert_eq!(plan.actions.len(), 1);
    assert_eq!(plan.actions[0].func, "0000:01:00.1");
}

#[test]
fn remove_stops_with_pci_driver_error_on_failed_lookup() {
    let reports = vec![
        report("0000:01:00.0", DriverState::Unbound),
        report("0000:01:00.1", DriverState::LookupFailed { why: String::from("io error") }),
    ];
    let plan = remove_pass("0000:01:00.0", &reports);
    match plan.failure {
        Some(GraphicsDeviceError::PciDriver { device, why }) => {
            assert_eq!(device, "0000:01:00.0");
            assert_eq!(why, "io error");
        }
        other => panic!("expected a PCI driver error, got {:?}", other),
    }
    assert_eq!(plan.actions.len(), 1);
    assert_eq!(plan.actions[0].func, "0000:01:00.0");
}

#[test]
fn merge_reports_missing_for_absent_functions() {
    // No device handle, or a handle whose path is gone: missing either way,
    // and a lookup never drawn cannot make a function present.
    assert_eq!(merge_function_state(false, false, None), DriverState::Missing);
    assert_eq!(merge_function_state(true, false, None), DriverState::Missing);
    assert_eq!(merge_function_state(true, true, None), DriverState::Missing);
}

#[test]
fn merge_maps_lookup_outcomes() {
    assert_eq!(
        merge_function_state(true, true, Some(DriverLookup::NotFound)),
        DriverState::Unbound
    );
    assert_eq!(
        merge_function_state(
            true,
            true,
            Some(DriverLookup::Failed(String::from("permission denied")))
        ),
        DriverState::LookupFailed { why: String::from("permission denied") }
    );
}

#[test]
fn presence_fold_is_a_disjunction() {
    assert!(!any_present(&Vec::new()));
    assert!(!any_present(&vec![false, false]));
    assert!(any_present(&vec![false, true]));
    assert!(any_present(&vec![true, false, false]));
}

#[test]
fn first_failure_surfaces_the_earliest_error() {
    let none: Vec<Option<GraphicsDeviceError>> = vec![None, None];
    assert_eq!(first_failure(&none), None);
    assert_eq!(first_failure(&Vec::new()), None);
    let outcomes = vec![
        None,
        Some(GraphicsDeviceError::NotSwitchable),
        Some(GraphicsDeviceError::Rescan(String::from("later"))),
    ];
    assert_eq!(first_failure(&outcomes), Some(1));
}
