//! Trusted boundary around the `sysfs_class` PCI bus abstraction.  Each
//! wrapper makes one call into that crate; what the calls return depends on
//! the live bus and the filesystem, so the wrappers promise nothing about
//! their results — the verified callers state what holds of every outcome.

use vstd::prelude::*;
use sysfs_class::SysClass;

verus! {

#[verifier::external_type_specification]
#[verifier::external_body]
pub struct ExPciDevice(sysfs_class::PciDevice);

#[verifier::external_type_specification]
#[verifier::external_body]
pub struct ExPciDriver(sysfs_class::PciDriver);

/// What a driver lookup on a PCI function reported.
pub enum DriverLookup {
    /// The function is claimed by this driver.
    Found(sysfs_class::PciDriver),
    /// The lookup reported not-found: no driver is bound.
    NotFound,
    /// The lookup failed some other way.
    Failed(String),
}

/// Relies on `sysfs_class::SysClass::all` for `PciDevice`: enumerate every
/// device on the PCI bus, in sysfs directory order.
#[verifier::external_body]
pub fn pci_all() -> (r: Result<Vec<sysfs_class::PciDevice>, String>) {
    sysfs_class::PciDevice::all().map_err(|e| e.to_string())
}

/// Relies on `sysfs_class::SysClass::path`: the bus address of the device is
/// the final component of its sysfs path.  A path without one (or one that
/// is not UTF-8) yields the empty string rather than a panic, unlike the
/// crate's own `id`, which unwraps.
#[verifier::external_body]
pub fn pci_id(dev: &sysfs_class::PciDevice) -> (r: String) {
    dev.path().file_name().and_then(|name| name.to_str()).unwrap_or("").to_owned()
}

/// Relies on `sysfs_class::PciDevice::class`: the device's class code read
/// from sysfs.
#[verifier::external_body]
pub fn pci_class(dev: &sysfs_class::PciDevice) -> (r: Result<u32, String>) {
    dev.class().map_err(|e| e.to_string())
}

/// Relies on `sysfs_class::PciDevice::vendor`: the device's vendor id read
/// from sysfs.
#[verifier::external_body]
pub fn pci_vendor(dev: &sysfs_class::PciDevice) -> (r: Result<u16, String>) {
    dev.vendor().map_err(|e| e.to_string())
}

/// Relies on `sysfs_class::SysClass::new` for `PciDevice`: look a device up
/// by bus address, `None` when it is not on the bus (or its directory cannot
/// be listed).
#[verifier::external_body]
pub fn pci_device(id: &str) -> (r: Option<sysfs_class::PciDevice>) {
    sysfs_class::PciDevice::new(id).ok()
}

/// Relies on `sysfs_class::SysClass::path` and `std::path::Path::exists`:
/// whether the device's sysfs node is still present.
#[verifier::external_body]
pub fn pci_path_exists(dev: &sysfs_class::PciDevice) -> (r: bool) {
    dev.path().exists()
}

/// Relies on `sysfs_class::PciDevice::driver`: resolve the driver claiming
/// the function.  A not-found error from the lookup means no driver is
/// bound; any other error is reported as text.
#[verifier::external_body]
pub fn pci_driver(dev: &sysfs_class::PciDevice) -> (r: DriverLookup) {
    match dev.driver() {
        Ok(driver) => DriverLookup::Found(driver),
        Err(why) => {
            if why.kind() == std::io::ErrorKind::NotFound {
                DriverLookup::NotFound
            } else {
                DriverLookup::Failed(why.to_string())
            }
        },
    }
}

/// Relies on `sysfs_class::SysClass::id` for `PciDriver`: the driver's name,
/// the final component of its sysfs path.
#[verifier::external_body]
pub fn pci_driver_id(driver: &sysfs_class::PciDriver) -> (r: String) {
    driver.id().to_owned()
}

} // verus!
