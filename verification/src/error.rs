//! The error taxonomy of the graphics manager.  Every variant carries enough
//! plain-text context (device id, driver id, the reporting call's message) to
//! log precisely; nothing is retried automatically.

use vstd::prelude::*;

verus! {

/// What can go wrong while inspecting or mutating graphics state.
#[derive(Debug, Clone, PartialEq, Eq)]
pub enum GraphicsDeviceError {
    /// An external command could not be spawned at all.
    Command { cmd: String, why: String },
    /// Removal was blocked by an active driver claim; unbind first.
    DeviceInUse { func: String, driver: String },
    /// The capability manifest was missing, unreadable or malformed, or held
    /// no entry for the probed device.
    Json(String),
    /// The module-configuration file could not be opened.
    ModprobeFileOpen(String),
    /// The module-configuration file could not be written.
    ModprobeFileWrite(String),
    /// The list of loaded kernel modules could not be fetched.
    ModulesFetch(String),
    /// The machine has no switchable dual-GPU hardware.
    NotSwitchable,
    /// A driver lookup on the PCI bus failed in an unexpected way.
    PciDriver { device: String, why: String },
    /// The discrete-mode preference file could not be read.
    PrimeModeRead(String),
    /// The discrete-mode preference file could not be written.
    PrimeModeWrite(String),
    /// The kernel refused to remove a PCI device node.
    Remove { device: String, why: String },
    /// The PCI bus rescan failed.
    Rescan(String),
    /// A required sysfs read failed.
    SysFs(String),
    /// Unbinding a function from its driver failed.
    Unbind { func: String, driver: String, why: String },
    /// The initramfs regeneration command exited non-zero; its code, when
    /// one was reported.
    UpdateInitramfs(Option<i32>),
}

} // verus!
