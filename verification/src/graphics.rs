//! The device inventory: PCI enumeration, display-class filtering, sibling
//! grouping and vendor bucketing, and the switchability queries built on it.

use vstd::prelude::*;
use crate::device::{GraphicsDevice, any_present};
use crate::error::GraphicsDeviceError;
use crate::mode::{GraphicsMode, VendorPlan, spec_vendor_mode, spec_has_nvidia_module,
    spec_prime_token, spec_modprobe_block, spec_sleep_block, vendor_mode, has_nvidia_module,
    vendor_plan};
use crate::pci::{pci_all, pci_id, pci_class, pci_vendor};
use crate::text::{prefix_before, text_before, str_eq, trimmed, trim_text};

verus! {

/// One enumerated PCI device, reduced to what classification reads: its bus
/// address, its class code, and — for display-class devices — its vendor id.
pub struct DevScan {
    pub id: String,
    pub class: u32,
    pub vendor: u16,
}

/// The vendor buckets of the inventory.
#[derive(Debug, Clone, Copy, PartialEq, Eq, Structural)]
pub enum VendorKind {
    Amd,
    Intel,
    Nvidia,
    Other,
}

/// The fixed vendor-id mapping.
pub open spec fn spec_vendor_kind(vendor: u16) -> VendorKind {
    if vendor == 0x1002 {
        VendorKind::Amd
    } else if vendor == 0x10DE {
        VendorKind::Nvidia
    } else if vendor == 0x8086 {
        VendorKind::Intel
    } else {
        VendorKind::Other
    }
}

/// A device is a display controller when the high byte of its class code
/// says so.
pub open spec fn spec_is_display(class: u32) -> bool {
    (class >> 16) & 0xFF == 3
}

/// The slot token of a bus address: everything before the function
/// separator.
pub open spec fn spec_slot(id: Seq<char>) -> Seq<char> {
    prefix_before(id, '.')
}

/// The bus addresses, among the first `i` enumerated devices, that share a
/// slot — a device's sibling functions, in enumeration order.
pub open spec fn spec_functions(devs: Seq<DevScan>, slot: Seq<char>, i: int) -> Seq<Seq<char>>
    decreases i,
{
    if i <= 0 {
        Seq::empty()
    } else {
        let prev = spec_functions(devs, slot, i - 1);
        if spec_slot(devs[i - 1].id@) == slot {
            prev.push(devs[i - 1].id@)
        } else {
            prev
        }
    }
}

/// A graphics device as the contracts see it: its bus address and its
/// functions' bus addresses.
pub ghost struct GDevView {
    pub id: Seq<char>,
    pub functions: Seq<Seq<char>>,
}

/// The view of one inventory entry.
pub open spec fn dev_view(d: GraphicsDevice) -> GDevView {
    GDevView { id: d.id@, functions: d.functions@.map_values(|s: String| s@) }
}

/// The views of a bucket's entries.
pub open spec fn views_of(s: Seq<GraphicsDevice>) -> Seq<GDevView> {
    s.map_values(|d: GraphicsDevice| dev_view(d))
}

/// The bucket a scan yields for one vendor kind, over the first `i`
/// enumerated devices: every display-class device of that vendor, in
/// enumeration order, grouped with every enumerated device sharing its slot.
pub open spec fn spec_bucket(devs: Seq<DevScan>, i: int, kind: VendorKind) -> Seq<GDevView>
    decreases i,
{
    if i <= 0 {
        Seq::empty()
    } else {
        let prev = spec_bucket(devs, i - 1, kind);
        let d = devs[i - 1];
        if spec_is_display(d.class) && spec_vendor_kind(d.vendor) == kind {
            prev.push(
                GDevView {
                    id: d.id@,
                    functions: spec_functions(devs, spec_slot(d.id@), devs.len() as int),
                },
            )
        } else {
            prev
        }
    }
}

/// The device inventory: four disjoint, insertion-ordered vendor buckets of
/// graphics devices.  Built once per scan and never mutated; a fresh scan
/// produces a fresh inventory.
pub struct Graphics {
    pub amd: Vec<GraphicsDevice>,
    pub intel: Vec<GraphicsDevice>,
    pub nvidia: Vec<GraphicsDevice>,
    pub other: Vec<GraphicsDevice>,
}

/// The bus addresses of every enumerated device sharing `slot`.
fn functions_matching(devs: &Vec<DevScan>, slot: &str) -> (r: Vec<String>)
    ensures
        r@.map_values(|s: String| s@) == spec_functions(devs@, slot@, devs@.len() as int),
{
    let mut out: Vec<String> = Vec::new();
    let mut i: usize = 0;
    while i < devs.len()
        invariant
            i <= devs@.len(),
            out@.map_values(|s: String| s@) == spec_functions(devs@, slot@, i as int),
        decreases devs@.len() - i,
    {
        let dev_slot = text_before(devs[i].id.as_str(), '.');
        if str_eq(dev_slot.as_str(), slot) {
            out.push(devs[i].id.clone());
            proof {
                assert(out@.map_values(|s: String| s@) =~= spec_functions(
                    devs@,
                    slot@,
                    i + 1,
                ));
            }
        }
        i = i + 1;
    }
    out
}

/// Classify a scan of the PCI bus into the four vendor buckets.  Each
/// display-class device joins its vendor's bucket in enumeration order,
/// grouped with every enumerated device that shares its slot token.
pub fn build_inventory(devs: &Vec<DevScan>) -> (g: Graphics)
    ensures
        views_of(g.amd@) == spec_bucket(devs@, devs@.len() as int, VendorKind::Amd),
        views_of(g.intel@) == spec_bucket(devs@, devs@.len() as int, VendorKind::Intel),
        views_of(g.nvidia@) == spec_bucket(devs@, devs@.len() as int, VendorKind::Nvidia),
        views_of(g.other@) == spec_bucket(devs@, devs@.len() as int, VendorKind::Other),
{
    let mut amd: Vec<GraphicsDevice> = Vec::new();
    let mut intel: Vec<GraphicsDevice> = Vec::new();
    let mut nvidia: Vec<GraphicsDevice> = Vec::new();
    let mut other: Vec<GraphicsDevice> = Vec::new();
    let mut i: usize = 0;
    while i < devs.len()
        invariant
            i <= devs@.len(),
            views_of(amd@) == spec_bucket(devs@, i as int, VendorKind::Amd),
            views_of(intel@) == spec_bucket(devs@, i as int, VendorKind::Intel),
            views_of(nvidia@) == spec_bucket(devs@, i as int, VendorKind::Nvidia),
            views_of(other@) == spec_bucket(devs@, i as int, VendorKind::Other),
        decreases devs@.len() - i,
    {
        let class = devs[i].class;
        if (class >> 16) & 0xFF == 3 {
            let slot = text_before(devs[i].id.as_str(), '.');
            let functions = functions_matching(devs, slot.as_str());
            let entry = GraphicsDevice::new(devs[i].id.clone(), functions);
            let ghost view = GDevView {
                id: devs@[i as int].id@,
                functions: spec_functions(
                    devs@,
                    spec_slot(devs@[i as int].id@),
                    devs@.len() as int,
                ),
            };
            proof {
                assert(dev_view(entry) == view);
            }
            let vendor = devs[i].vendor;
            if vendor == 0x1002 {
                proof {
                    assert(views_of(amd@.push(entry)) =~= views_of(amd@).push(
                        dev_view(entry),
                    ));
                }
                amd.push(entry);
            } else if vendor == 0x10DE {
                proof {
                    assert(views_of(nvidia@.push(entry)) =~= views_of(nvidia@).push(
                        dev_view(entry),
                    ));
                }
                nvidia.push(entry);
            } else if vendor == 0x8086 {
                proof {
                    assert(views_of(intel@.push(entry)) =~= views_of(intel@).push(
                        dev_view(entry),
                    ));
                }
                intel.push(entry);
            } else {
                proof {
                    assert(views_of(other@.push(entry)) =~= views_of(other@).push(
                        dev_view(entry),
                    ));
                }
                other.push(entry);
            }
        }
        i = i + 1;
    }
    Graphics { amd, intel, nvidia, other }
}

impl Graphics {
    /// Enumerate the PCI bus and classify it into a fresh inventory.  What
    /// the bus reports decides the result; the classification itself is
    /// `build_inventory`, whose contract pins it down for every scan.  A
    /// failed enumeration or a failed class or vendor read is a sysfs error.
    pub fn new() -> (r: Result<Graphics, GraphicsDeviceError>)
        ensures
            r matches Err(e) ==> e is SysFs,
    {
        let devs = match pci_all() {
            Ok(devs) => devs,
            Err(why) => {
                return Err(GraphicsDeviceError::SysFs(why));
            },
        };
        let mut scans: Vec<DevScan> = Vec::new();
        let mut i: usize = 0;
        while i < devs.len()
            invariant
                i <= devs@.len(),
            decreases devs@.len() - i,
        {
            let id = pci_id(&devs[i]);
            let class = match pci_class(&devs[i]) {
                Ok(c) => c,
                Err(why) => {
                    return Err(GraphicsDeviceError::SysFs(why));
                },
            };
            // The vendor id is read only where classification will look at
            // it: on display-class devices.
            let vendor: u16 = if (class >> 16) & 0xFF == 3 {
                match pci_vendor(&devs[i]) {
                    Ok(v) => v,
                    Err(why) => {
                        return Err(GraphicsDeviceError::SysFs(why));
                    },
                }
            } else {
                0
            };
            scans.push(DevScan { id, class, vendor });
            i = i + 1;
        }
        Ok(build_inventory(&scans))
    }

    /// The machine can switch graphics modes: it has an NVIDIA device and an
    /// AMD or Intel one to fall back on.
    pub open spec fn spec_can_switch(&self) -> bool {
        self.nvidia@.len() > 0 && (self.intel@.len() > 0 || self.amd@.len() > 0)
    }

    /// Whether the machine has switchable dual-GPU hardware: the nvidia
    /// bucket is non-empty and so is the amd or the intel one.
    pub fn can_switch(&self) -> (r: bool)
        ensures
            r == self.spec_can_switch(),
    {
        self.nvidia.len() > 0 && (self.intel.len() > 0 || self.amd.len() > 0)
    }

    /// The switchability test every mode-changing and power-changing
    /// operation makes first: succeeds exactly on switchable machines, and
    /// fails with `NotSwitchable` — and nothing else — on the rest.
    pub fn switchable_or_fail(&self) -> (r: Result<(), GraphicsDeviceError>)
        ensures
            r is Ok <==> self.spec_can_switch(),
            !self.spec_can_switch() ==> (r matches Err(e) && e is NotSwitchable),
    {
        if self.can_switch() {
            Ok(())
        } else {
            Err(GraphicsDeviceError::NotSwitchable)
        }
    }

    /// Lay out a `set_vendor` transition, gated on switchability: the plan
    /// of `vendor_plan` exactly when the machine can switch, `NotSwitchable`
    /// otherwise.  The unverified shell performs the plan's writes and
    /// toggles in order.
    pub fn plan_vendor(&self, mode: GraphicsMode, s0ix: bool) -> (r: Result<
        VendorPlan,
        GraphicsDeviceError,
    >)
        ensures
            r is Ok <==> self.spec_can_switch(),
            !self.spec_can_switch() ==> (r matches Err(e) && e is NotSwitchable),
            r matches Ok(p) ==> {
                &&& p.prime@ == spec_prime_token(mode)
                &&& p.modprobe@ == spec_modprobe_block(mode)
                &&& (mode is Integrated <==> p.sleep_tuning is None)
                &&& (p.sleep_tuning matches Some(s) ==> s@ == spec_sleep_block(s0ix))
                &&& (p.enable_fallback <==> mode is Discrete)
            },
    {
        match self.switchable_or_fail() {
            Err(e) => Err(e),
            Ok(()) => Ok(vendor_plan(mode, s0ix)),
        }
    }

    /// Whether the discrete GPU is powered: true iff any discrete device is
    /// currently on the bus.  Fails with `NotSwitchable` on single-GPU
    /// machines.  The per-device presence answers are the live bus's; their
    /// disjunction is taken by `any_present`, under its exact contract.
    pub fn get_power(&self) -> (r: Result<bool, GraphicsDeviceError>)
        ensures
            r is Ok <==> self.spec_can_switch(),
            !self.spec_can_switch() ==> (r matches Err(e) && e is NotSwitchable),
            self.nvidia@.len() == 0 ==> r != Ok::<bool, GraphicsDeviceError>(true),
    {
        match self.switchable_or_fail() {
            Err(e) => Err(e),
            Ok(()) => {
                let mut bits: Vec<bool> = Vec::new();
                let mut i: usize = 0;
                while i < self.nvidia.len()
                    invariant
                        i <= self.nvidia@.len(),
                        bits@.len() == i,
                    decreases self.nvidia@.len() - i,
                {
                    bits.push(self.nvidia[i].is_present());
                    i = i + 1;
                }
                Ok(any_present(&bits))
            },
        }
    }

    /// The current graphics mode, decided from the loaded kernel modules and
    /// the discrete-mode preference file.  A failed module fetch is fatal;
    /// with no NVIDIA module loaded the mode is Integrated whatever the
    /// preference file holds; an unreadable preference file means Discrete.
    pub fn get_vendor(&self, modules: Result<Vec<String>, String>, pref_raw: Option<&str>) -> (r:
        Result<GraphicsMode, GraphicsDeviceError>)
        ensures
            modules matches Err(why) ==> (r matches Err(e) && e
                matches GraphicsDeviceError::ModulesFetch(w) && w@ == why@),
            modules matches Ok(ms) ==> r == Ok::<GraphicsMode, GraphicsDeviceError>(
                spec_vendor_mode(
                    spec_has_nvidia_module(ms@),
                    match pref_raw {
                        Some(s) => Some(s@),
                        None => None,
                    },
                ),
            ),
    {
        match modules {
            Err(why) => Err(GraphicsDeviceError::ModulesFetch(why)),
            Ok(ms) => Ok(vendor_mode(has_nvidia_module(&ms), pref_raw)),
        }
    }

    /// Chassis models whose external display outputs are wired to the
    /// discrete GPU alone.
    pub open spec fn spec_requires_dgpu(model: Seq<char>) -> bool {
        ||| model == "addw1"@
        ||| model == "addw2"@
        ||| model == "gaze14"@
        ||| model == "gaze15"@
        ||| model == "gaze16-3050"@
        ||| model == "gaze16-3060"@
        ||| model == "gaze16-3060-b"@
        ||| model == "kudu6"@
        ||| model == "oryp4"@
        ||| model == "oryp4-b"@
        ||| model == "oryp5"@
        ||| model == "oryp6"@
        ||| model == "oryp7"@
        ||| model == "oryp8"@
    }

    /// Whether external displays need the discrete GPU on this machine,
    /// decided by the chassis model read from the DMI product version
    /// (`model_raw`, or the read's error).  Fails with `NotSwitchable` on
    /// single-GPU machines and with `SysFs` when the model could not be
    /// read; otherwise answers membership in the fixed model list.
    pub fn get_external_displays_require_dgpu(&self, model_raw: Result<String, String>) -> (r:
        Result<bool, GraphicsDeviceError>)
        ensures
            !self.spec_can_switch() ==> (r matches Err(e) && e is NotSwitchable),
            self.spec_can_switch() ==> match model_raw {
                Err(why) => r matches Err(e) && e matches GraphicsDeviceError::SysFs(w) && w@
                    == why@,
                Ok(model) => r == Ok::<bool, GraphicsDeviceError>(
                    Self::spec_requires_dgpu(trimmed(model@)),
                ),
            },
    {
        match self.switchable_or_fail() {
            Err(e) => Err(e),
            Ok(()) => match model_raw {
                Err(why) => Err(GraphicsDeviceError::SysFs(why)),
                Ok(model) => {
                    let m = trim_text(model.as_str());
                    let s = m.as_str();
                    Ok(
                        str_eq(s, "addw1") || str_eq(s, "addw2") || str_eq(s, "gaze14")
                            || str_eq(s, "gaze15") || str_eq(s, "gaze16-3050") || str_eq(
                            s,
                            "gaze16-3060",
                        ) || str_eq(s, "gaze16-3060-b") || str_eq(s, "kudu6") || str_eq(
                            s,
                            "oryp4",
                        ) || str_eq(s, "oryp4-b") || str_eq(s, "oryp5") || str_eq(s, "oryp6")
                            || str_eq(s, "oryp7") || str_eq(s, "oryp8"),
                    )
                },
            },
        }
    }

    /// Models that support runtime power management but should still default
    /// to Integrated.  The list is currently empty.
    pub open spec fn spec_default_integrated(model: Seq<char>) -> bool {
        false
    }

    /// Whether the model is on the force-integrated list — membership in an
    /// empty list, until a model needs the exception.
    fn default_integrated_model(product: &str) -> (r: bool)
        ensures
            r == Self::spec_default_integrated(trimmed(product@)),
    {
        false
    }

    /// The mode a first boot should default to: Discrete on machines from
    /// another vendor (assumed unmanaged), otherwise Hybrid when the GPU
    /// supports runtime power management and the model is not forced to
    /// Integrated, else Integrated.
    pub open spec fn spec_default_mode(product: Seq<char>, sys_vendor: Seq<char>, runtimepm:
        bool) -> GraphicsMode {
        if sys_vendor != "System76"@ {
            GraphicsMode::Discrete
        } else if runtimepm && !Self::spec_default_integrated(product) {
            GraphicsMode::Hybrid
        } else {
            GraphicsMode::Integrated
        }
    }

    /// Recommend a mode for a machine with no configured preference yet,
    /// from the DMI product version and system vendor reads and the
    /// runtime power-management probe.  The probe's error is discarded
    /// here, deliberately: an unreadable driver version or manifest means
    /// no runtime power management is assumed, not a failure.  Fails with
    /// `NotSwitchable` on single-GPU machines and with `SysFs` when either
    /// DMI read failed.  Performs no writes.
    pub fn get_default_graphics(
        &self,
        product_raw: Result<String, String>,
        sys_vendor_raw: Result<String, String>,
        runtimepm: Result<bool, GraphicsDeviceError>,
    ) -> (r: Result<GraphicsMode, GraphicsDeviceError>)
        ensures
            !self.spec_can_switch() ==> (r matches Err(e) && e is NotSwitchable),
            self.spec_can_switch() ==> match (product_raw, sys_vendor_raw) {
                (Err(why), _) => r matches Err(e) && e matches GraphicsDeviceError::SysFs(w)
                    && w@ == why@,
                (Ok(_), Err(why)) => r matches Err(e) && e
                    matches GraphicsDeviceError::SysFs(w) && w@ == why@,
                (Ok(product), Ok(vendor)) => r == Ok::<GraphicsMode, GraphicsDeviceError>(
                    Self::spec_default_mode(
                        trimmed(product@),
                        trimmed(vendor@),
                        runtimepm == Ok::<bool, GraphicsDeviceError>(true),
                    ),
                ),
            },
    {
        match self.switchable_or_fail() {
            Err(e) => Err(e),
            Ok(()) => match product_raw {
                Err(why) => Err(GraphicsDeviceError::SysFs(why)),
                Ok(product) => {
                    // If the device is off the bus or its manifest cannot be
                    // read, assume runtime power management is unsupported.
                    let rtpm = match runtimepm {
                        Ok(b) => b,
                        Err(_) => false,
                    };
                    match sys_vendor_raw {
                        Err(why) => Err(GraphicsDeviceError::SysFs(why)),
                        Ok(vendor) => {
                            let blacklisted = Self::default_integrated_model(
                                product.as_str(),
                            );
                            let v = trim_text(vendor.as_str());
                            if !str_eq(v.as_str(), "System76") {
                                Ok(GraphicsMode::Discrete)
                            } else if rtpm && !blacklisted {
                                Ok(GraphicsMode::Hybrid)
                            } else {
                                Ok(GraphicsMode::Integrated)
                            }
                        },
                    }
                },
            },
        }
    }
}

} // verus!
