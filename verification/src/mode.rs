//! The four graphics modes and everything a mode determines: the persisted
//! preference token, the kernel-module configuration text, the suspend
//! tuning block, the fallback-service toggle and the runtime power-management
//! policy written after a power-on.

use vstd::prelude::*;
use crate::text::{has_substring, trimmed, str_eq, trim_text, contains_text};

verus! {

/// The graphics modes a machine can be switched between.
#[derive(Debug, Clone, Copy, PartialEq, Eq, Structural)]
pub enum GraphicsMode {
    Integrated,
    Compute,
    Hybrid,
    Discrete,
}

/// The token `set_vendor` persists in the discrete-mode preference file.
pub open spec fn spec_prime_token(mode: GraphicsMode) -> Seq<char> {
    match mode {
        GraphicsMode::Hybrid => "on-demand\n"@,
        GraphicsMode::Discrete => "on\n"@,
        _ => "off\n"@,
    }
}

/// The preference token for a mode, as written to the preference file.
pub fn prime_token(mode: GraphicsMode) -> (r: &'static str)
    ensures
        r@ == spec_prime_token(mode),
{
    match mode {
        GraphicsMode::Hybrid => "on-demand\n",
        GraphicsMode::Discrete => "on\n",
        _ => "off\n",
    }
}

/// The mode a trimmed preference-file value denotes: `on-demand` asks for
/// Hybrid, `off` for Compute, anything else (the historical `on`, garbage, a
/// missing file) for Discrete.
pub open spec fn spec_mode_of_preference(pref: Seq<char>) -> GraphicsMode {
    if pref == "on-demand"@ {
        GraphicsMode::Hybrid
    } else if pref == "off"@ {
        GraphicsMode::Compute
    } else {
        GraphicsMode::Discrete
    }
}

/// The mode `get_vendor` reports, given whether an NVIDIA kernel module is
/// loaded and the raw content of the preference file (`None` when it could
/// not be read).
pub open spec fn spec_vendor_mode(nvidia_loaded: bool, pref_raw: Option<Seq<char>>) -> GraphicsMode {
    if !nvidia_loaded {
        GraphicsMode::Integrated
    } else {
        match pref_raw {
            Some(s) => spec_mode_of_preference(trimmed(s)),
            None => GraphicsMode::Discrete,
        }
    }
}

/// Report the current graphics mode from the module list and the preference
/// file's raw content.  With no NVIDIA module loaded the machine is running
/// integrated-only, whatever the preference file says; an unreadable
/// preference file means the historical always-on behaviour, Discrete.
pub fn vendor_mode(nvidia_loaded: bool, pref_raw: Option<&str>) -> (m: GraphicsMode)
    ensures
        m == spec_vendor_mode(
            nvidia_loaded,
            match pref_raw {
                Some(s) => Some(s@),
                None => None,
            },
        ),
{
    if !nvidia_loaded {
        return GraphicsMode::Integrated;
    }
    match pref_raw {
        None => GraphicsMode::Discrete,
        Some(raw) => {
            let pref = trim_text(raw);
            if str_eq(pref.as_str(), "on-demand") {
                GraphicsMode::Hybrid
            } else if str_eq(pref.as_str(), "off") {
                GraphicsMode::Compute
            } else {
                GraphicsMode::Discrete
            }
        },
    }
}

/// One loaded kernel module name signals the NVIDIA driver stack.
pub open spec fn spec_is_nvidia_module(name: Seq<char>) -> bool {
    name == "nvidia"@ || name == "nouveau"@
}

/// Some loaded kernel module belongs to the NVIDIA driver stack.
pub open spec fn spec_has_nvidia_module(modules: Seq<String>) -> bool {
    exists|k: int| 0 <= k < modules.len() && spec_is_nvidia_module(#[trigger] modules[k]@)
}

/// Whether the list of loaded kernel modules holds the NVIDIA or nouveau
/// driver.
pub fn has_nvidia_module(modules: &Vec<String>) -> (r: bool)
    ensures
        r == spec_has_nvidia_module(modules@),
{
    let mut i: usize = 0;
    while i < modules.len()
        invariant
            i <= modules@.len(),
            forall|k: int| 0 <= k < i ==> !spec_is_nvidia_module(#[trigger] modules@[k]@),
        decreases modules@.len() - i,
    {
        let name = modules[i].as_str();
        if str_eq(name, "nvidia") || str_eq(name, "nouveau") {
            return true;
        }
        i = i + 1;
    }
    false
}

/// The static kernel-module configuration for Discrete mode: the display
/// driver runs with kernel mode-setting on.
pub open spec fn spec_modprobe_discrete() -> Seq<char> {
    "# Automatically generated by system76-power
options nvidia-drm modeset=1
"@
}

/// The static configuration for Hybrid mode: the auxiliary I2C-over-GPU
/// module is blacklisted and dynamic power management is on.
pub open spec fn spec_modprobe_hybrid() -> Seq<char> {
    "# Automatically generated by system76-power
blacklist i2c_nvidia_gpu
alias i2c_nvidia_gpu off
options nvidia NVreg_DynamicPowerManagement=0x02
options nvidia-drm modeset=1
"@
}

/// The static configuration for Compute mode: every display path is
/// blacklisted, dynamic power management stays on.
pub open spec fn spec_modprobe_compute() -> Seq<char> {
    "# Automatically generated by system76-power
blacklist i2c_nvidia_gpu
blacklist nvidia-drm
blacklist nvidia-modeset
alias i2c_nvidia_gpu off
alias nvidia-drm off
alias nvidia-modeset off
options nvidia NVreg_DynamicPowerManagement=0x02
"@
}

/// The static configuration for Integrated mode: every NVIDIA-family module
/// is blacklisted outright.
pub open spec fn spec_modprobe_integrated() -> Seq<char> {
    "# Automatically generated by system76-power
blacklist i2c_nvidia_gpu
blacklist nouveau
blacklist nvidia
blacklist nvidia-drm
blacklist nvidia-modeset
alias i2c_nvidia_gpu off
alias nouveau off
alias nvidia off
alias nvidia-drm off
alias nvidia-modeset off
"@
}

/// The mode-specific block of the module-configuration file.
pub open spec fn spec_modprobe_block(mode: GraphicsMode) -> Seq<char> {
    match mode {
        GraphicsMode::Integrated => spec_modprobe_integrated(),
        GraphicsMode::Compute => spec_modprobe_compute(),
        GraphicsMode::Hybrid => spec_modprobe_hybrid(),
        GraphicsMode::Discrete => spec_modprobe_discrete(),
    }
}

/// The mode-specific block of the module-configuration file, byte-exact.
pub fn modprobe_block(mode: GraphicsMode) -> (r: &'static str)
    ensures
        r@ == spec_modprobe_block(mode),
{
    match mode {
        GraphicsMode::Integrated => "# Automatically generated by system76-power
blacklist i2c_nvidia_gpu
blacklist nouveau
blacklist nvidia
blacklist nvidia-drm
blacklist nvidia-modeset
alias i2c_nvidia_gpu off
alias nouveau off
alias nvidia off
alias nvidia-drm off
alias nvidia-modeset off
",
        GraphicsMode::Compute => "# Automatically generated by system76-power
blacklist i2c_nvidia_gpu
blacklist nvidia-drm
blacklist nvidia-modeset
alias i2c_nvidia_gpu off
alias nvidia-drm off
alias nvidia-modeset off
options nvidia NVreg_DynamicPowerManagement=0x02
",
        GraphicsMode::Hybrid => "# Automatically generated by system76-power
blacklist i2c_nvidia_gpu
alias i2c_nvidia_gpu off
options nvidia NVreg_DynamicPowerManagement=0x02
options nvidia-drm modeset=1
",
        GraphicsMode::Discrete => "# Automatically generated by system76-power
options nvidia-drm modeset=1
",
    }
}

/// The suspend tuning block appended for every mode but Integrated: systems
/// on the shallow S0ix sleep path enable S0ix-based power management, systems
/// on legacy S3 preserve video memory allocations instead.
pub open spec fn spec_sleep_block(s0ix: bool) -> Seq<char> {
    if s0ix {
        "# Preserve video memory through suspend
options nvidia NVreg_EnableS0ixPowerManagement=1
"@
    } else {
        "# Preserve video memory through suspend
options nvidia NVreg_PreserveVideoMemoryAllocations=1
"@
    }
}

/// The suspend tuning block, byte-exact.
pub fn sleep_block(s0ix: bool) -> (r: &'static str)
    ensures
        r@ == spec_sleep_block(s0ix),
{
    if s0ix {
        "# Preserve video memory through suspend
options nvidia NVreg_EnableS0ixPowerManagement=1
"
    } else {
        "# Preserve video memory through suspend
options nvidia NVreg_PreserveVideoMemoryAllocations=1
"
    }
}

/// The platform sleeps through S0ix when the kernel's mem_sleep selector has
/// `s2idle` active.
pub open spec fn spec_mem_sleep_is_s0ix(mem_sleep: Seq<char>) -> bool {
    has_substring(mem_sleep, "[s2idle]"@)
}

/// Whether the raw content of the sleep-mode sysfs node selects the shallow
/// S0ix path.
pub fn mem_sleep_is_s0ix(mem_sleep: &str) -> (r: bool)
    ensures
        r == spec_mem_sleep_is_s0ix(mem_sleep@),
{
    contains_text(mem_sleep, "[s2idle]")
}

/// Everything a `set_vendor` transition writes or toggles, fixed by the mode
/// and the platform's sleep path.  The preference file takes `prime`; the
/// module-configuration file takes `modprobe` followed by `sleep_tuning`
/// when the latter is present; the fallback service is enabled only for
/// Discrete.
pub struct VendorPlan {
    pub prime: &'static str,
    pub modprobe: &'static str,
    pub sleep_tuning: Option<&'static str>,
    pub enable_fallback: bool,
}

/// Lay out a `set_vendor` transition.  The suspend tuning block is appended
/// for every mode but Integrated.
pub fn vendor_plan(mode: GraphicsMode, s0ix: bool) -> (p: VendorPlan)
    ensures
        p.prime@ == spec_prime_token(mode),
        p.modprobe@ == spec_modprobe_block(mode),
        mode is Integrated <==> p.sleep_tuning is None,
        p.sleep_tuning matches Some(s) ==> s@ == spec_sleep_block(s0ix),
        p.enable_fallback <==> mode is Discrete,
{
    let sleep_tuning = match mode {
        GraphicsMode::Integrated => None,
        _ => Some(sleep_block(s0ix)),
    };
    VendorPlan {
        prime: prime_token(mode),
        modprobe: modprobe_block(mode),
        sleep_tuning,
        enable_fallback: matches!(mode, GraphicsMode::Discrete),
    }
}

/// The runtime power-management policy the deferred worker writes after a
/// power-on: Discrete and Compute keep the device always powered (a driver
/// race makes automatic suspend unsafe there), the rest let the kernel
/// suspend it when idle.
pub open spec fn spec_power_control_token(mode: GraphicsMode) -> Seq<char> {
    match mode {
        GraphicsMode::Discrete | GraphicsMode::Compute => "on\n"@,
        _ => "auto\n"@,
    }
}

/// The policy token for the device's runtime-power-control sysfs node.
pub fn power_control_token(mode: GraphicsMode) -> (r: &'static str)
    ensures
        r@ == spec_power_control_token(mode),
{
    match mode {
        GraphicsMode::Discrete | GraphicsMode::Compute => "on\n",
        _ => "auto\n",
    }
}

/// Writing a mode's preference token and reading it back yields the same
/// mode, for every mode an NVIDIA module can be loaded in: the round trip
/// through the preference file is lossless.  Integrated stands apart: its
/// token is `off\n`, but with no NVIDIA module loaded `get_vendor` never
/// consults the file.
pub proof fn lemma_preference_round_trip(mode: GraphicsMode)
    requires
        mode !is Integrated,
    ensures
        spec_vendor_mode(true, Some(spec_prime_token(mode))) == mode,
{
    reveal_strlit("on-demand\n");
    reveal_strlit("on-demand");
    reveal_strlit("on\n");
    reveal_strlit("on");
    reveal_strlit("off\n");
    reveal_strlit("off");
    let tok = spec_prime_token(mode);
    assert(trimmed(tok) =~= tok.drop_last()) by {
        assert(!crate::text::is_space(tok.first()));
        assert(crate::text::is_space(tok.last()));
        assert(!crate::text::is_space(tok.drop_last().last()));
        assert(crate::text::trim_front(tok) == tok);
        assert(crate::text::trim_back(tok) == crate::text::trim_back(tok.drop_last()));
        assert(crate::text::trim_back(tok.drop_last()) == tok.drop_last());
    }
    match mode {
        GraphicsMode::Hybrid => {
            assert(tok.drop_last() =~= "on-demand"@);
        },
        GraphicsMode::Discrete => {
            assert(tok.drop_last() =~= "on"@);
            assert("on"@ != "on-demand"@);
            assert("on"@ != "off"@);
        },
        GraphicsMode::Compute => {
            assert(tok.drop_last() =~= "off"@);
            assert("off"@ != "on-demand"@);
        },
        GraphicsMode::Integrated => {},
    }
}

/// With no NVIDIA or nouveau module loaded the reported mode is Integrated,
/// whatever the preference file holds.
pub proof fn lemma_integrated_without_module(pref_raw: Option<Seq<char>>)
    ensures
        spec_vendor_mode(false, pref_raw) == GraphicsMode::Integrated,
{
}

} // verus!
