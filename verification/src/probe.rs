//! The capability prober: the NVIDIA capability manifest, the device-id and
//! driver-version parses, and the runtime power-management lookup.
//!
//! The manifest is an external JSON document; an unverified shell
//! deserializes it into the plain records below and hands them over, and the
//! search and feature check happen here under contract.

use vstd::prelude::*;
use crate::error::GraphicsDeviceError;
use crate::text::{spec_parse_hex, spec_parse_dec_or_zero, strip_hex_prefix, trimmed,
    prefix_before, parse_hex_u32, parse_dec_or_zero, strip_hex_prefix_text, trim_text,
    text_before, str_eq};

verus! {

/// One capability-manifest entry: a device id, optional sub-ids, a product
/// name, an optional legacy-branch marker, and the feature tags.
#[derive(Debug, Clone, PartialEq, Eq)]
pub struct NvidiaDevice {
    pub devid: String,
    pub subdeviceid: Option<String>,
    pub subvendorid: Option<String>,
    pub name: String,
    pub legacybranch: Option<String>,
    pub features: Vec<String>,
}

/// The capability manifest: the entries of its `chips` array, in document
/// order.
#[derive(Debug, Clone, PartialEq, Eq)]
pub struct SupportedGpus {
    pub chips: Vec<NvidiaDevice>,
}

/// What a device-id text denotes: strip every `0x` marker, trim whitespace,
/// read hexadecimal.
pub open spec fn spec_device_id(s: Seq<char>) -> Option<u32> {
    spec_parse_hex(trimmed(strip_hex_prefix(s)))
}

/// The id a manifest entry claims, with `0` standing in for a malformed one.
pub open spec fn spec_chip_id(s: Seq<char>) -> u32 {
    match spec_device_id(s) {
        Some(v) => v,
        None => 0,
    }
}

/// Parse the discrete GPU's device id from the raw content of its sysfs
/// `device` node.  A malformed value is a sysfs error.
pub fn parse_device_id(raw: &str) -> (r: Result<u32, GraphicsDeviceError>)
    ensures
        spec_device_id(raw@) matches Some(v) ==> r == Ok::<u32, GraphicsDeviceError>(v),
        spec_device_id(raw@) is None ==> (r matches Err(e) && e is SysFs),
{
    let stripped = strip_hex_prefix_text(raw);
    let t = trim_text(stripped.as_str());
    match parse_hex_u32(t.as_str()) {
        Some(v) => Ok(v),
        None => Err(
            GraphicsDeviceError::SysFs(String::from_str("invalid device id in sysfs")),
        ),
    }
}

/// The id a manifest entry claims, `0` when malformed — matching how the
/// manifest search reads entries.
pub fn chip_id(devid: &str) -> (r: u32)
    ensures
        r == spec_chip_id(devid@),
{
    let stripped = strip_hex_prefix_text(devid);
    let t = trim_text(stripped.as_str());
    match parse_hex_u32(t.as_str()) {
        Some(v) => v,
        None => 0,
    }
}

/// The major component of the installed driver's version string: the digits
/// before the first dot of the trimmed text, with `0` standing in for
/// anything unreadable.
pub open spec fn spec_major_version(raw: Seq<char>) -> u32 {
    spec_parse_dec_or_zero(prefix_before(trimmed(raw), '.'))
}

/// The driver's major version from the raw content of its sysfs `version`
/// node.  The manifest's path is derived from this number.
pub fn major_version(raw: &str) -> (r: u32)
    ensures
        r == spec_major_version(raw@),
{
    let t = trim_text(raw);
    let pre = text_before(t.as_str(), '.');
    parse_dec_or_zero(pre.as_str())
}

/// Entry `i` is the first manifest entry claiming `id`.
pub open spec fn spec_first_match(chips: Seq<NvidiaDevice>, id: u32, i: int) -> bool {
    &&& 0 <= i < chips.len()
    &&& spec_chip_id(chips[i].devid@) == id
    &&& forall|k: int| 0 <= k < i ==> spec_chip_id(#[trigger] chips[k].devid@) != id
}

/// Some manifest entry claims `id`.
pub open spec fn spec_has_match(chips: Seq<NvidiaDevice>, id: u32) -> bool {
    exists|k: int| 0 <= k < chips.len() && spec_chip_id(#[trigger] chips[k].devid@) == id
}

/// Find the manifest entry for a device id: the first entry whose id
/// matches, since several entries may share one id.  An id the manifest does
/// not know is a manifest error.
pub fn find_gpu(gpus: &SupportedGpus, id: u32) -> (r: Result<usize, GraphicsDeviceError>)
    ensures
        r matches Ok(i) ==> spec_first_match(gpus.chips@, id, i as int),
        r is Err <==> !spec_has_match(gpus.chips@, id),
        r is Err ==> (r matches Err(e) && e is Json),
{
    let mut i: usize = 0;
    while i < gpus.chips.len()
        invariant
            i <= gpus.chips@.len(),
            forall|k: int|
                0 <= k < i ==> spec_chip_id(#[trigger] gpus.chips@[k].devid@) != id,
        decreases gpus.chips@.len() - i,
    {
        if chip_id(gpus.chips[i].devid.as_str()) == id {
            return Ok(i);
        }
        i = i + 1;
    }
    Err(GraphicsDeviceError::Json(String::from_str("GPU device not found")))
}

/// The entry's feature tags include runtime power management.
pub open spec fn spec_has_runtimepm(dev: NvidiaDevice) -> bool {
    exists|k: int| 0 <= k < dev.features.len() && (#[trigger] dev.features[k])@ == "runtimepm"@
}

/// Whether a manifest entry's features include `runtimepm`.
pub fn supports_runtimepm(dev: &NvidiaDevice) -> (r: bool)
    ensures
        r == spec_has_runtimepm(*dev),
{
    let mut i: usize = 0;
    while i < dev.features.len()
        invariant
            i <= dev.features@.len(),
            forall|k: int| 0 <= k < i ==> (#[trigger] dev.features@[k])@ != "runtimepm"@,
        decreases dev.features@.len() - i,
    {
        if str_eq(dev.features[i].as_str(), "runtimepm") {
            return true;
        }
        i = i + 1;
    }
    false
}

/// Whether the manifest says the device supports runtime power management:
/// look the id up (first match wins) and check its feature tags.  An unknown
/// id is a manifest error — the mode-selection caller downgrades it to
/// "unsupported" rather than failing.
pub fn gpu_supports_runtimepm(gpus: &SupportedGpus, id: u32) -> (r: Result<
    bool,
    GraphicsDeviceError,
>)
    ensures
        r is Ok <==> spec_has_match(gpus.chips@, id),
        r matches Ok(b) ==> exists|i: int|
            spec_first_match(gpus.chips@, id, i) && b == spec_has_runtimepm(
                #[trigger] gpus.chips@[i],
            ),
        r is Err ==> (r matches Err(e) && e is Json),
{
    match find_gpu(gpus, id) {
        Ok(i) => Ok(supports_runtimepm(&gpus.chips[i])),
        Err(e) => Err(e),
    }
}

} // verus!
