//! Device selection: queue-family lookup, required-extension checking, and
//! the pick of the first compatible adapter — the decisions behind instance
//! and logical-device creation, over what the driver reports as plain values.

use vstd::prelude::*;

use crate::error::CompatibilityError;
use crate::error::RhiError;

verus! {

/// What one queue family reports: whether it accepts graphics commands and
/// whether it can present to the target surface.
#[derive(Debug, Clone, Copy, PartialEq, Eq, Structural)]
pub struct QueueFamilyInfo {
    pub supports_graphics: bool,
    pub supports_present: bool,
}

/// The queue families the logical device is created with. The design
/// relies on one family serving both roles, so the two indices are equal.
#[derive(Debug, Clone, Copy, PartialEq, Eq, Structural)]
pub struct QueueFamilyIndices {
    pub graphics: u32,
    pub present: u32,
}

/// A family that can serve as both the graphics and the present queue.
pub open spec fn family_suitable(f: QueueFamilyInfo) -> bool {
    f.supports_graphics && f.supports_present
}

/// Picks the first queue family that accepts graphics commands and can
/// present to the surface, failing when no family does.
pub fn find_queue_families(families: &Vec<QueueFamilyInfo>) -> (r: Result<
    QueueFamilyIndices,
    CompatibilityError,
>)
    requires
        families@.len() <= u32::MAX,
    ensures
        r is Ok <==> exists|i: int| 0 <= i < families@.len() && family_suitable(#[trigger] families@[i]),
        r matches Ok(q) ==> {
            &&& q.graphics == q.present
            &&& 0 <= q.graphics < families@.len()
            &&& family_suitable(families@[q.graphics as int])
            &&& forall|j: int| 0 <= j < q.graphics ==> !family_suitable(#[trigger] families@[j])
        },
{
    let mut idx: usize = 0;
    while idx < families.len()
        invariant
            idx <= families@.len(),
            families@.len() <= u32::MAX,
            forall|j: int| 0 <= j < idx ==> !family_suitable(#[trigger] families@[j]),
        decreases families@.len() - idx,
    {
        let f = families[idx];
        if f.supports_graphics && f.supports_present {
            return Ok(QueueFamilyIndices { graphics: idx as u32, present: idx as u32 });
        }
        idx = idx + 1;
    }
    Err(CompatibilityError("Missing required queue families"))
}

/// Byte-for-byte equality of two names.
pub fn bytes_eq(a: &Vec<u8>, b: &Vec<u8>) -> (r: bool)
    ensures
        r <==> a@ == b@,
{
    if a.len() != b.len() {
        return false;
    }
    let mut i: usize = 0;
    while i < a.len()
        invariant
            a@.len() == b@.len(),
            i <= a@.len(),
            forall|j: int| 0 <= j < i ==> a@[j] == b@[j],
        decreases a@.len() - i,
    {
        if a[i] != b[i] {
            return false;
        }
        i = i + 1;
    }
    proof {
        assert(a@ =~= b@);
    }
    true
}

/// Whether `names` holds an entry equal to `needle`.
pub fn contains_name(names: &Vec<Vec<u8>>, needle: &Vec<u8>) -> (r: bool)
    ensures
        r <==> exists|i: int| 0 <= i < names@.len() && (#[trigger] names@[i])@ == needle@,
{
    let mut i: usize = 0;
    while i < names.len()
        invariant
            i <= names@.len(),
            forall|j: int| 0 <= j < i ==> (#[trigger] names@[j])@ != needle@,
        decreases names@.len() - i,
    {
        if bytes_eq(&names[i], needle) {
            return true;
        }
        i = i + 1;
    }
    false
}

/// Whether one name appears among the available ones.
pub open spec fn extension_available(available: Seq<Vec<u8>>, name: Seq<u8>) -> bool {
    exists|i: int| 0 <= i < available.len() && (#[trigger] available[i])@ == name
}

/// Every required extension name appears among the available ones.
pub open spec fn all_extensions_available(available: Seq<Vec<u8>>, required: Seq<Vec<u8>>) -> bool {
    forall|j: int|
        0 <= j < required.len() ==> extension_available(available, (#[trigger] required[j])@)
}

/// Checks that the adapter offers every required device extension,
/// failing when one is missing.
pub fn check_device_extensions(available: &Vec<Vec<u8>>, required: &Vec<Vec<u8>>) -> (r: Result<
    (),
    CompatibilityError,
>)
    ensures
        r is Ok <==> all_extensions_available(available@, required@),
{
    let mut j: usize = 0;
    while j < required.len()
        invariant
            j <= required@.len(),
            forall|q: int|
                0 <= q < j ==> extension_available(available@, (#[trigger] required@[q])@),
        decreases required@.len() - j,
    {
        if !contains_name(available, &required[j]) {
            return Err(CompatibilityError("Missing required queue family extensions."));
        }
        j = j + 1;
    }
    Ok(())
}

/// Checks the validation-layer policy for instance creation: when
/// validation is requested, the layer must be among the reported ones;
/// when it is not requested, nothing is required.
pub fn check_validation_layer(
    available: &Vec<Vec<u8>>,
    layer: &Vec<u8>,
    validation_enabled: bool,
) -> (r: bool)
    ensures
        r <==> (!validation_enabled || extension_available(available@, layer@)),
{
    if !validation_enabled {
        return true;
    }
    contains_name(available, layer)
}

/// What one physical adapter reports about itself, as far as selection
/// cares: its queue families, its device extensions, and how many surface
/// formats and present modes it supports.
#[derive(Debug, Clone)]
pub struct AdapterInfo {
    pub queue_families: Vec<QueueFamilyInfo>,
    pub extensions: Vec<Vec<u8>>,
    pub format_count: usize,
    pub present_mode_count: usize,
}

/// An adapter is compatible when it has a suitable queue family, offers
/// every required extension, and reports at least one surface format and
/// one present mode.
pub open spec fn adapter_compatible(a: AdapterInfo, required: Seq<Vec<u8>>) -> bool {
    &&& exists|i: int| 0 <= i < a.queue_families@.len() && family_suitable(#[trigger] a.queue_families@[i])
    &&& all_extensions_available(a.extensions@, required)
    &&& a.format_count > 0
    &&& a.present_mode_count > 0
}

/// Checks one adapter against the minimum requirements.
pub fn check_physical_device_compatibility(a: &AdapterInfo, required: &Vec<Vec<u8>>) -> (r: Result<
    (),
    CompatibilityError,
>)
    requires
        a.queue_families@.len() <= u32::MAX,
    ensures
        r is Ok <==> adapter_compatible(*a, required@),
{
    if let Err(e) = find_queue_families(&a.queue_families) {
        return Err(e);
    }
    if let Err(e) = check_device_extensions(&a.extensions, required) {
        return Err(e);
    }
    if a.format_count == 0 || a.present_mode_count == 0 {
        return Err(CompatibilityError("Insufficient swapchain support."));
    }
    Ok(())
}

/// Picks the first compatible adapter, failing with a device-selection
/// error when none qualifies.
pub fn pick_physical_device(adapters: &Vec<AdapterInfo>, required: &Vec<Vec<u8>>) -> (r: Result<
    usize,
    RhiError,
>)
    requires
        forall|i: int|
            0 <= i < adapters@.len() ==> (#[trigger] adapters@[i]).queue_families@.len() <= u32::MAX,
    ensures
        r is Ok <==> exists|i: int|
            0 <= i < adapters@.len() && adapter_compatible(#[trigger] adapters@[i], required@),
        r matches Ok(i) ==> {
            &&& 0 <= i < adapters@.len()
            &&& adapter_compatible(adapters@[i as int], required@)
            &&& forall|j: int| 0 <= j < i ==> !adapter_compatible(#[trigger] adapters@[j], required@)
        },
        r is Err ==> r == Result::<usize, RhiError>::Err(RhiError::DeviceSelection),
{
    let mut idx: usize = 0;
    while idx < adapters.len()
        invariant
            idx <= adapters@.len(),
            forall|i: int|
                0 <= i < adapters@.len() ==> (#[trigger] adapters@[i]).queue_families@.len()
                    <= u32::MAX,
            forall|j: int| 0 <= j < idx ==> !adapter_compatible(#[trigger] adapters@[j], required@),
        decreases adapters@.len() - idx,
    {
        match check_physical_device_compatibility(&adapters[idx], required) {
            Ok(_) => {
                return Ok(idx);
            },
            Err(_) => {},
        }
        idx = idx + 1;
    }
    Err(RhiError::DeviceSelection)
}

/// The packed version triples the instance is created with.
#[derive(Debug, Clone, Copy, PartialEq, Eq, Structural)]
pub struct ApplicationVersions {
    pub application_version: u32,
    pub api_version: u32,
    pub engine_version: u32,
}

/// Relies on vulkanalia's `vk::make_version`: packs a semantic version
/// with the major part in bits 22 and up, the minor part in bits 12 to 21,
/// and the patch in the low 12 bits.
#[verifier::external_body]
fn pack_version(major: u32, minor: u32, patch: u32) -> (r: u32)
    ensures
        r == (major << 22) | (minor << 12) | patch,
{
    vulkanalia::vk::make_version(major, minor, patch)
}

/// The version triple this backend identifies itself with: application
/// version zero-dot-one, engine and API version one-dot-zero.
pub fn application_versions() -> (r: ApplicationVersions)
    ensures
        r.application_version == (0u32 << 22) | (1u32 << 12) | 0u32,
        r.api_version == (1u32 << 22) | (0u32 << 12) | 0u32,
        r.engine_version == (1u32 << 22) | (0u32 << 12) | 0u32,
{
    ApplicationVersions {
        application_version: pack_version(0, 1, 0),
        api_version: pack_version(1, 0, 0),
        engine_version: pack_version(1, 0, 0),
    }
}

} // verus!
