//! Physical device capability negotiation.
//!
//! Given the capabilities the driver reports for each physical device —
//! its exposed extension set and its queue families — pick the first
//! device that exposes every required extension and has both a main
//! queue family (graphics, compute, transfer and presentation) and a
//! distinct transfer-only family. No scoring: first match in enumeration
//! order wins.

use vstd::prelude::*;

verus! {

/// The device extensions the renderer requires; a device missing any of
/// them is rejected.
#[derive(Clone, Copy, PartialEq, Eq, Structural, Debug)]
pub enum DeviceExtension {
    Swapchain,
    GraphicsPipelineLibrary,
    PipelineLibrary,
    DynamicRendering,
    ExtendedDynamicState2,
    ExtendedDynamicState,
    Synchronization2,
    BufferDeviceAddress,
    CreateRenderpass2,
    DescriptorIndexing,
    FormatFeatureFlags2,
    ShaderAtomicFloat,
    ScalarBlockLayout,
}

/// What one queue family of a device can do. Presentation support is
/// per family and per surface, so the caller folds the surface query
/// into this record.
#[derive(Clone, Copy, PartialEq, Eq, Structural, Debug)]
pub struct QueueFamilyCaps {
    pub graphics: bool,
    pub compute: bool,
    pub transfer: bool,
    pub present: bool,
}

/// Everything negotiation reads about one physical device.
pub struct PhysicalDeviceCaps {
    pub extensions: Vec<DeviceExtension>,
    pub queue_families: Vec<QueueFamilyCaps>,
}

/// Outcome of negotiation: which device, and which two queue families.
#[derive(Clone, Copy, PartialEq, Eq, Structural, Debug)]
pub struct PhysicalDeviceChoice {
    pub device_index: usize,
    pub main_queue_family_idx: u32,
    pub transfer_queue_family_idx: u32,
}

/// Negotiation fails only when no enumerated device qualifies.
#[derive(Clone, Copy, PartialEq, Eq, Structural, Debug)]
pub enum NegotiateError {
    NoSuitableDevice,
}

/// The fixed required extension list, in its canonical order.
pub open spec fn spec_required_extensions() -> Seq<DeviceExtension> {
    seq![
        DeviceExtension::Swapchain,
        DeviceExtension::GraphicsPipelineLibrary,
        DeviceExtension::PipelineLibrary,
        DeviceExtension::DynamicRendering,
        DeviceExtension::ExtendedDynamicState2,
        DeviceExtension::ExtendedDynamicState,
        DeviceExtension::Synchronization2,
        DeviceExtension::BufferDeviceAddress,
        DeviceExtension::CreateRenderpass2,
        DeviceExtension::DescriptorIndexing,
        DeviceExtension::FormatFeatureFlags2,
        DeviceExtension::ShaderAtomicFloat,
        DeviceExtension::ScalarBlockLayout,
    ]
}

/// The required extension list as a vector, for callers that hand it to
/// the driver when creating the logical device.
pub fn required_device_extensions() -> (r: Vec<DeviceExtension>)
    ensures
        r@ == spec_required_extensions(),
{
    let mut r: Vec<DeviceExtension> = Vec::new();
    r.push(DeviceExtension::Swapchain);
    r.push(DeviceExtension::GraphicsPipelineLibrary);
    r.push(DeviceExtension::PipelineLibrary);
    r.push(DeviceExtension::DynamicRendering);
    r.push(DeviceExtension::ExtendedDynamicState2);
    r.push(DeviceExtension::ExtendedDynamicState);
    r.push(DeviceExtension::Synchronization2);
    r.push(DeviceExtension::BufferDeviceAddress);
    r.push(DeviceExtension::CreateRenderpass2);
    r.push(DeviceExtension::DescriptorIndexing);
    r.push(DeviceExtension::FormatFeatureFlags2);
    r.push(DeviceExtension::ShaderAtomicFloat);
    r.push(DeviceExtension::ScalarBlockLayout);
    assert(r@ =~= spec_required_extensions());
    r
}

/// The device exposes every required extension (its set is a superset of
/// the required set).
pub open spec fn spec_has_required_extensions(extensions: Seq<DeviceExtension>) -> bool {
    forall|i: int|
        0 <= i < spec_required_extensions().len() ==> extensions.contains(
            #[trigger] spec_required_extensions()[i],
        )
}

/// A family that can serve as the main queue: graphics, compute and
/// transfer work, plus presentation on the target surface.
pub open spec fn spec_main_family(caps: QueueFamilyCaps) -> bool {
    caps.graphics && caps.compute && caps.transfer && caps.present
}

/// A family that can serve as the dedicated transfer queue: transfer
/// capable but not a graphics family.
pub open spec fn spec_transfer_family(caps: QueueFamilyCaps) -> bool {
    caps.transfer && !caps.graphics
}

/// Index of the first main-capable family, if any.
pub open spec fn spec_select_main(families: Seq<QueueFamilyCaps>) -> Option<int>
    decreases families.len(),
{
    if families.len() == 0 {
        None
    } else if spec_main_family(families[0]) {
        Some(0)
    } else {
        match spec_select_main(families.drop_first()) {
            Some(i) => Some(i + 1),
            None => None,
        }
    }
}

/// Index of the first transfer-only family that differs from `main`,
/// if any.
pub open spec fn spec_select_transfer(families: Seq<QueueFamilyCaps>, main: Option<int>) -> Option<
    int,
>
    decreases families.len(),
{
    spec_select_transfer_from(families, main, 0)
}

/// Helper for `spec_select_transfer`: search from position `at`.
pub open spec fn spec_select_transfer_from(
    families: Seq<QueueFamilyCaps>,
    main: Option<int>,
    at: int,
) -> Option<int>
    decreases families.len() - at,
{
    if at < 0 || at >= families.len() {
        None
    } else if spec_transfer_family(families[at]) && main != Some(at) {
        Some(at)
    } else {
        spec_select_transfer_from(families, main, at + 1)
    }
}

/// A device qualifies when it has every required extension, a main
/// family, and a distinct transfer-only family.
pub open spec fn spec_qualifies(dev: PhysicalDeviceCaps) -> bool {
    &&& spec_has_required_extensions(dev.extensions@)
    &&& spec_select_main(dev.queue_families@) is Some
    &&& spec_select_transfer(dev.queue_families@, spec_select_main(dev.queue_families@)) is Some
}

/// Does the extension list contain `ext`?
fn contains_extension(extensions: &Vec<DeviceExtension>, ext: DeviceExtension) -> (r: bool)
    ensures
        r == extensions@.contains(ext),
{
    let mut i: usize = 0;
    while i < extensions.len()
        invariant
            0 <= i <= extensions.len(),
            forall|j: int| 0 <= j < i ==> extensions@[j] != ext,
        decreases extensions.len() - i,
    {
        if extensions[i] == ext {
            return true;
        }
        i += 1;
    }
    false
}

/// Checks the superset condition against the fixed required list.
pub fn has_required_extensions(extensions: &Vec<DeviceExtension>) -> (r: bool)
    ensures
        r == spec_has_required_extensions(extensions@),
{
    let required = required_device_extensions();
    let mut i: usize = 0;
    while i < required.len()
        invariant
            0 <= i <= required.len(),
            required@ == spec_required_extensions(),
            forall|j: int| 0 <= j < i ==> extensions@.contains(#[trigger] required@[j]),
        decreases required.len() - i,
    {
        if !contains_extension(extensions, required[i]) {
            return false;
        }
        i += 1;
    }
    true
}

/// First main-capable family index, as the driver numbers families.
pub fn select_main_family(families: &Vec<QueueFamilyCaps>) -> (r: Option<u32>)
    requires
        families@.len() <= u32::MAX,
    ensures
        match r {
            Some(i) => spec_select_main(families@) == Some(i as int),
            None => spec_select_main(families@) is None,
        },
{
    let mut i: usize = 0;
    while i < families.len()
        invariant
            0 <= i <= families@.len() <= u32::MAX,
            forall|j: int| 0 <= j < i ==> !spec_main_family(families@[j]),
        decreases families.len() - i,
    {
        let caps = families[i];
        if caps.graphics && caps.compute && caps.transfer && caps.present {
            proof {
                lemma_select_main_found(families@, i as int);
            }
            return Some(i as u32);
        }
        i += 1;
    }
    proof {
        lemma_select_main_none(families@);
    }
    None
}

/// When the first `k` families fail the main test and family `k` passes,
/// the recursive search returns `k`.
proof fn lemma_select_main_found(families: Seq<QueueFamilyCaps>, k: int)
    requires
        0 <= k < families.len(),
        spec_main_family(families[k]),
        forall|j: int| 0 <= j < k ==> !spec_main_family(families[j]),
    ensures
        spec_select_main(families) == Some(k),
    decreases k,
{
    if k == 0 {
    } else {
        lemma_select_main_found(families.drop_first(), k - 1);
    }
}

/// When no family passes the main test, the search returns nothing.
proof fn lemma_select_main_none(families: Seq<QueueFamilyCaps>)
    requires
        forall|j: int| 0 <= j < families.len() ==> !spec_main_family(families[j]),
    ensures
        spec_select_main(families) is None,
    decreases families.len(),
{
    if families.len() > 0 {
        lemma_select_main_none(families.drop_first());
    }
}

/// First transfer-only family distinct from `main`, as the driver
/// numbers families.
pub fn select_transfer_family(families: &Vec<QueueFamilyCaps>, main: Option<u32>) -> (r: Option<
    u32,
>)
    requires
        families@.len() <= u32::MAX,
    ensures
        match r {
            Some(i) => spec_select_transfer(families@, spec_opt_int(main)) == Some(i as int),
            None => spec_select_transfer(families@, spec_opt_int(main)) is None,
        },
{
    let ghost main_int = spec_opt_int(main);
    let mut i: usize = 0;
    while i < families.len()
        invariant
            0 <= i <= families@.len() <= u32::MAX,
            main_int == spec_opt_int(main),
            forall|j: int|
                0 <= j < i ==> !(spec_transfer_family(families@[j]) && main_int != Some(j)),
        decreases families.len() - i,
    {
        let caps = families[i];
        let distinct = match main {
            Some(m) => m as usize != i,
            None => true,
        };
        if caps.transfer && !caps.graphics && distinct {
            proof {
                lemma_select_transfer_found(families@, main_int, i as int);
            }
            return Some(i as u32);
        }
        i += 1;
    }
    proof {
        lemma_select_transfer_none(families@, main_int);
    }
    None
}

/// A `u32` option as the mathematical option the selection specs use.
pub open spec fn spec_opt_int(o: Option<u32>) -> Option<int> {
    match o {
        Some(v) => Some(v as int),
        None => None,
    }
}

/// When positions before `k` fail the transfer test and `k` passes,
/// the search from 0 stops at `k`.
proof fn lemma_select_transfer_found(families: Seq<QueueFamilyCaps>, main: Option<int>, k: int)
    requires
        0 <= k < families.len(),
        spec_transfer_family(families[k]) && main != Some(k),
        forall|j: int| 0 <= j < k ==> !(spec_transfer_family(families[j]) && main != Some(j)),
    ensures
        spec_select_transfer(families, main) == Some(k),
{
    lemma_select_transfer_from_found(families, main, 0, k);
}

proof fn lemma_select_transfer_from_found(
    families: Seq<QueueFamilyCaps>,
    main: Option<int>,
    at: int,
    k: int,
)
    requires
        0 <= at <= k < families.len(),
        spec_transfer_family(families[k]) && main != Some(k),
        forall|j: int| at <= j < k ==> !(spec_transfer_family(families[j]) && main != Some(j)),
    ensures
        spec_select_transfer_from(families, main, at) == Some(k),
    decreases k - at,
{
    if at < k {
        lemma_select_transfer_from_found(families, main, at + 1, k);
    }
}

/// When no position passes the transfer test, the search finds nothing.
proof fn lemma_select_transfer_none(families: Seq<QueueFamilyCaps>, main: Option<int>)
    requires
        forall|j: int|
            0 <= j < families.len() ==> !(spec_transfer_family(families[j]) && main != Some(j)),
    ensures
        spec_select_transfer(families, main) is None,
{
    lemma_select_transfer_from_none(families, main, 0);
}

proof fn lemma_select_transfer_from_none(
    families: Seq<QueueFamilyCaps>,
    main: Option<int>,
    at: int,
)
    requires
        0 <= at,
        forall|j: int|
            at <= j < families.len() ==> !(spec_transfer_family(families[j]) && main != Some(j)),
    ensures
        spec_select_transfer_from(families, main, at) is None,
    decreases families.len() - at,
{
    if at < families.len() {
        lemma_select_transfer_from_none(families, main, at + 1);
    }
}

/// The two queue family indices negotiation picks on one device, when
/// the device has both.
pub fn device_queue_indices(dev: &PhysicalDeviceCaps) -> (r: Option<(u32, u32)>)
    requires
        dev.queue_families@.len() <= u32::MAX,
    ensures
        match r {
            Some((m, t)) => {
                &&& spec_select_main(dev.queue_families@) == Some(m as int)
                &&& spec_select_transfer(dev.queue_families@, Some(m as int)) == Some(t as int)
                &&& m != t
                &&& spec_main_family(dev.queue_families@[m as int])
                &&& spec_transfer_family(dev.queue_families@[t as int])
            },
            None => !(spec_select_main(dev.queue_families@) is Some && spec_select_transfer(
                dev.queue_families@,
                spec_select_main(dev.queue_families@),
            ) is Some),
        },
{
    let main = select_main_family(&dev.queue_families);
    let transfer = match select_transfer_family(&dev.queue_families, main) {
        Some(t) => t,
        None => {
            return None;
        },
    };
    let main = match main {
        Some(m) => m,
        None => {
            return None;
        },
    };
    proof {
        lemma_select_main_in_range(dev.queue_families@);
        lemma_select_transfer_from_in_range(dev.queue_families@, Some(main as int), 0);
    }
    Some((main, transfer))
}

/// A successful main search lands in range on a qualifying family.
proof fn lemma_select_main_in_range(families: Seq<QueueFamilyCaps>)
    ensures
        match spec_select_main(families) {
            Some(i) => 0 <= i < families.len() && spec_main_family(families[i]),
            None => true,
        },
    decreases families.len(),
{
    if families.len() > 0 && !spec_main_family(families[0]) {
        lemma_select_main_in_range(families.drop_first());
    }
}

/// A successful transfer search lands in range, on a transfer-only
/// family distinct from `main`.
proof fn lemma_select_transfer_from_in_range(
    families: Seq<QueueFamilyCaps>,
    main: Option<int>,
    at: int,
)
    ensures
        match spec_select_transfer_from(families, main, at) {
            Some(i) => at <= i < families.len() && spec_transfer_family(families[i]) && main
                != Some(i),
            None => true,
        },
    decreases families.len() - at,
{
    if 0 <= at < families.len() && !(spec_transfer_family(families[at]) && main != Some(at)) {
        lemma_select_transfer_from_in_range(families, main, at + 1);
    }
}

/// Picks the first device, in enumeration order, that exposes every
/// required extension and has both queue families; fails with
/// `NoSuitableDevice` exactly when none does.
pub fn negotiate(devices: &Vec<PhysicalDeviceCaps>) -> (r: Result<
    PhysicalDeviceChoice,
    NegotiateError,
>)
    requires
        forall|i: int|
            0 <= i < devices@.len() ==> (#[trigger] devices@[i]).queue_families@.len() <= u32::MAX,
    ensures
        match r {
            Ok(c) => {
                &&& c.device_index < devices@.len()
                &&& spec_qualifies(devices@[c.device_index as int])
                &&& forall|j: int| 0 <= j < c.device_index ==> !spec_qualifies(devices@[j])
                &&& spec_select_main(devices@[c.device_index as int].queue_families@) == Some(
                    c.main_queue_family_idx as int,
                )
                &&& spec_select_transfer(
                    devices@[c.device_index as int].queue_families@,
                    Some(c.main_queue_family_idx as int),
                ) == Some(c.transfer_queue_family_idx as int)
                &&& c.main_queue_family_idx != c.transfer_queue_family_idx
                &&& spec_main_family(
                    devices@[c.device_index as int].queue_families@[c.main_queue_family_idx as int],
                )
                &&& spec_transfer_family(
                    devices@[c.device_index as int].queue_families@[c.transfer_queue_family_idx as int],
                )
            },
            Err(e) => {
                &&& e == NegotiateError::NoSuitableDevice
                &&& forall|j: int| 0 <= j < devices@.len() ==> !spec_qualifies(devices@[j])
            },
        },
{
    let mut i: usize = 0;
    while i < devices.len()
        invariant
            0 <= i <= devices@.len(),
            forall|j: int|
                0 <= j < devices@.len() ==> (#[trigger] devices@[j]).queue_families@.len()
                    <= u32::MAX,
            forall|j: int| 0 <= j < i ==> !spec_qualifies(devices@[j]),
        decreases devices.len() - i,
    {
        let dev = &devices[i];
        if has_required_extensions(&dev.extensions) {
            if let Some((m, t)) = device_queue_indices(dev) {
                return Ok(
                    PhysicalDeviceChoice {
                        device_index: i,
                        main_queue_family_idx: m,
                        transfer_queue_family_idx: t,
                    },
                );
            }
        }
        i += 1;
    }
    Err(NegotiateError::NoSuitableDevice)
}

} // verus!
