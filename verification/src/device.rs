//! Device selection and capability queries.
//!
//! The execution context is chosen once at startup: pick a physical
//! device (preferring a discrete GPU), find its graphics and present
//! queue families, and check the required device extension.  All of these
//! are exact decisions over what the platform reports; the platform
//! enumeration itself happens outside and hands its findings in as plain
//! values.

use vstd::prelude::*;

use crate::swapchain::{PresentMode, SurfaceCapabilities, SurfaceFormat};
use crate::util::{copy_vec, str_eq};
use crate::ConfigurationError;

verus! {

/// The device extension the presentation engine cannot run without.
pub const REQUIRED_DEVICE_EXTENSION: &'static str = "VK_KHR_swapchain";

/// The validation layer requested during development.
pub const REQUIRED_VALIDATION_LAYER: &'static str = "VK_LAYER_KHRONOS_validation";

/// Indices of the queue families used for rendering and presentation.
#[derive(Clone, Copy, PartialEq, Eq, Structural, Debug)]
pub struct QueueFamilyIndices {
    pub graphics_family: Option<u32>,
    pub present_family: Option<u32>,
}

impl QueueFamilyIndices {
    pub open spec fn spec_complete(self) -> bool {
        self.graphics_family is Some && self.present_family is Some
    }

    pub fn new() -> (r: QueueFamilyIndices)
        ensures
            r == (QueueFamilyIndices { graphics_family: None, present_family: None }),
    {
        QueueFamilyIndices { graphics_family: None, present_family: None }
    }

    /// Both required queue families have been found.
    pub fn is_complete(&self) -> (r: bool)
        ensures
            r == self.spec_complete(),
    {
        self.graphics_family.is_some() && self.present_family.is_some()
    }
}

/// What one queue family offers, as reported by the platform.
#[derive(Clone, Copy, PartialEq, Eq, Structural, Debug)]
pub struct QueueFamilyProperties {
    pub queue_count: u32,
    pub supports_graphics: bool,
    pub supports_present: bool,
}

/// One scan step: a non-empty family that supports graphics (or
/// presentation) takes over the respective index.
pub open spec fn spec_queue_family_step(
    f: QueueFamilyProperties,
    i: int,
    acc: QueueFamilyIndices,
) -> QueueFamilyIndices {
    QueueFamilyIndices {
        graphics_family: if f.queue_count > 0 && f.supports_graphics {
            Some(i as u32)
        } else {
            acc.graphics_family
        },
        present_family: if f.queue_count > 0 && f.supports_present {
            Some(i as u32)
        } else {
            acc.present_family
        },
    }
}

/// The scan over families starting at `i`, stopping as soon as both
/// indices are found.
pub open spec fn spec_queue_family_scan(
    families: Seq<QueueFamilyProperties>,
    i: int,
    acc: QueueFamilyIndices,
) -> QueueFamilyIndices
    decreases families.len() - i,
{
    if acc.spec_complete() || i < 0 || i >= families.len() {
        acc
    } else {
        spec_queue_family_scan(families, i + 1, spec_queue_family_step(families[i], i, acc))
    }
}

/// The queue family indices the scan of the reported families yields.
pub open spec fn spec_find_queue_family(families: Seq<QueueFamilyProperties>) -> QueueFamilyIndices {
    spec_queue_family_scan(
        families,
        0,
        QueueFamilyIndices { graphics_family: None, present_family: None },
    )
}

/// Scan the reported queue families for a graphics-capable and a
/// present-capable family, stopping at the first index where both have
/// been found.
pub fn find_queue_family(queue_families: &Vec<QueueFamilyProperties>) -> (r: QueueFamilyIndices)
    requires
        queue_families@.len() <= u32::MAX,
    ensures
        r == spec_find_queue_family(queue_families@),
{
    let n = queue_families.len();
    let mut acc = QueueFamilyIndices::new();
    let mut i: usize = 0;
    while i < n
        invariant
            n == queue_families@.len() <= u32::MAX,
            i <= n,
            !acc.spec_complete(),
            spec_queue_family_scan(queue_families@, i as int, acc) == spec_find_queue_family(
                queue_families@,
            ),
        decreases n - i,
    {
        let f = queue_families[i];
        let ghost acc_entry = acc;
        if f.queue_count > 0 && f.supports_graphics {
            acc.graphics_family = Some(i as u32);
        }
        if f.queue_count > 0 && f.supports_present {
            acc.present_family = Some(i as u32);
        }
        proof {
            assert(acc == spec_queue_family_step(queue_families@[i as int], i as int, acc_entry));
        }
        if acc.is_complete() {
            proof {
                assert(spec_queue_family_scan(queue_families@, i as int + 1, acc) == acc);
                assert(spec_queue_family_scan(queue_families@, i as int, acc_entry)
                    == spec_queue_family_scan(queue_families@, i as int + 1, acc));
            }
            return acc;
        }
        i = i + 1;
    }
    acc
}

/// Kinds of rendering adapters, in the platform's classification.
#[derive(Clone, Copy, PartialEq, Eq, Structural, Debug)]
pub enum PhysicalDeviceType {
    Cpu,
    IntegratedGpu,
    DiscreteGpu,
    VirtualGpu,
    Other,
}

/// What the surface offers a particular device for presentation.
#[derive(Clone, Debug)]
pub struct SwapchainSupportDetail {
    pub capabilities: SurfaceCapabilities,
    pub formats: Vec<SurfaceFormat>,
    pub present_modes: Vec<PresentMode>,
}

/// Everything the platform reports about one physical device that the
/// selection logic reads.
#[derive(Clone, Debug)]
pub struct PhysicalDeviceInfo {
    pub device_type: PhysicalDeviceType,
    pub queue_families: Vec<QueueFamilyProperties>,
    pub available_extensions: Vec<String>,
    pub swapchain_support: SwapchainSupportDetail,
    pub color_sample_mask: u32,
    pub depth_sample_mask: u32,
    pub memory_type_flags: Vec<u32>,
}

/// Whether one of the reported names is `target`.
pub open spec fn spec_contains_str(names: Seq<String>, target: Seq<char>) -> bool {
    exists|i: int| 0 <= i < names.len() && names[i]@ == target
}

fn contains_str(names: &Vec<String>, target: &str) -> (r: bool)
    ensures
        r == spec_contains_str(names@, target@),
{
    let n = names.len();
    let mut i: usize = 0;
    while i < n
        invariant
            n == names@.len(),
            i <= n,
            forall|j: int| 0 <= j < i ==> names@[j]@ != target@,
        decreases n - i,
    {
        if str_eq(names[i].as_str(), target) {
            proof {
                assert(names@[i as int]@ == target@);
            }
            return true;
        }
        i = i + 1;
    }
    false
}

/// The device offers every required extension.
pub open spec fn spec_has_required_extensions(d: PhysicalDeviceInfo) -> bool {
    spec_contains_str(d.available_extensions@, REQUIRED_DEVICE_EXTENSION@)
}

/// Check that the device offers the swapchain extension, the one device
/// extension this engine requires.
pub fn check_device_extension_support(available_extensions: &Vec<String>) -> (r: bool)
    ensures
        r == spec_contains_str(available_extensions@, REQUIRED_DEVICE_EXTENSION@),
{
    contains_str(available_extensions, REQUIRED_DEVICE_EXTENSION)
}

/// Check that the platform offers the requested validation layer.
pub fn check_validation_layer_support(layer_names: &Vec<String>) -> (r: bool)
    ensures
        r == spec_contains_str(layer_names@, REQUIRED_VALIDATION_LAYER@),
{
    contains_str(layer_names, REQUIRED_VALIDATION_LAYER)
}

/// A device can drive this engine when both queue families exist, the
/// swapchain extension is offered, and the surface reports at least one
/// format and one present mode for it.
pub open spec fn spec_suitable(d: PhysicalDeviceInfo) -> bool {
    &&& spec_find_queue_family(d.queue_families@).spec_complete()
    &&& spec_has_required_extensions(d)
    &&& d.swapchain_support.formats@.len() > 0
    &&& d.swapchain_support.present_modes@.len() > 0
}

/// Decide whether this device can drive rendering and presentation.
pub fn is_physical_device_suitable(info: &PhysicalDeviceInfo) -> (r: bool)
    requires
        info.queue_families@.len() <= u32::MAX,
    ensures
        r == spec_suitable(*info),
{
    let indices = find_queue_family(&info.queue_families);
    let is_queue_family_supported = indices.is_complete();
    let is_extension_supported = check_device_extension_support(&info.available_extensions);
    let is_swapchain_supported = if is_extension_supported {
        info.swapchain_support.formats.len() > 0 && info.swapchain_support.present_modes.len() > 0
    } else {
        false
    };
    is_queue_family_supported && is_extension_supported && is_swapchain_supported
}

/// First suitable device at or after `i`.
pub open spec fn spec_first_suitable_from(devices: Seq<PhysicalDeviceInfo>, i: int) -> Option<int>
    decreases devices.len() - i,
{
    if i < 0 || i >= devices.len() {
        None
    } else if spec_suitable(devices[i]) {
        Some(i)
    } else {
        spec_first_suitable_from(devices, i + 1)
    }
}

/// First suitable discrete GPU at or after `i`.
pub open spec fn spec_first_discrete_suitable_from(
    devices: Seq<PhysicalDeviceInfo>,
    i: int,
) -> Option<int>
    decreases devices.len() - i,
{
    if i < 0 || i >= devices.len() {
        None
    } else if devices[i].device_type == PhysicalDeviceType::DiscreteGpu && spec_suitable(
        devices[i],
    ) {
        Some(i)
    } else {
        spec_first_discrete_suitable_from(devices, i + 1)
    }
}

/// Why no device was picked: no queue-complete device, no queue-complete
/// device with the required extension, or no adequate device at all.
pub open spec fn spec_pick_error(devices: Seq<PhysicalDeviceInfo>) -> ConfigurationError {
    if devices.len() == 0 {
        ConfigurationError::NoSuitableAdapter
    } else if !(exists|i: int|
        0 <= i < devices.len() && spec_find_queue_family(
            #[trigger] devices[i].queue_families@,
        ).spec_complete()) {
        ConfigurationError::MissingQueueFamily
    } else if !(exists|i: int|
        0 <= i < devices.len() && spec_find_queue_family(
            #[trigger] devices[i].queue_families@,
        ).spec_complete() && spec_has_required_extensions(devices[i])) {
        ConfigurationError::MissingExtension
    } else {
        ConfigurationError::NoSuitableAdapter
    }
}

/// The device the engine runs on: the first suitable discrete GPU, else
/// the first suitable device of any kind; otherwise the startup error
/// naming what was missing.
pub open spec fn spec_pick_physical_device(devices: Seq<PhysicalDeviceInfo>) -> Result<
    int,
    ConfigurationError,
> {
    match spec_first_discrete_suitable_from(devices, 0) {
        Some(i) => Ok(i),
        None => match spec_first_suitable_from(devices, 0) {
            Some(i) => Ok(i),
            None => Err(spec_pick_error(devices)),
        },
    }
}

/// Pick the physical device the engine will run on.
pub fn pick_physical_device(devices: &Vec<PhysicalDeviceInfo>) -> (r: Result<
    usize,
    ConfigurationError,
>)
    requires
        forall|i: int|
            0 <= i < devices@.len() ==> (#[trigger] devices@[i]).queue_families@.len() <= u32::MAX,
    ensures
        r matches Ok(i) ==> spec_pick_physical_device(devices@) == Ok::<int, ConfigurationError>(
            i as int,
        ),
        r matches Err(e) ==> spec_pick_physical_device(devices@) == Err::<int, ConfigurationError>(
            e,
        ),
{
    let n = devices.len();
    if n == 0 {
        return Err(ConfigurationError::NoSuitableAdapter);
    }
    let mut first_suitable: Option<usize> = None;
    let mut first_discrete: Option<usize> = None;
    let mut any_complete = false;
    let mut any_complete_ext = false;
    let mut i: usize = 0;
    while i < n
        invariant
            n == devices@.len(),
            i <= n,
            forall|k: int|
                0 <= k < devices@.len() ==> (#[trigger] devices@[k]).queue_families@.len()
                    <= u32::MAX,
            match first_suitable {
                Some(k) => spec_first_suitable_from(devices@, 0) == Some(k as int),
                None => spec_first_suitable_from(devices@, 0) == spec_first_suitable_from(
                    devices@,
                    i as int,
                ),
            },
            match first_discrete {
                Some(k) => spec_first_discrete_suitable_from(devices@, 0) == Some(k as int),
                None => spec_first_discrete_suitable_from(devices@, 0)
                    == spec_first_discrete_suitable_from(devices@, i as int),
            },
            any_complete <==> (exists|j: int|
                0 <= j < i && spec_find_queue_family(
                    #[trigger] devices@[j].queue_families@,
                ).spec_complete()),
            any_complete_ext <==> (exists|j: int|
                0 <= j < i && spec_find_queue_family(
                    #[trigger] devices@[j].queue_families@,
                ).spec_complete() && spec_has_required_extensions(devices@[j])),
        decreases n - i,
    {
        let suitable = is_physical_device_suitable(&devices[i]);
        let complete = find_queue_family(&devices[i].queue_families).is_complete();
        let ext = check_device_extension_support(&devices[i].available_extensions);
        if complete {
            any_complete = true;
        }
        if complete && ext {
            any_complete_ext = true;
        }
        if suitable && first_suitable.is_none() {
            first_suitable = Some(i);
        }
        if suitable && matches!(devices[i].device_type, PhysicalDeviceType::DiscreteGpu)
            && first_discrete.is_none() {
            first_discrete = Some(i);
        }
        i = i + 1;
    }
    match first_discrete {
        Some(k) => Ok(k),
        None => match first_suitable {
            Some(k) => Ok(k),
            None => {
                if !any_complete {
                    Err(ConfigurationError::MissingQueueFamily)
                } else if !any_complete_ext {
                    Err(ConfigurationError::MissingExtension)
                } else {
                    Err(ConfigurationError::NoSuitableAdapter)
                }
            },
        },
    }
}

/// The first suitable device, when there is one, is suitable.
proof fn lemma_first_suitable_is_suitable(devices: Seq<PhysicalDeviceInfo>, lo: int, i: int)
    requires
        spec_first_suitable_from(devices, lo) == Some(i),
    ensures
        0 <= i < devices.len(),
        spec_suitable(devices[i]),
    decreases devices.len() - lo,
{
    if !(lo < 0 || lo >= devices.len()) && !spec_suitable(devices[lo]) {
        lemma_first_suitable_is_suitable(devices, lo + 1, i);
    }
}

/// The first suitable discrete device, when there is one, is suitable.
proof fn lemma_first_discrete_is_suitable(devices: Seq<PhysicalDeviceInfo>, lo: int, i: int)
    requires
        spec_first_discrete_suitable_from(devices, lo) == Some(i),
    ensures
        0 <= i < devices.len(),
        spec_suitable(devices[i]),
        devices[i].device_type == PhysicalDeviceType::DiscreteGpu,
    decreases devices.len() - lo,
{
    if !(lo < 0 || lo >= devices.len()) && !(devices[lo].device_type
        == PhysicalDeviceType::DiscreteGpu && spec_suitable(devices[lo])) {
        lemma_first_discrete_is_suitable(devices, lo + 1, i);
    }
}

/// Multisample counts a device can render with.
#[derive(Clone, Copy, PartialEq, Eq, Structural, Debug)]
pub enum SampleCount {
    Type1,
    Type2,
    Type4,
    Type8,
    Type16,
    Type32,
    Type64,
}

/// The highest sample count both the color and the depth framebuffer
/// support: the masks are compared numerically and the highest set bit of
/// the smaller mask wins.
pub open spec fn spec_max_sample_count(color_mask: u32, depth_mask: u32) -> SampleCount {
    let count = if color_mask < depth_mask {
        color_mask
    } else {
        depth_mask
    };
    if count & 0x40u32 != 0 {
        SampleCount::Type64
    } else if count & 0x20u32 != 0 {
        SampleCount::Type32
    } else if count & 0x10u32 != 0 {
        SampleCount::Type16
    } else if count & 0x8u32 != 0 {
        SampleCount::Type8
    } else if count & 0x4u32 != 0 {
        SampleCount::Type4
    } else if count & 0x2u32 != 0 {
        SampleCount::Type2
    } else {
        SampleCount::Type1
    }
}

/// Pick the highest multisample count supported for both color and depth
/// rendering.
pub fn get_max_sample_count(color_mask: u32, depth_mask: u32) -> (r: SampleCount)
    ensures
        r == spec_max_sample_count(color_mask, depth_mask),
{
    let count = if color_mask < depth_mask {
        color_mask
    } else {
        depth_mask
    };
    if count & 0x40u32 != 0 {
        SampleCount::Type64
    } else if count & 0x20u32 != 0 {
        SampleCount::Type32
    } else if count & 0x10u32 != 0 {
        SampleCount::Type16
    } else if count & 0x8u32 != 0 {
        SampleCount::Type8
    } else if count & 0x4u32 != 0 {
        SampleCount::Type4
    } else if count & 0x2u32 != 0 {
        SampleCount::Type2
    } else {
        SampleCount::Type1
    }
}

/// First memory type at or after `i` that the filter admits and whose
/// flags contain all required properties.
pub open spec fn spec_find_memory_type_from(
    type_filter: u32,
    required_properties: u32,
    flags: Seq<u32>,
    i: int,
) -> Option<int>
    decreases flags.len() - i,
{
    if i < 0 || i >= flags.len() {
        None
    } else if type_filter & (1u32 << i) != 0 && flags[i] & required_properties
        == required_properties {
        Some(i)
    } else {
        spec_find_memory_type_from(type_filter, required_properties, flags, i + 1)
    }
}

/// Find the first memory type admitted by `type_filter` whose property
/// flags contain all of `required_properties`.
pub fn find_memory_type(
    type_filter: u32,
    required_properties: u32,
    memory_type_flags: &Vec<u32>,
) -> (r: Option<u32>)
    requires
        memory_type_flags@.len() <= 32,
    ensures
        match r {
            Some(i) => spec_find_memory_type_from(
                type_filter,
                required_properties,
                memory_type_flags@,
                0,
            ) == Some(i as int),
            None => spec_find_memory_type_from(
                type_filter,
                required_properties,
                memory_type_flags@,
                0,
            ) is None,
        },
{
    let n = memory_type_flags.len();
    let mut i: usize = 0;
    while i < n
        invariant
            n == memory_type_flags@.len() <= 32,
            i <= n,
            spec_find_memory_type_from(type_filter, required_properties, memory_type_flags@, 0)
                == spec_find_memory_type_from(
                type_filter,
                required_properties,
                memory_type_flags@,
                i as int,
            ),
        decreases n - i,
    {
        if type_filter & (1u32 << (i as u32)) != 0 && memory_type_flags[i] & required_properties
            == required_properties {
            return Some(i as u32);
        }
        i = i + 1;
    }
    None
}

/// Memory property bit: the memory is local to the device.
pub const MEMORY_PROPERTY_DEVICE_LOCAL: u32 = 0x1;

/// Where a buffer's backing memory should live.
#[derive(Clone, Copy, PartialEq, Eq, Structural, Debug)]
pub enum MemoryLocation {
    /// Device-local memory, never mapped by the CPU.
    GpuOnly,
    /// Host-visible memory the CPU writes and the GPU reads.
    CpuToGpu,
}

/// A buffer that requires device-local memory lives on the GPU alone;
/// anything else is allocated host-visible for CPU writes.
pub open spec fn spec_memory_location(required_properties: u32) -> MemoryLocation {
    if required_properties & MEMORY_PROPERTY_DEVICE_LOCAL != 0 {
        MemoryLocation::GpuOnly
    } else {
        MemoryLocation::CpuToGpu
    }
}

/// Decide where a buffer's memory is allocated from its required
/// memory properties.
pub fn choose_memory_location(required_properties: u32) -> (r: MemoryLocation)
    ensures
        r == spec_memory_location(required_properties),
{
    if required_properties & MEMORY_PROPERTY_DEVICE_LOCAL != 0 {
        MemoryLocation::GpuOnly
    } else {
        MemoryLocation::CpuToGpu
    }
}

/// The logical execution context: the chosen physical device, its queue
/// family indices, and the capability data the rest of the engine reads.
#[derive(Clone, Debug)]
pub struct Device {
    pub physical_index: usize,
    pub queue_indices: QueueFamilyIndices,
    pub swapchain_support: SwapchainSupportDetail,
    pub color_sample_mask: u32,
    pub depth_sample_mask: u32,
    pub memory_type_flags: Vec<u32>,
}

impl Device {
    /// Create the execution context: pick a physical device, find its
    /// queue families, and record its capabilities.  Fails with the
    /// configuration error naming what was missing; a created device
    /// always has both queue families.
    pub fn new(devices: &Vec<PhysicalDeviceInfo>) -> (r: Result<Device, ConfigurationError>)
        requires
            forall|i: int|
                0 <= i < devices@.len() ==> (#[trigger] devices@[i]).queue_families@.len()
                    <= u32::MAX,
        ensures
            r matches Err(e) ==> spec_pick_physical_device(devices@) == Err::<
                int,
                ConfigurationError,
            >(e),
            r matches Ok(dev) ==> {
                &&& spec_pick_physical_device(devices@) == Ok::<int, ConfigurationError>(
                    dev.physical_index as int,
                )
                &&& dev.physical_index < devices@.len()
                &&& dev.queue_indices == spec_find_queue_family(
                    devices@[dev.physical_index as int].queue_families@,
                )
                &&& dev.queue_indices.spec_complete()
                &&& dev.swapchain_support.capabilities
                    == devices@[dev.physical_index as int].swapchain_support.capabilities
                &&& dev.swapchain_support.formats@
                    == devices@[dev.physical_index as int].swapchain_support.formats@
                &&& dev.swapchain_support.formats@.len() > 0
                &&& dev.swapchain_support.present_modes@
                    == devices@[dev.physical_index as int].swapchain_support.present_modes@
                &&& dev.color_sample_mask == devices@[dev.physical_index as int].color_sample_mask
                &&& dev.depth_sample_mask == devices@[dev.physical_index as int].depth_sample_mask
                &&& dev.memory_type_flags@
                    == devices@[dev.physical_index as int].memory_type_flags@
            },
    {
        let index = match pick_physical_device(devices) {
            Ok(i) => i,
            Err(e) => {
                return Err(e);
            },
        };
        proof {
            match spec_first_discrete_suitable_from(devices@, 0) {
                Some(k) => lemma_first_discrete_is_suitable(devices@, 0, k),
                None => {
                    match spec_first_suitable_from(devices@, 0) {
                        Some(k) => lemma_first_suitable_is_suitable(devices@, 0, k),
                        None => {},
                    }
                },
            }
        }
        let chosen = &devices[index];
        let queue_indices = find_queue_family(&chosen.queue_families);
        Ok(
            Device {
                physical_index: index,
                queue_indices,
                swapchain_support: SwapchainSupportDetail {
                    capabilities: chosen.swapchain_support.capabilities,
                    formats: copy_vec(&chosen.swapchain_support.formats),
                    present_modes: copy_vec(&chosen.swapchain_support.present_modes),
                },
                color_sample_mask: chosen.color_sample_mask,
                depth_sample_mask: chosen.depth_sample_mask,
                memory_type_flags: copy_vec(&chosen.memory_type_flags),
            },
        )
    }

    /// The surface support data recorded for the chosen device.
    pub fn get_swapchain_support(&self) -> (r: &SwapchainSupportDetail)
        ensures
            r == &self.swapchain_support,
    {
        &self.swapchain_support
    }

    pub fn get_queue_indices(&self) -> (r: QueueFamilyIndices)
        ensures
            r == self.queue_indices,
    {
        self.queue_indices
    }

    /// The property flags of the device's memory types, in memory-type
    /// order, as the memory-type search reads them.
    pub fn get_physical_device_mem_properties(&self) -> (r: &Vec<u32>)
        ensures
            r@ == self.memory_type_flags@,
    {
        &self.memory_type_flags
    }

    /// The highest multisample count this device renders with.
    pub fn get_max_sample_count(&self) -> (r: SampleCount)
        ensures
            r == spec_max_sample_count(self.color_sample_mask, self.depth_sample_mask),
    {
        get_max_sample_count(self.color_sample_mask, self.depth_sample_mask)
    }

    /// The queue families a logical device must be created with: the
    /// graphics family, and the present family when it differs.
    pub fn queue_families_to_create(&self) -> (r: Vec<u32>)
        requires
            self.queue_indices.spec_complete(),
        ensures
            self.queue_indices.graphics_family == Some(r@[0]),
            self.queue_indices.graphics_family == self.queue_indices.present_family ==> r@.len()
                == 1,
            self.queue_indices.graphics_family != self.queue_indices.present_family ==> (r@.len()
                == 2 && self.queue_indices.present_family == Some(r@[1])),
    {
        let g = match self.queue_indices.graphics_family {
            Some(g) => g,
            None => {
                proof {
                    assert(false);
                }
                0
            },
        };
        let p = match self.queue_indices.present_family {
            Some(p) => p,
            None => {
                proof {
                    assert(false);
                }
                0
            },
        };
        let mut r: Vec<u32> = Vec::new();
        r.push(g);
        if g != p {
            r.push(p);
        }
        r
    }
}

} // verus!
