//! Physical device description and suitability rating.
//!
//! The embedding application enumerates the physical devices and their
//! queue families, and reduces each device to the plain values rated
//! here: its kind, its queue families, per-family surface support, and
//! whether it offers the features and extensions the engine needs.

use vstd::prelude::*;

verus! {

/// Queue flag bit for graphics-capable queues.
pub const QUEUE_GRAPHICS_BIT: u32 = 1;

/// Device type number reported for devices of no listed kind.
pub const PHYSICAL_DEVICE_TYPE_OTHER: u32 = 0;

/// Device type number reported for integrated GPUs.
pub const PHYSICAL_DEVICE_TYPE_INTEGRATED_GPU: u32 = 1;

/// Device type number reported for discrete GPUs.
pub const PHYSICAL_DEVICE_TYPE_DISCRETE_GPU: u32 = 2;

/// Device type number reported for virtual GPUs.
pub const PHYSICAL_DEVICE_TYPE_VIRTUAL_GPU: u32 = 3;

/// Device type number reported for CPU (software) devices.
pub const PHYSICAL_DEVICE_TYPE_CPU: u32 = 4;

/// The kind of a physical device.
#[derive(Clone, Copy, PartialEq, Eq, Structural, Debug)]
pub enum DeviceType {
    Cpu,
    IntegratedGpu,
    DiscreteGpu,
    VirtualGpu,
    Other,
}

/// A queue family of a physical device.
#[derive(Clone, Copy, PartialEq, Eq, Structural, Debug)]
pub struct VkQueueFamily {
    pub index: u32,
    pub queue_count: u32,
    pub flags: u32,
}

impl VkQueueFamily {
    pub fn new(index: u32, queue_count: u32, flags: u32) -> (family: VkQueueFamily)
        ensures
            family.index == index,
            family.queue_count == queue_count,
            family.flags == flags,
    {
        VkQueueFamily { index, queue_count, flags }
    }
}

/// The device kind that a reported device type number stands for.
pub open spec fn spec_device_type(device_type: u32) -> DeviceType {
    if device_type == PHYSICAL_DEVICE_TYPE_CPU {
        DeviceType::Cpu
    } else if device_type == PHYSICAL_DEVICE_TYPE_INTEGRATED_GPU {
        DeviceType::IntegratedGpu
    } else if device_type == PHYSICAL_DEVICE_TYPE_DISCRETE_GPU {
        DeviceType::DiscreteGpu
    } else if device_type == PHYSICAL_DEVICE_TYPE_VIRTUAL_GPU {
        DeviceType::VirtualGpu
    } else {
        DeviceType::Other
    }
}

/// Translate a reported device type number into a device kind.
pub fn get_device_type(device_type: u32) -> (kind: DeviceType)
    ensures
        kind == spec_device_type(device_type),
{
    if device_type == PHYSICAL_DEVICE_TYPE_CPU {
        DeviceType::Cpu
    } else if device_type == PHYSICAL_DEVICE_TYPE_INTEGRATED_GPU {
        DeviceType::IntegratedGpu
    } else if device_type == PHYSICAL_DEVICE_TYPE_DISCRETE_GPU {
        DeviceType::DiscreteGpu
    } else if device_type == PHYSICAL_DEVICE_TYPE_VIRTUAL_GPU {
        DeviceType::VirtualGpu
    } else {
        DeviceType::Other
    }
}

/// Whether a usable queue family with the graphics flag exists.
pub open spec fn spec_has_graphics_family(families: Seq<VkQueueFamily>) -> bool {
    exists|i: int|
        0 <= i < families.len() && families[i].queue_count > 0
            && families[i].flags & QUEUE_GRAPHICS_BIT != 0
}

/// Whether a usable queue family with presentation support exists.
/// `surface_support[i]` reports the surface's answer for family `i`.
pub open spec fn spec_has_present_family(families: Seq<VkQueueFamily>, surface_support: Seq<bool>) -> bool {
    exists|i: int| 0 <= i < families.len() && families[i].queue_count > 0 && surface_support[i]
}

/// Report whether some usable queue family carries the graphics flag.
pub fn has_graphics_queue_family(families: &Vec<VkQueueFamily>) -> (found: bool)
    ensures
        found == spec_has_graphics_family(families@),
{
    let mut k: usize = 0;
    while k < families.len()
        invariant
            k <= families@.len(),
            forall|j: int|
                0 <= j < k ==> !(families@[j].queue_count > 0 && families@[j].flags
                    & QUEUE_GRAPHICS_BIT != 0),
        decreases families@.len() - k,
    {
        if families[k].queue_count > 0 && families[k].flags & QUEUE_GRAPHICS_BIT != 0 {
            return true;
        }
        k = k + 1;
    }
    false
}

/// Report whether some usable queue family supports presentation.
pub fn has_present_queue_family(families: &Vec<VkQueueFamily>, surface_support: &Vec<bool>) -> (found: bool)
    requires
        surface_support@.len() == families@.len(),
    ensures
        found == spec_has_present_family(families@, surface_support@),
{
    let mut k: usize = 0;
    while k < families.len()
        invariant
            k <= families@.len(),
            surface_support@.len() == families@.len(),
            forall|j: int| 0 <= j < k ==> !(families@[j].queue_count > 0 && surface_support@[j]),
        decreases families@.len() - k,
    {
        if families[k].queue_count > 0 && surface_support[k] {
            return true;
        }
        k = k + 1;
    }
    false
}

/// The lowest index of a usable graphics-capable queue family.
pub fn find_graphics_queue_family(families: &Vec<VkQueueFamily>) -> (found: Option<usize>)
    ensures
        match found {
            Some(i) => {
                &&& i < families@.len()
                &&& families@[i as int].queue_count > 0
                &&& families@[i as int].flags & QUEUE_GRAPHICS_BIT != 0
                &&& forall|j: int|
                    0 <= j < i ==> !(families@[j].queue_count > 0 && families@[j].flags
                        & QUEUE_GRAPHICS_BIT != 0)
            },
            None => !spec_has_graphics_family(families@),
        },
{
    let mut k: usize = 0;
    while k < families.len()
        invariant
            k <= families@.len(),
            forall|j: int|
                0 <= j < k ==> !(families@[j].queue_count > 0 && families@[j].flags
                    & QUEUE_GRAPHICS_BIT != 0),
        decreases families@.len() - k,
    {
        if families[k].queue_count > 0 && families[k].flags & QUEUE_GRAPHICS_BIT != 0 {
            return Some(k);
        }
        k = k + 1;
    }
    None
}

/// The lowest index of a usable queue family with presentation support.
pub fn find_presentation_queue_family(families: &Vec<VkQueueFamily>, surface_support: &Vec<bool>) -> (found: Option<usize>)
    requires
        surface_support@.len() == families@.len(),
    ensures
        match found {
            Some(i) => {
                &&& i < families@.len()
                &&& families@[i as int].queue_count > 0
                &&& surface_support@[i as int]
                &&& forall|j: int| 0 <= j < i ==> !(families@[j].queue_count > 0 && surface_support@[j])
            },
            None => !spec_has_present_family(families@, surface_support@),
        },
{
    let mut k: usize = 0;
    while k < families.len()
        invariant
            k <= families@.len(),
            surface_support@.len() == families@.len(),
            forall|j: int| 0 <= j < k ==> !(families@[j].queue_count > 0 && surface_support@[j]),
        decreases families@.len() - k,
    {
        if families[k].queue_count > 0 && surface_support[k] {
            return Some(k);
        }
        k = k + 1;
    }
    None
}

/// Report whether every required extension id is among the available
/// ones. Names are compared as the plain ids the application assigns.
pub fn check_device_extension_support(available: &Vec<u64>, required: &Vec<u64>) -> (supported: bool)
    ensures
        supported == forall|i: int| 0 <= i < required@.len() ==> available@.contains(required@[i]),
{
    let mut k: usize = 0;
    while k < required.len()
        invariant
            k <= required@.len(),
            forall|i: int| 0 <= i < k ==> available@.contains(required@[i]),
        decreases required@.len() - k,
    {
        if !contains_id(available, required[k]) {
            return false;
        }
        k = k + 1;
    }
    true
}

/// Report whether the slice of ids holds the given one.
fn contains_id(ids: &Vec<u64>, id: u64) -> (present: bool)
    ensures
        present == ids@.contains(id),
{
    let mut k: usize = 0;
    while k < ids.len()
        invariant
            k <= ids@.len(),
            forall|j: int| 0 <= j < k ==> ids@[j] != id,
        decreases ids@.len() - k,
    {
        if ids[k] == id {
            assert(ids@.contains(id));
            return true;
        }
        k = k + 1;
    }
    false
}

/// The suitability score of a device: `-1` when it cannot run the
/// engine at all, otherwise a preference score by device kind.
pub open spec fn spec_suitability_score(
    kind: DeviceType,
    families: Seq<VkQueueFamily>,
    surface_support: Seq<bool>,
    format_count: int,
    present_mode_count: int,
    supports_sampler_anisotropy: bool,
    supports_required_extensions: bool,
) -> int {
    if !spec_has_graphics_family(families) {
        -1
    } else if !spec_has_present_family(families, surface_support) {
        -1
    } else if format_count == 0 || present_mode_count == 0 {
        -1
    } else if !supports_sampler_anisotropy {
        -1
    } else if !supports_required_extensions {
        -1
    } else if kind is DiscreteGpu {
        100
    } else if kind is IntegratedGpu {
        50
    } else {
        0
    }
}

/// Rate how suitable a physical device is for the engine.
pub fn rate_device_suitability(
    kind: DeviceType,
    families: &Vec<VkQueueFamily>,
    surface_support: &Vec<bool>,
    format_count: usize,
    present_mode_count: usize,
    supports_sampler_anisotropy: bool,
    supports_required_extensions: bool,
) -> (score: i32)
    requires
        surface_support@.len() == families@.len(),
    ensures
        score == spec_suitability_score(
            kind,
            families@,
            surface_support@,
            format_count as int,
            present_mode_count as int,
            supports_sampler_anisotropy,
            supports_required_extensions,
        ),
{
    if !has_graphics_queue_family(families) {
        return -1;
    }
    if !has_present_queue_family(families, surface_support) {
        return -1;
    }
    if format_count == 0 || present_mode_count == 0 {
        return -1;
    }
    if !supports_sampler_anisotropy {
        return -1;
    }
    if !supports_required_extensions {
        return -1;
    }
    match kind {
        DeviceType::DiscreteGpu => 100,
        DeviceType::IntegratedGpu => 50,
        _ => 0,
    }
}

/// Pick the device the engine uses: the first device whose score is a
/// strict maximum among non-negative scores; `None` when every device
/// scores below zero.
pub fn select_best_device(scores: &Vec<i32>) -> (best: Option<usize>)
    ensures
        match best {
            Some(i) => {
                &&& i < scores@.len()
                &&& scores@[i as int] >= 0
                &&& forall|j: int| 0 <= j < scores@.len() ==> scores@[j] <= scores@[i as int]
                &&& forall|j: int| 0 <= j < i ==> scores@[j] < scores@[i as int]
            },
            None => forall|j: int| 0 <= j < scores@.len() ==> scores@[j] < 0,
        },
{
    let mut best: Option<usize> = None;
    let mut best_score: i32 = -1;
    let mut k: usize = 0;
    while k < scores.len()
        invariant
            k <= scores@.len(),
            match best {
                Some(i) => {
                    &&& i < k
                    &&& best_score == scores@[i as int]
                    &&& best_score >= 0
                    &&& forall|j: int| 0 <= j < k ==> scores@[j] <= best_score
                    &&& forall|j: int| 0 <= j < i ==> scores@[j] < best_score
                },
                None => {
                    &&& best_score == -1
                    &&& forall|j: int| 0 <= j < k ==> scores@[j] < 0
                },
            },
        decreases scores@.len() - k,
    {
        if scores[k] > best_score {
            best = Some(k);
            best_score = scores[k];
        }
        k = k + 1;
    }
    best
}

} // verus!
