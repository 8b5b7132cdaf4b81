use vstd::prelude::*;

use crate::error::SetupError;
use crate::queue_family::{
    find_queue_family_ids, graphics_at, graphics_before, present_before, presents_at,
    resolution_fails, QueueFamilyCaps, QueueFamilyIndices,
};
use crate::swapchain::SwapchainSupport;

verus! {

#[derive(Clone, Copy, Debug, PartialEq, Eq, Structural)]
pub enum PhysicalDeviceType {
    IntegratedGpu,
    DiscreteGpu,
    VirtualGpu,
    Cpu,
    Other,
}

/// What the runtime reports of one physical device for the target surface.
#[derive(Clone, Debug)]
pub struct PhysicalDeviceInfo {
    pub device_type: PhysicalDeviceType,
    /// Whether the device offers the swapchain extension.
    pub khr_swapchain: bool,
    /// The device's queue families in the order it reports them.
    pub queue_families: Vec<QueueFamilyCaps>,
    /// The swapchain support for the surface, or `None` where the runtime
    /// rejected that query.
    pub swapchain_support: Option<SwapchainSupport>,
}

impl PhysicalDeviceInfo {
    /// Every family id fits in a `u32`.
    pub open spec fn wf(self) -> bool {
        self.queue_families@.len() <= u32::MAX
    }
}

/// Some family supports graphics and some family supports presentation, so
/// that resolution comes out complete.
pub open spec fn families_complete(fams: Seq<QueueFamilyCaps>) -> bool {
    graphics_before(fams, fams.len() as int) && present_before(fams, fams.len() as int)
}

/// The verdict on a device: an error where a query fails, else whether it is
/// a discrete GPU with the swapchain extension, at least one surface format
/// and present mode, and a complete queue family resolution.
pub open spec fn suitability(d: PhysicalDeviceInfo) -> Result<bool, SetupError> {
    if resolution_fails(d.queue_families@) || d.swapchain_support.is_none() {
        Err(SetupError::UnsupportedSurface)
    } else {
        let s = d.swapchain_support.unwrap();
        Ok(
            d.device_type == PhysicalDeviceType::DiscreteGpu && d.khr_swapchain && s.formats@.len()
                > 0 && s.present_modes@.len() > 0 && families_complete(d.queue_families@),
        )
    }
}

pub open spec fn rejected_before(devs: Seq<PhysicalDeviceInfo>, k: int) -> bool {
    forall|j: int| 0 <= j < k ==> #[trigger] suitability(devs[j]) == Ok::<bool, SetupError>(false)
}

/// The outcome of selection: the first device whose verdict is not a
/// rejection decides, and where every device is rejected, no device is suitable.
pub open spec fn selects(devs: Seq<PhysicalDeviceInfo>, r: Result<usize, SetupError>) -> bool {
    match r {
        Ok(i) => i < devs.len() && rejected_before(devs, i as int) && suitability(devs[i as int])
            == Ok::<bool, SetupError>(true),
        Err(e) => (rejected_before(devs, devs.len() as int) && e == SetupError::NoSuitableDevice)
            || exists|k: int|
            0 <= k < devs.len() && rejected_before(devs, k) && #[trigger] suitability(devs[k])
                == Err::<bool, SetupError>(e),
    }
}

/// Resolves the device's queue families and decides whether the device is suitable.
pub fn is_device_suitable(device: &PhysicalDeviceInfo) -> (r: Result<bool, SetupError>)
    requires
        device.wf(),
    ensures
        r == suitability(*device),
{
    let ids = find_queue_family_ids(&device.queue_families);
    let ids = match ids {
        Ok(ids) => ids,
        Err(e) => return Err(e),
    };
    let support = match &device.swapchain_support {
        Some(s) => s,
        None => return Err(SetupError::UnsupportedSurface),
    };
    let swap_chain_supported = device.khr_swapchain && support.formats.len() > 0
        && support.present_modes.len() > 0;
    let discrete = match device.device_type {
        PhysicalDeviceType::DiscreteGpu => true,
        _ => false,
    };
    let complete = ids.is_complete();
    proof {
        let fams = device.queue_families@;
        if ids.graphics_family_id.is_some() {
            assert(graphics_at(fams, ids.graphics_family_id.unwrap() as int));
        }
        if ids.presentation_family_id.is_some() {
            assert(presents_at(fams, ids.presentation_family_id.unwrap() as int));
        }
        assert(complete == families_complete(fams));
    }
    Ok(discrete && swap_chain_supported && complete)
}

/// Picks the first device, in enumeration order, that passes the suitability check.
pub fn pick_physical_device(devices: &Vec<PhysicalDeviceInfo>) -> (r: Result<usize, SetupError>)
    requires
        forall|i: int| 0 <= i < devices@.len() ==> (#[trigger] devices@[i]).wf(),
    ensures
        selects(devices@, r),
{
    let mut i: usize = 0;
    while i < devices.len()
        invariant
            i <= devices@.len(),
            forall|k: int| 0 <= k < devices@.len() ==> (#[trigger] devices@[k]).wf(),
            rejected_before(devices@, i as int),
        decreases devices@.len() - i,
    {
        match is_device_suitable(&devices[i]) {
            Ok(true) => return Ok(i),
            Ok(false) => {},
            Err(e) => {
                assert(suitability(devices@[i as int]) == Err::<bool, SetupError>(e));
                return Err(e);
            },
        }
        i += 1;
    }
    Err(SetupError::NoSuitableDevice)
}

/// The queues to request for a logical device: one per distinct family,
/// and where in that list the graphics and presentation queues come from.
#[derive(Clone, Debug)]
pub struct DevicePlan {
    pub queue_family_ids: Vec<u32>,
    pub graphics_queue: usize,
    pub present_queue: usize,
}

/// The distinct families to request one queue from: the graphics family,
/// then the presentation family where it differs.
pub open spec fn unique_families(g: u32, p: u32) -> Seq<u32> {
    if g == p {
        seq![g]
    } else {
        seq![g, p]
    }
}

/// Plans the queues of a logical device from resolved queue families. The
/// presentation queue is the graphics queue where both families coincide.
pub fn plan_logical_device(indices: &QueueFamilyIndices) -> (r: Result<DevicePlan, SetupError>)
    ensures
        match r {
            Ok(plan) => indices.complete() && plan.queue_family_ids@ == unique_families(
                indices.graphics_family_id.unwrap(),
                indices.presentation_family_id.unwrap(),
            ) && plan.graphics_queue == 0 && plan.present_queue == (if indices.graphics_family_id
                == indices.presentation_family_id {
                0usize
            } else {
                1usize
            }),
            Err(e) => !indices.complete() && e == SetupError::IncompleteQueueResolution,
        },
{
    let (g, p) = match (indices.graphics_family_id, indices.presentation_family_id) {
        (Some(g), Some(p)) => (g, p),
        _ => return Err(SetupError::IncompleteQueueResolution),
    };
    let mut queue_family_ids: Vec<u32> = Vec::new();
    queue_family_ids.push(g);
    let mut present_queue: usize = 0;
    if p != g {
        queue_family_ids.push(p);
        present_queue = 1;
    }
    Ok(DevicePlan { queue_family_ids, graphics_queue: 0, present_queue })
}

} // verus!
