use vstd::prelude::*;

use crate::queue_families::find_queue_families;
use crate::queue_families::has_graphics_family;
use crate::queue_families::is_device_suitable;
use crate::queue_families::supports_graphics;

verus! {

/// Pick the first device whose queue families include a graphics-capable
/// one. Each entry of `devices` holds the queue family flag words of one
/// device; the result is the index of the chosen device, or `None` when no
/// device is suitable.
pub fn pick_physical_device(devices: &Vec<Vec<u32>>) -> (r: Option<usize>)
    requires
        forall|d: int| 0 <= d < devices@.len() ==> devices@[d]@.len() <= u32::MAX,
    ensures
        r is Some <==> exists|d: int| 0 <= d < devices@.len() && has_graphics_family(devices@[d]@),
        r matches Some(d) ==> {
            &&& 0 <= d < devices@.len()
            &&& has_graphics_family(devices@[d as int]@)
            &&& forall|e: int| 0 <= e < d ==> !has_graphics_family(devices@[e]@)
        },
{
    let mut d: usize = 0;
    while d < devices.len()
        invariant
            d <= devices@.len(),
            forall|d0: int| 0 <= d0 < devices@.len() ==> devices@[d0]@.len() <= u32::MAX,
            forall|e: int| 0 <= e < d ==> !has_graphics_family(devices@[e]@),
        decreases devices@.len() - d,
    {
        if is_device_suitable(&devices[d]) {
            return Some(d);
        }
        d += 1;
    }
    None
}

/// The queue setup a logical device is created with: the chosen queue family
/// and how many queues to create in it.
pub struct DeviceQueuePlan {
    pub queue_family_index: u32,
    pub queue_count: u32,
}

/// Decide the logical device's queue parameters from one device's queue
/// family flag words: a single queue in the first graphics-capable family.
/// Fails exactly when the device has no graphics-capable family.
pub fn plan_logical_device(family_flags: &Vec<u32>) -> (r: Option<DeviceQueuePlan>)
    requires
        family_flags@.len() <= u32::MAX,
    ensures
        r is Some <==> has_graphics_family(family_flags@),
        r matches Some(p) ==> {
            &&& p.queue_count == 1
            &&& 0 <= p.queue_family_index < family_flags@.len()
            &&& supports_graphics(family_flags@[p.queue_family_index as int])
            &&& forall|j: int| 0 <= j < p.queue_family_index ==> !supports_graphics(family_flags@[j])
        },
{
    let indices = find_queue_families(family_flags);
    match indices.graphics_family {
        Some(g) => Some(DeviceQueuePlan { queue_family_index: g, queue_count: 1 }),
        None => None,
    }
}

} // verus!
