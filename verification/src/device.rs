//! Selecting a physical device and resolving its queue families.

use vstd::prelude::*;
use crate::flags::{flags_intersect, queue_flags_intersect, QUEUE_GRAPHICS_BIT};
use crate::result::{error, Error};
use crate::surface::SwapChainSupportDetails;

verus! {

/// One queue family of a device: its capability flags and whether it can
/// present to the surface in question.
#[derive(Clone, Copy, Debug, PartialEq, Eq, Structural)]
pub struct QueueFamily {
    pub queue_flags: u32,
    pub present_support: bool,
}

impl QueueFamily {
    /// The family accepts graphics work.
    pub open spec fn supports_graphics(self) -> bool {
        flags_intersect(self.queue_flags, QUEUE_GRAPHICS_BIT)
    }
}

/// The queue families picked for graphics work and for presentation.
#[derive(Clone, Copy, Debug, PartialEq, Eq, Structural)]
pub struct QueueFamilyIndices {
    pub graphics_family: Option<u32>,
    pub present_family: Option<u32>,
}

impl QueueFamilyIndices {
    /// Both roles have a family.
    pub open spec fn complete(self) -> bool {
        self.graphics_family is Some && self.present_family is Some
    }

    /// Whether both roles have a family.
    pub fn is_complete(&self) -> (done: bool)
        ensures
            done == self.complete(),
    {
        self.graphics_family.is_some() && self.present_family.is_some()
    }
}

/// The indices held after looking at the first `n` families in order, where
/// each family overwrites the roles it can fill and the search stops as soon
/// as both roles are filled.
pub open spec fn queue_families_after(families: Seq<QueueFamily>, n: int) -> QueueFamilyIndices
    decreases n,
{
    if n <= 0 {
        QueueFamilyIndices { graphics_family: None, present_family: None }
    } else {
        let before = queue_families_after(families, n - 1);
        if before.complete() {
            before
        } else {
            QueueFamilyIndices {
                graphics_family: if families[n - 1].supports_graphics() {
                    Some((n - 1) as u32)
                } else {
                    before.graphics_family
                },
                present_family: if families[n - 1].present_support {
                    Some((n - 1) as u32)
                } else {
                    before.present_family
                },
            }
        }
    }
}

/// The indices found for a whole table of queue families.
pub open spec fn found_queue_families(families: Seq<QueueFamily>) -> QueueFamilyIndices {
    queue_families_after(families, families.len() as int)
}

/// What the search guarantees about the indices it holds after `n` families:
/// each index names a family seen so far that can fill its role, and a role
/// is empty only if no family seen so far can fill it.
pub proof fn lemma_queue_families_after(families: Seq<QueueFamily>, n: int)
    requires
        0 <= n <= families.len() <= 0x1_0000_0000,
    ensures
        ({
            let found = queue_families_after(families, n);
            &&& found.graphics_family matches Some(g) ==> g < n && families[g as int].supports_graphics()
            &&& found.present_family matches Some(p) ==> p < n && families[p as int].present_support
            &&& found.graphics_family is None <==> forall|i: int|
                0 <= i < n ==> !(#[trigger] families[i]).supports_graphics()
            &&& found.present_family is None <==> forall|i: int|
                0 <= i < n ==> !(#[trigger] families[i]).present_support
        }),
    decreases n,
{
    if n > 0 {
        lemma_queue_families_after(families, n - 1);
    }
}

/// The number of families the search has looked at after `n` were on offer:
/// all of them, unless both roles were filled earlier.
pub open spec fn families_searched(families: Seq<QueueFamily>, n: int) -> int {
    let found = queue_families_after(families, n);
    if found.complete() {
        if found.graphics_family->0 >= found.present_family->0 {
            found.graphics_family->0 + 1
        } else {
            found.present_family->0 + 1
        }
    } else {
        n
    }
}

/// Which families the search settles on: for each role the last family that
/// can fill it among those looked at, where the search looks no further than
/// the first family that leaves both roles filled.
pub proof fn lemma_search_takes_the_latest(families: Seq<QueueFamily>, n: int)
    requires
        0 <= n <= families.len() <= 0x1_0000_0000,
    ensures
        ({
            let found = queue_families_after(families, n);
            let end = families_searched(families, n);
            &&& 0 <= end <= n
            &&& found.graphics_family matches Some(g) ==> forall|i: int|
                g < i < end ==> !(#[trigger] families[i]).supports_graphics()
            &&& found.present_family matches Some(p) ==> forall|i: int|
                p < i < end ==> !(#[trigger] families[i]).present_support
            &&& found.complete() ==> !queue_families_after(families, end - 1).complete()
        }),
    decreases n,
{
    if n > 0 {
        lemma_search_takes_the_latest(families, n - 1);
        lemma_queue_families_after(families, n - 1);
    }
}

/// Some family of the table accepts graphics work.
pub open spec fn has_graphics_family(families: Seq<QueueFamily>) -> bool {
    exists|i: int| 0 <= i < families.len() && (#[trigger] families[i]).supports_graphics()
}

/// Some family of the table can present to the surface.
pub open spec fn has_present_family(families: Seq<QueueFamily>) -> bool {
    exists|i: int| 0 <= i < families.len() && (#[trigger] families[i]).present_support
}

/// The search fills both roles exactly when the table has a family for
/// each, be it one family for both.
pub proof fn lemma_complete_iff_both_roles_exist(families: Seq<QueueFamily>)
    requires
        families.len() <= 0x1_0000_0000,
    ensures
        found_queue_families(families).complete() <==> has_graphics_family(families)
            && has_present_family(families),
{
    lemma_queue_families_after(families, families.len() as int);
}

/// Resolves the graphics and present queue families of a device from its
/// table of queue families.
pub fn find_queue_families(families: &[QueueFamily]) -> (indices: QueueFamilyIndices)
    requires
        families@.len() <= 0x1_0000_0000,
    ensures
        indices == found_queue_families(families@),
        indices.graphics_family matches Some(g) ==> g < families@.len()
            && families@[g as int].supports_graphics(),
        indices.present_family matches Some(p) ==> p < families@.len()
            && families@[p as int].present_support,
        indices.graphics_family is None <==> forall|i: int|
            0 <= i < families@.len() ==> !(#[trigger] families@[i]).supports_graphics(),
        indices.present_family is None <==> forall|i: int|
            0 <= i < families@.len() ==> !(#[trigger] families@[i]).present_support,
{
    let mut indices = QueueFamilyIndices { graphics_family: None, present_family: None };
    let mut i: usize = 0;
    while i < families.len()
        invariant_except_break
            indices == queue_families_after(families@, i as int),
            !indices.complete(),
        invariant
            i <= families@.len() <= 0x1_0000_0000,
        ensures
            indices == found_queue_families(families@),
        decreases families@.len() - i,
    {
        let family = families[i];
        let index: u32 = i as u32;
        if queue_flags_intersect(family.queue_flags, QUEUE_GRAPHICS_BIT) {
            indices.graphics_family = Some(index);
        }
        if family.present_support {
            indices.present_family = Some(index);
        }
        i += 1;
        if indices.is_complete() {
            proof {
                lemma_search_stays_complete(families@, i as int, families@.len() as int);
            }
            break;
        }
    }
    proof {
        lemma_queue_families_after(families@, families@.len() as int);
    }
    indices
}

/// Once both roles are filled, looking at further families changes nothing.
proof fn lemma_search_stays_complete(families: Seq<QueueFamily>, n: int, m: int)
    requires
        0 <= n <= m,
        queue_families_after(families, n).complete(),
    ensures
        queue_families_after(families, m) == queue_families_after(families, n),
    decreases m - n,
{
    if n < m {
        lemma_search_stays_complete(families, n, m - 1);
    }
}

/// Name of the device extension that provides swapchains.
pub const SWAPCHAIN_EXTENSION_NAME: &'static str = "VK_KHR_swapchain";

/// Message of the error for a machine without a usable device.
pub const NO_SUITABLE_DEVICE: &'static str = "No suitable device found";

/// `name` is the name of one of `available`.
pub open spec fn name_listed(name: Seq<char>, available: Seq<String>) -> bool {
    exists|j: int| 0 <= j < available.len() && (#[trigger] available[j])@ == name
}

/// Every name of `required` is the name of one of `available`.
pub open spec fn names_listed(required: Seq<String>, available: Seq<String>) -> bool {
    forall|i: int| 0 <= i < required.len() ==> name_listed((#[trigger] required[i])@, available)
}

/// Whether `name` is among `available`.
pub fn is_name_listed(name: &String, available: &[String]) -> (listed: bool)
    ensures
        listed == name_listed(name@, available@),
{
    let mut j: usize = 0;
    while j < available.len()
        invariant
            j <= available@.len(),
            forall|k: int| 0 <= k < j ==> (#[trigger] available@[k])@ != name@,
        decreases available@.len() - j,
    {
        if available[j] == *name {
            return true;
        }
        j += 1;
    }
    false
}

/// Whether every name of `required` is among `available`. Used for device
/// extensions and for instance layers alike.
pub fn are_names_listed(required: &[String], available: &[String]) -> (listed: bool)
    ensures
        listed == names_listed(required@, available@),
{
    let mut i: usize = 0;
    while i < required.len()
        invariant
            i <= required@.len(),
            forall|k: int| 0 <= k < i ==> name_listed((#[trigger] required@[k])@, available@),
        decreases required@.len() - i,
    {
        if !is_name_listed(&required[i], available) {
            return false;
        }
        i += 1;
    }
    true
}

/// The device extensions the renderer cannot do without.
pub fn required_device_extensions() -> (names: Vec<String>)
    ensures
        names@.len() == 1,
        names@[0]@ == SWAPCHAIN_EXTENSION_NAME@,
{
    let mut names: Vec<String> = Vec::new();
    names.push(SWAPCHAIN_EXTENSION_NAME.to_owned());
    names
}

/// A physical device as the selection sees it: its handle and the properties
/// and features it was asked for, cached.
#[derive(Debug)]
pub struct PhysicalDeviceCandidate {
    /// The driver's handle for the device, carried through untouched.
    pub handle: u64,
    /// The device's table of queue families, in the driver's order.
    pub queue_families: Vec<QueueFamily>,
    /// Names of the device extensions on offer.
    pub extensions: Vec<String>,
    /// What the device reports about the surface, or nothing if it could not
    /// be asked.
    pub swap_chain_support: Option<SwapChainSupportDetails>,
    /// The device can filter textures anisotropically.
    pub sampler_anisotropy: bool,
    /// The device supports the Vulkan memory model.
    pub vulkan_memory_model: bool,
}

impl PhysicalDeviceCandidate {
    /// The device can be used: it has a queue family for graphics and one for
    /// presenting to the surface, it offers swapchains, it reports at least
    /// one surface format and one present mode, and it has the two features
    /// the renderer relies on.
    pub open spec fn suitable(&self) -> bool {
        &&& has_graphics_family(self.queue_families@)
        &&& has_present_family(self.queue_families@)
        &&& name_listed(SWAPCHAIN_EXTENSION_NAME@, self.extensions@)
        &&& self.swap_chain_support matches Some(support) && support.adequate()
        &&& self.vulkan_memory_model
        &&& self.sampler_anisotropy
    }

    /// The queue family table is no longer than a 32-bit index can address.
    pub open spec fn addressable(&self) -> bool {
        self.queue_families@.len() <= 0x1_0000_0000
    }
}

/// Whether a device can be used by the renderer.
pub fn is_device_suitable(device: &PhysicalDeviceCandidate) -> (ok: bool)
    requires
        device.addressable(),
    ensures
        ok == device.suitable(),
{
    let indices = find_queue_families(device.queue_families.as_slice());
    let required = required_device_extensions();
    let extensions_supported = are_names_listed(
        required.as_slice(),
        device.extensions.as_slice(),
    );
    proof {
        if name_listed(SWAPCHAIN_EXTENSION_NAME@, device.extensions@) {
            assert forall|i: int| 0 <= i < required@.len() implies name_listed(
                (#[trigger] required@[i])@,
                device.extensions@,
            ) by {}
        } else {
        }
    }
    let swap_chain_adequate = extensions_supported && match &device.swap_chain_support {
        Some(support) => support.is_adequate(),
        None => false,
    };
    indices.is_complete() && extensions_supported && swap_chain_adequate
        && device.vulkan_memory_model && device.sampler_anisotropy
}

/// `i` is the first suitable device of `devices`.
pub open spec fn is_first_suitable(devices: Seq<PhysicalDeviceCandidate>, i: int) -> bool {
    &&& 0 <= i < devices.len()
    &&& devices[i].suitable()
    &&& forall|j: int| 0 <= j < i ==> !(#[trigger] devices[j]).suitable()
}

/// Picks the device to render with: the first suitable one, in the order
/// given. Fails if there is none.
pub fn pick_physical_device(devices: &[PhysicalDeviceCandidate]) -> (picked: Result<usize, Error>)
    requires
        forall|i: int| 0 <= i < devices@.len() ==> (#[trigger] devices@[i]).addressable(),
    ensures
        match picked {
            Ok(i) => is_first_suitable(devices@, i as int),
            Err(e) => e@ == NO_SUITABLE_DEVICE@ && forall|j: int|
                0 <= j < devices@.len() ==> !(#[trigger] devices@[j]).suitable(),
        },
{
    let mut i: usize = 0;
    while i < devices.len()
        invariant
            i <= devices@.len(),
            forall|k: int| 0 <= k < devices@.len() ==> (#[trigger] devices@[k]).addressable(),
            forall|j: int| 0 <= j < i ==> !(#[trigger] devices@[j]).suitable(),
        decreases devices@.len() - i,
    {
        if is_device_suitable(&devices[i]) {
            return Ok(i);
        }
        i += 1;
    }
    error(NO_SUITABLE_DEVICE)
}

/// The queue families to create queues from, each once and in ascending
/// order.
pub open spec fn distinct_queue_families(graphics: u32, present: u32) -> Seq<u32> {
    if graphics == present {
        seq![graphics]
    } else if graphics < present {
        seq![graphics, present]
    } else {
        seq![present, graphics]
    }
}

/// Lists the queue families that a logical device needs queues from, without
/// repeating a family that fills both roles.
pub fn unique_queue_families(indices: &QueueFamilyIndices) -> (families: Vec<u32>)
    requires
        indices.complete(),
    ensures
        families@ == distinct_queue_families(
            indices.graphics_family->0,
            indices.present_family->0,
        ),
        forall|i: int, j: int| 0 <= i < j < families@.len() ==> families@[i] < families@[j],
        families@.contains(indices.graphics_family->0),
        families@.contains(indices.present_family->0),
{
    let graphics = indices.graphics_family.unwrap();
    let present = indices.present_family.unwrap();
    let mut families: Vec<u32> = Vec::new();
    if graphics == present {
        families.push(graphics);
    } else if graphics < present {
        families.push(graphics);
        families.push(present);
    } else {
        families.push(present);
        families.push(graphics);
    }
    assert(families@[0] == graphics || families@[families@.len() - 1] == graphics);
    assert(families@[0] == present || families@[families@.len() - 1] == present);
    families
}

/// What a logical device is created with.
#[derive(Debug)]
pub struct LogicalDevicePlan {
    /// One queue is created from each of these families.
    pub queue_families: Vec<u32>,
    /// Names of the device extensions to enable.
    pub extensions: Vec<String>,
    /// Enable anisotropic filtering.
    pub sampler_anisotropy: bool,
    /// Enable the Vulkan memory model.
    pub vulkan_memory_model: bool,
    /// Family to take the graphics queue from.
    pub graphics_family: u32,
    /// Family to take the present queue from.
    pub present_family: u32,
}

/// Plans the logical device for a device whose queue families are resolved.
pub fn plan_logical_device(indices: &QueueFamilyIndices) -> (plan: LogicalDevicePlan)
    requires
        indices.complete(),
    ensures
        plan.queue_families@ == distinct_queue_families(
            indices.graphics_family->0,
            indices.present_family->0,
        ),
        plan.extensions@.len() == 1,
        plan.extensions@[0]@ == SWAPCHAIN_EXTENSION_NAME@,
        plan.sampler_anisotropy,
        plan.vulkan_memory_model,
        plan.graphics_family == indices.graphics_family->0,
        plan.present_family == indices.present_family->0,
{
    LogicalDevicePlan {
        queue_families: unique_queue_families(indices),
        extensions: required_device_extensions(),
        sampler_anisotropy: true,
        vulkan_memory_model: true,
        graphics_family: indices.graphics_family.unwrap(),
        present_family: indices.present_family.unwrap(),
    }
}

} // verus!
