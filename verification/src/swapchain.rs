//! Choosing the parameters of a swapchain from what the surface reports.

use vstd::prelude::*;
use crate::device::QueueFamilyIndices;
use crate::surface::{
    Extent2D, SurfaceCapabilities, SurfaceFormat, SwapChainSupportDetails,
    COLOR_SPACE_SRGB_NONLINEAR, FORMAT_B8G8R8A8_SRGB, PRESENT_MODE_FIFO, PRESENT_MODE_MAILBOX,
};

verus! {

/// The one format and colour space that is taken whenever it is on offer.
pub open spec fn is_preferred_format(f: SurfaceFormat) -> bool {
    f.format == FORMAT_B8G8R8A8_SRGB && f.color_space == COLOR_SPACE_SRGB_NONLINEAR
}

/// The format chosen from `formats`: the preferred one if any entry is it,
/// otherwise the first entry.
pub open spec fn chosen_surface_format(formats: Seq<SurfaceFormat>) -> SurfaceFormat {
    if exists|i: int| 0 <= i < formats.len() && is_preferred_format(#[trigger] formats[i]) {
        SurfaceFormat { format: FORMAT_B8G8R8A8_SRGB, color_space: COLOR_SPACE_SRGB_NONLINEAR }
    } else {
        formats[0]
    }
}

/// Picks the surface format for a swapchain.
pub fn choose_swap_surface_format(available_formats: &[SurfaceFormat]) -> (chosen: SurfaceFormat)
    requires
        available_formats@.len() > 0,
    ensures
        chosen == chosen_surface_format(available_formats@),
        available_formats@.contains(chosen),
{
    let mut i: usize = 0;
    while i < available_formats.len()
        invariant
            i <= available_formats@.len(),
            forall|j: int| 0 <= j < i ==> !is_preferred_format(#[trigger] available_formats@[j]),
        decreases available_formats@.len() - i,
    {
        let candidate = available_formats[i];
        if candidate.format == FORMAT_B8G8R8A8_SRGB
            && candidate.color_space == COLOR_SPACE_SRGB_NONLINEAR {
            return candidate;
        }
        i += 1;
    }
    available_formats[0]
}

/// The present mode chosen from `modes`: mailbox if it is on offer, otherwise
/// first-in-first-out, which every surface supports.
pub open spec fn chosen_present_mode(modes: Seq<i32>) -> i32 {
    if modes.contains(PRESENT_MODE_MAILBOX) {
        PRESENT_MODE_MAILBOX
    } else {
        PRESENT_MODE_FIFO
    }
}

/// Picks the present mode for a swapchain.
pub fn choose_swap_present_mode(available_present_modes: &[i32]) -> (chosen: i32)
    ensures
        chosen == chosen_present_mode(available_present_modes@),
{
    let mut i: usize = 0;
    while i < available_present_modes.len()
        invariant
            i <= available_present_modes@.len(),
            forall|j: int| 0 <= j < i ==> available_present_modes@[j] != PRESENT_MODE_MAILBOX,
        decreases available_present_modes@.len() - i,
    {
        if available_present_modes[i] == PRESENT_MODE_MAILBOX {
            return PRESENT_MODE_MAILBOX;
        }
        i += 1;
    }
    PRESENT_MODE_FIFO
}

/// `value` moved into the range from `low` to `high`.
pub open spec fn clamped(value: u32, low: u32, high: u32) -> u32 {
    if value < low {
        low
    } else if value > high {
        high
    } else {
        value
    }
}

/// A framebuffer side as the window system reports it, read as unsigned: a
/// side that is not negative reads as itself, a negative one as the number
/// it is in 32-bit two's complement.
pub open spec fn framebuffer_side(side: i32) -> u32 {
    if side >= 0 {
        side as u32
    } else {
        (side + 0x1_0000_0000) as u32
    }
}

/// The extent chosen for a swapchain: the surface's current extent where it
/// has one, otherwise the framebuffer size moved into the allowed range.
pub open spec fn chosen_extent(framebuffer_size: (i32, i32), capabilities: SurfaceCapabilities)
    -> Extent2D {
    if !capabilities.extent_is_undefined() {
        capabilities.current_extent
    } else {
        Extent2D {
            width: clamped(
                framebuffer_side(framebuffer_size.0),
                capabilities.min_image_extent.width,
                capabilities.max_image_extent.width,
            ),
            height: clamped(
                framebuffer_side(framebuffer_size.1),
                capabilities.min_image_extent.height,
                capabilities.max_image_extent.height,
            ),
        }
    }
}

fn clamp_side(side: i32, low: u32, high: u32) -> (r: u32)
    requires
        low <= high,
    ensures
        r == clamped(framebuffer_side(side), low, high),
        low <= r <= high,
{
    let value = #[verifier::truncate] (side as u32);
    assert(side < 0 ==> side as u32 == side + 0x1_0000_0000) by (bit_vector);
    if value < low {
        low
    } else if value > high {
        high
    } else {
        value
    }
}

/// Picks the extent for a swapchain, given the window's framebuffer size in
/// pixels as (width, height).
pub fn choose_swap_extent(framebuffer_size: (i32, i32), capabilities: &SurfaceCapabilities) -> (chosen:
    Extent2D)
    requires
        capabilities.extent_is_undefined() ==> capabilities.extent_bounds_ordered(),
    ensures
        chosen == chosen_extent(framebuffer_size, *capabilities),
        !capabilities.extent_is_undefined() ==> chosen == capabilities.current_extent,
        capabilities.extent_is_undefined() ==> {
            &&& capabilities.min_image_extent.width <= chosen.width
                <= capabilities.max_image_extent.width
            &&& capabilities.min_image_extent.height <= chosen.height
                <= capabilities.max_image_extent.height
        },
{
    if capabilities.current_extent.width != u32::MAX {
        capabilities.current_extent
    } else {
        let width = clamp_side(
            framebuffer_size.0,
            capabilities.min_image_extent.width,
            capabilities.max_image_extent.width,
        );
        let height = clamp_side(
            framebuffer_size.1,
            capabilities.min_image_extent.height,
            capabilities.max_image_extent.height,
        );
        Extent2D { width, height }
    }
}

/// A side moved into an ordered range is zero only if the range ends at
/// zero, or if the side is zero and the range begins there.
pub proof fn lemma_clamped_is_positive(value: u32, low: u32, high: u32)
    requires
        low <= high,
    ensures
        clamped(value, low, high) > 0 <==> high > 0 && (value > 0 || low > 0),
{
}

/// Exactly when the extent chosen has an area. Where the surface sets the
/// size, when that size has one. Where the size is left to the swapchain,
/// when the surface allows an area at all and each side of the framebuffer
/// is either not zero or raised by the smallest extent allowed; so for a
/// framebuffer without a zero side, whenever the surface offers an area.
pub proof fn lemma_chosen_extent_has_area(
    framebuffer_size: (i32, i32),
    capabilities: SurfaceCapabilities,
)
    requires
        capabilities.extent_is_undefined() ==> capabilities.extent_bounds_ordered(),
    ensures
        !capabilities.extent_is_undefined() ==> (chosen_extent(
            framebuffer_size,
            capabilities,
        ).is_non_degenerate() <==> capabilities.current_extent.is_non_degenerate()),
        capabilities.extent_is_undefined() ==> (chosen_extent(
            framebuffer_size,
            capabilities,
        ).is_non_degenerate() <==> {
            &&& capabilities.max_image_extent.is_non_degenerate()
            &&& framebuffer_size.0 != 0 || capabilities.min_image_extent.width > 0
            &&& framebuffer_size.1 != 0 || capabilities.min_image_extent.height > 0
        }),
        framebuffer_size.0 != 0 && framebuffer_size.1 != 0 ==> (chosen_extent(
            framebuffer_size,
            capabilities,
        ).is_non_degenerate() <==> capabilities.offers_area()),
{
    if capabilities.extent_is_undefined() {
        lemma_clamped_is_positive(
            framebuffer_side(framebuffer_size.0),
            capabilities.min_image_extent.width,
            capabilities.max_image_extent.width,
        );
        lemma_clamped_is_positive(
            framebuffer_side(framebuffer_size.1),
            capabilities.min_image_extent.height,
            capabilities.max_image_extent.height,
        );
    }
}

/// The number of images asked for: one more than the surface's minimum, but
/// no more than its maximum where it has one.
pub open spec fn chosen_image_count(capabilities: SurfaceCapabilities) -> int {
    let wanted = capabilities.min_image_count + 1;
    if capabilities.max_image_count > 0 && capabilities.max_image_count < wanted {
        capabilities.max_image_count as int
    } else {
        wanted
    }
}

/// Picks the number of images to ask for.
///
/// Where the surface has a maximum, the count never exceeds it; where the
/// maximum is absent or no smaller than the minimum, the count is never below
/// the minimum.
pub fn choose_image_count(capabilities: &SurfaceCapabilities) -> (count: u32)
    requires
        capabilities.max_image_count > 0 || capabilities.min_image_count < u32::MAX,
    ensures
        count == chosen_image_count(*capabilities),
        count >= 1,
        capabilities.max_image_count > 0 ==> count <= capabilities.max_image_count,
        capabilities.max_image_count == 0 || capabilities.min_image_count
            <= capabilities.max_image_count ==> count >= capabilities.min_image_count,
{
    if capabilities.max_image_count > 0 && capabilities.max_image_count
        <= capabilities.min_image_count {
        capabilities.max_image_count
    } else {
        capabilities.min_image_count + 1
    }
}

/// How the images of a swapchain are shared between queue families.
#[derive(Clone, Copy, Debug, PartialEq, Eq, Structural)]
pub enum SharingMode {
    /// One queue family owns an image at a time.
    Exclusive,
    /// Several queue families use an image without handing it over.
    Concurrent,
}

/// Usage bit of an image that is rendered to as a colour attachment.
pub const IMAGE_USAGE_COLOR_ATTACHMENT_BIT: u32 = 0x10;

/// Composite-alpha bit of a surface that ignores the alpha channel.
pub const COMPOSITE_ALPHA_OPAQUE_BIT: u32 = 0x1;

/// The sharing mode chosen for a pair of queue families: concurrent when the
/// two roles fall to different families, exclusive when one family has both.
pub open spec fn chosen_sharing_mode(indices: QueueFamilyIndices) -> SharingMode {
    if indices.graphics_family != indices.present_family {
        SharingMode::Concurrent
    } else {
        SharingMode::Exclusive
    }
}

/// The queue families named to the swapchain: both of them under concurrent
/// sharing, graphics first, and none under exclusive sharing.
pub open spec fn shared_queue_families(indices: QueueFamilyIndices) -> Seq<u32> {
    if indices.graphics_family != indices.present_family {
        seq![indices.graphics_family->0, indices.present_family->0]
    } else {
        Seq::empty()
    }
}

/// The parameters a swapchain is created with.
#[derive(Debug)]
pub struct SwapchainPlan {
    pub min_image_count: u32,
    pub format: SurfaceFormat,
    pub extent: Extent2D,
    pub array_layers: u32,
    pub usage: u32,
    pub sharing_mode: SharingMode,
    pub queue_family_indices: Vec<u32>,
    pub pre_transform: u32,
    pub composite_alpha: u32,
    pub present_mode: i32,
    pub clipped: bool,
}

/// A swapchain plan as a mathematical value.
pub ghost struct SwapchainPlanView {
    pub min_image_count: int,
    pub format: SurfaceFormat,
    pub extent: Extent2D,
    pub array_layers: int,
    pub usage: u32,
    pub sharing_mode: SharingMode,
    pub queue_family_indices: Seq<u32>,
    pub pre_transform: u32,
    pub composite_alpha: u32,
    pub present_mode: i32,
    pub clipped: bool,
}

impl View for SwapchainPlan {
    type V = SwapchainPlanView;

    open spec fn view(&self) -> SwapchainPlanView {
        SwapchainPlanView {
            min_image_count: self.min_image_count as int,
            format: self.format,
            extent: self.extent,
            array_layers: self.array_layers as int,
            usage: self.usage,
            sharing_mode: self.sharing_mode,
            queue_family_indices: self.queue_family_indices@,
            pre_transform: self.pre_transform,
            composite_alpha: self.composite_alpha,
            present_mode: self.present_mode,
            clipped: self.clipped,
        }
    }
}

impl SwapchainPlanView {
    /// The plan describes a swapchain that can exist: it has at least one
    /// single-layered image of non-zero size, and it names two distinct queue
    /// families exactly when they are to share the images.
    pub open spec fn is_valid(self) -> bool {
        &&& self.min_image_count >= 1
        &&& self.extent.is_non_degenerate()
        &&& self.array_layers == 1
        &&& match self.sharing_mode {
            SharingMode::Exclusive => self.queue_family_indices.len() == 0,
            SharingMode::Concurrent => self.queue_family_indices.len() == 2
                && self.queue_family_indices[0] != self.queue_family_indices[1],
        }
    }
}

/// The surface report and queue families are ones a swapchain can be planned
/// from: there is a format to fall back on, the image count fits, the extent
/// bounds are ordered where they are used, and both queue roles are filled.
pub open spec fn plannable(
    capabilities: SurfaceCapabilities,
    formats: Seq<SurfaceFormat>,
    indices: QueueFamilyIndices,
) -> bool {
    &&& formats.len() > 0
    &&& capabilities.max_image_count > 0 || capabilities.min_image_count < u32::MAX
    &&& capabilities.extent_is_undefined() ==> capabilities.extent_bounds_ordered()
    &&& indices.complete()
}

/// The plan made for a surface report, a framebuffer size and a pair of queue
/// families.
pub open spec fn planned_swapchain(
    capabilities: SurfaceCapabilities,
    formats: Seq<SurfaceFormat>,
    present_modes: Seq<i32>,
    framebuffer_size: (i32, i32),
    indices: QueueFamilyIndices,
) -> SwapchainPlanView {
    SwapchainPlanView {
        min_image_count: chosen_image_count(capabilities),
        format: chosen_surface_format(formats),
        extent: chosen_extent(framebuffer_size, capabilities),
        array_layers: 1,
        usage: IMAGE_USAGE_COLOR_ATTACHMENT_BIT,
        sharing_mode: chosen_sharing_mode(indices),
        queue_family_indices: shared_queue_families(indices),
        pre_transform: capabilities.current_transform,
        composite_alpha: COMPOSITE_ALPHA_OPAQUE_BIT,
        present_mode: chosen_present_mode(present_modes),
        clipped: true,
    }
}

/// Whether a swapchain can be planned from `support` and `indices`.
pub fn can_plan_swapchain(support: &SwapChainSupportDetails, indices: &QueueFamilyIndices) -> (ok:
    bool)
    ensures
        ok == plannable(support.capabilities, support.formats@, *indices),
{
    let capabilities = &support.capabilities;
    !support.formats.is_empty() && (capabilities.max_image_count > 0 || capabilities.min_image_count
        < u32::MAX) && (capabilities.current_extent.width != u32::MAX
        || capabilities.has_ordered_extent_bounds()) && indices.is_complete()
}

/// Plans the swapchain for a surface, from what the device reports about the
/// surface, the window's framebuffer size and the device's queue families.
pub fn plan_swapchain(
    support: &SwapChainSupportDetails,
    framebuffer_size: (i32, i32),
    indices: &QueueFamilyIndices,
) -> (plan: SwapchainPlan)
    requires
        plannable(support.capabilities, support.formats@, *indices),
    ensures
        plan@ == planned_swapchain(
            support.capabilities,
            support.formats@,
            support.present_modes@,
            framebuffer_size,
            *indices,
        ),
        plan@.is_valid() <==> plan.extent.is_non_degenerate(),
        framebuffer_size.0 != 0 && framebuffer_size.1 != 0 ==> (plan@.is_valid()
            <==> support.capabilities.offers_area()),
{
    let format = choose_swap_surface_format(support.formats.as_slice());
    let present_mode = choose_swap_present_mode(support.present_modes.as_slice());
    let extent = choose_swap_extent(framebuffer_size, &support.capabilities);
    let min_image_count = choose_image_count(&support.capabilities);
    let graphics = indices.graphics_family.unwrap();
    let present = indices.present_family.unwrap();
    let mut queue_family_indices: Vec<u32> = Vec::new();
    let sharing_mode = if graphics != present {
        queue_family_indices.push(graphics);
        queue_family_indices.push(present);
        SharingMode::Concurrent
    } else {
        SharingMode::Exclusive
    };
    assert(queue_family_indices@ =~= shared_queue_families(*indices));
    SwapchainPlan {
        min_image_count,
        format,
        extent,
        array_layers: 1,
        usage: IMAGE_USAGE_COLOR_ATTACHMENT_BIT,
        sharing_mode,
        queue_family_indices,
        pre_transform: support.capabilities.current_transform,
        composite_alpha: COMPOSITE_ALPHA_OPAQUE_BIT,
        present_mode,
        clipped: true,
    }
}

/// Planning twice for the same window size gives the same render targets: the
/// extent and format of a plan depend on the surface's capabilities, its
/// formats and the framebuffer size alone, so two plans that agree on those
/// agree on extent and format, whatever else differs between them.
pub proof fn lemma_replanning_keeps_extent_and_format(
    capabilities: SurfaceCapabilities,
    formats: Seq<SurfaceFormat>,
    framebuffer_size: (i32, i32),
    first_present_modes: Seq<i32>,
    first_indices: QueueFamilyIndices,
    second_present_modes: Seq<i32>,
    second_indices: QueueFamilyIndices,
)
    ensures
        ({
            let first = planned_swapchain(
                capabilities,
                formats,
                first_present_modes,
                framebuffer_size,
                first_indices,
            );
            let second = planned_swapchain(
                capabilities,
                formats,
                second_present_modes,
                framebuffer_size,
                second_indices,
            );
            first.extent == second.extent && first.format == second.format
        }),
{
}

/// A plan made from a plannable report falls short of a valid swapchain in
/// one way only, an extent without area. So a swapchain planned for a window
/// with a drawable area is valid exactly when the surface offers an area.
pub proof fn lemma_plan_is_valid_iff_extent_has_area(
    capabilities: SurfaceCapabilities,
    formats: Seq<SurfaceFormat>,
    present_modes: Seq<i32>,
    framebuffer_size: (i32, i32),
    indices: QueueFamilyIndices,
)
    requires
        plannable(capabilities, formats, indices),
    ensures
        planned_swapchain(capabilities, formats, present_modes, framebuffer_size, indices).is_valid()
            <==> chosen_extent(framebuffer_size, capabilities).is_non_degenerate(),
        framebuffer_size.0 != 0 && framebuffer_size.1 != 0 ==> (planned_swapchain(
            capabilities,
            formats,
            present_modes,
            framebuffer_size,
            indices,
        ).is_valid() <==> capabilities.offers_area()),
{
}

/// Planning again while the swapchain already has the extent that would be
/// chosen is harmless: from any plannable report the new plan is valid and
/// keeps the extent, provided the plan in use was valid.
pub proof fn lemma_replanning_at_current_extent(
    current: SwapchainPlanView,
    capabilities: SurfaceCapabilities,
    formats: Seq<SurfaceFormat>,
    present_modes: Seq<i32>,
    framebuffer_size: (i32, i32),
    indices: QueueFamilyIndices,
)
    requires
        current.is_valid(),
        plannable(capabilities, formats, indices),
        chosen_extent(framebuffer_size, capabilities) == current.extent,
    ensures
        planned_swapchain(capabilities, formats, present_modes, framebuffer_size, indices).is_valid(),
        planned_swapchain(capabilities, formats, present_modes, framebuffer_size, indices).extent
            == current.extent,
{
}

} // verus!
