//! What is rendered into and how: the vertex layout, the render pass, the
//! fixed state of the pipeline, the framebuffers and the commands of a frame.

use vstd::prelude::*;
use crate::device::QueueFamilyIndices;
use crate::surface::{Extent2D, SurfaceCapabilities, SurfaceFormat};
use crate::swapchain::{planned_swapchain, SwapchainPlan};
use crate::upload::IMAGE_LAYOUT_UNDEFINED;

verus! {

/// Raw code of the format of two 32-bit floats.
pub const FORMAT_R32G32_SFLOAT: i32 = 103;

/// Raw code of the format of three 32-bit floats.
pub const FORMAT_R32G32B32_SFLOAT: i32 = 106;

/// Raw code of the layout of an image that is rendered to.
pub const IMAGE_LAYOUT_COLOR_ATTACHMENT_OPTIMAL: i32 = 2;

/// Raw code of the layout of an image that is handed to the presentation
/// engine.
pub const IMAGE_LAYOUT_PRESENT_SRC: i32 = 1_000_001_002;

/// Subpass index that stands for whatever happens outside the render pass.
pub const SUBPASS_EXTERNAL: u32 = 0xFFFF_FFFF;

/// Pipeline stage bit of the writes to colour attachments.
pub const PIPELINE_STAGE_COLOR_ATTACHMENT_OUTPUT_BIT: u32 = 0x400;

/// Access bit of a write to a colour attachment.
pub const ACCESS_COLOR_ATTACHMENT_WRITE_BIT: u32 = 0x100;

/// Shader stage bit of the vertex shader.
pub const SHADER_STAGE_VERTEX_BIT: u32 = 0x1;

/// Shader stage bit of the fragment shader.
pub const SHADER_STAGE_FRAGMENT_BIT: u32 = 0x10;

/// Name of the vertex shader's entry point in the shader module.
pub const VERTEX_ENTRY_POINT: &'static str = "main_vs";

/// Name of the fragment shader's entry point in the shader module.
pub const FRAGMENT_ENTRY_POINT: &'static str = "main_fs";

/// Number of indices drawn each frame: two triangles.
pub const INDEX_COUNT: u32 = 6;

/// One field of a vertex record. Every field is made of 32-bit floats, so
/// the fields follow one another without padding.
#[derive(Clone, Copy, Debug, PartialEq, Eq, Structural)]
pub enum VertexField {
    /// Two floats.
    Float2,
    /// Three floats.
    Float3,
}

impl VertexField {
    /// The number of bytes the field takes.
    pub open spec fn size(self) -> nat {
        match self {
            VertexField::Float2 => 8,
            VertexField::Float3 => 12,
        }
    }

    /// The raw code of the format the field is read in.
    pub open spec fn format(self) -> i32 {
        match self {
            VertexField::Float2 => FORMAT_R32G32_SFLOAT,
            VertexField::Float3 => FORMAT_R32G32B32_SFLOAT,
        }
    }

    /// The number of bytes the field takes.
    pub fn byte_size(self) -> (bytes: u32)
        ensures
            bytes == self.size(),
    {
        match self {
            VertexField::Float2 => 8,
            VertexField::Float3 => 12,
        }
    }

    /// The raw code of the format the field is read in.
    pub fn vertex_format(self) -> (code: i32)
        ensures
            code == self.format(),
    {
        match self {
            VertexField::Float2 => FORMAT_R32G32_SFLOAT,
            VertexField::Float3 => FORMAT_R32G32B32_SFLOAT,
        }
    }
}

/// The offset in bytes of field `i` of a record with the given fields: the
/// sizes of the fields before it, added up. For `i` equal to the number of
/// fields this is the size of the record.
pub open spec fn field_offset(fields: Seq<VertexField>, i: int) -> nat
    decreases i,
{
    if i <= 0 {
        0
    } else {
        field_offset(fields, i - 1) + fields[i - 1].size()
    }
}

/// The size in bytes of a record with the given fields.
pub open spec fn record_size(fields: Seq<VertexField>) -> nat {
    field_offset(fields, fields.len() as int)
}

/// Fields do not overlap and none reaches past the end of the record: a
/// field ends where the next begins or earlier than any later one begins,
/// and the last ends with the record.
pub proof fn lemma_fields_are_disjoint(fields: Seq<VertexField>, i: int, j: int)
    requires
        0 <= i < j <= fields.len(),
    ensures
        field_offset(fields, i) + fields[i].size() <= field_offset(fields, j),
        field_offset(fields, j) <= record_size(fields),
        8 * j <= field_offset(fields, j),
{
    lemma_offsets_grow(fields, i + 1, j);
    lemma_offsets_grow(fields, j, fields.len() as int);
}

proof fn lemma_offsets_grow(fields: Seq<VertexField>, i: int, j: int)
    requires
        0 <= i <= j <= fields.len(),
    ensures
        field_offset(fields, i) <= field_offset(fields, j),
        8 * j <= field_offset(fields, j),
    decreases j,
{
    if j > 0 {
        if i < j {
            lemma_offsets_grow(fields, i, j - 1);
        } else {
            lemma_offsets_grow(fields, j - 1, j - 1);
        }
    }
}

/// How often a vertex binding moves on to its next record.
#[derive(Clone, Copy, Debug, PartialEq, Eq, Structural)]
pub enum VertexInputRate {
    /// Once per vertex.
    Vertex,
    /// Once per instance.
    Instance,
}

/// Where the records of a vertex buffer lie.
#[derive(Clone, Copy, Debug, PartialEq, Eq, Structural)]
pub struct VertexInputBindingDescription {
    pub binding: u32,
    /// Distance in bytes from one record to the next.
    pub stride: u32,
    pub input_rate: VertexInputRate,
}

/// Where one field of a vertex record lies and how it is read.
#[derive(Clone, Copy, Debug, PartialEq, Eq, Structural)]
pub struct VertexInputAttributeDescription {
    /// The shader input the field feeds.
    pub location: u32,
    pub binding: u32,
    pub format: i32,
    /// Offset in bytes of the field within the record.
    pub offset: u32,
}

/// The fields of the renderer's vertex record: a position in the plane, a
/// colour and a texture coordinate.
pub fn vertex_data_fields() -> (fields: Vec<VertexField>)
    ensures
        fields@ == seq![VertexField::Float2, VertexField::Float3, VertexField::Float2],
        record_size(fields@) == 28,
{
    let mut fields: Vec<VertexField> = Vec::new();
    fields.push(VertexField::Float2);
    fields.push(VertexField::Float3);
    fields.push(VertexField::Float2);
    assert(record_size(fields@) == 28) by {
        reveal_with_fuel(field_offset, 4);
    }
    fields
}

/// Describes the binding of a vertex buffer whose records have the given
/// fields: binding zero, one record per vertex, records packed back to back.
pub fn get_binding_description(fields: &[VertexField]) -> (description:
    VertexInputBindingDescription)
    requires
        record_size(fields@) <= u32::MAX,
    ensures
        description == (VertexInputBindingDescription {
            binding: 0,
            stride: record_size(fields@) as u32,
            input_rate: VertexInputRate::Vertex,
        }),
{
    let mut stride: u32 = 0;
    let mut i: usize = 0;
    while i < fields.len()
        invariant
            i <= fields@.len(),
            stride == field_offset(fields@, i as int),
            record_size(fields@) <= u32::MAX,
        decreases fields@.len() - i,
    {
        proof {
            lemma_offsets_grow(fields@, i + 1, fields@.len() as int);
        }
        stride = stride + fields[i].byte_size();
        i += 1;
    }
    VertexInputBindingDescription { binding: 0, stride, input_rate: VertexInputRate::Vertex }
}

/// The description of field `i` of a record with the given fields: it feeds
/// shader input `i` from binding zero.
pub open spec fn attribute_description(fields: Seq<VertexField>, i: int)
    -> VertexInputAttributeDescription {
    VertexInputAttributeDescription {
        location: i as u32,
        binding: 0,
        format: fields[i].format(),
        offset: field_offset(fields, i) as u32,
    }
}

/// Describes the fields of a vertex record, one description per field in
/// the order of the fields.
pub fn get_attribute_descriptions(fields: &[VertexField]) -> (descriptions: Vec<
    VertexInputAttributeDescription,
>)
    requires
        record_size(fields@) <= u32::MAX,
    ensures
        descriptions@.len() == fields@.len(),
        forall|i: int|
            0 <= i < fields@.len() ==> #[trigger] descriptions@[i] == attribute_description(
                fields@,
                i,
            ),
{
    let mut descriptions: Vec<VertexInputAttributeDescription> = Vec::new();
    let mut offset: u32 = 0;
    let mut i: usize = 0;
    while i < fields.len()
        invariant
            i <= fields@.len(),
            offset == field_offset(fields@, i as int),
            record_size(fields@) <= u32::MAX,
            descriptions@.len() == i,
            forall|k: int|
                0 <= k < i ==> #[trigger] descriptions@[k] == attribute_description(fields@, k),
        decreases fields@.len() - i,
    {
        proof {
            lemma_offsets_grow(fields@, i + 1, fields@.len() as int);
        }
        let field = fields[i];
        descriptions.push(
            VertexInputAttributeDescription {
                location: i as u32,
                binding: 0,
                format: field.vertex_format(),
                offset,
            },
        );
        offset = offset + field.byte_size();
        i += 1;
    }
    descriptions
}

/// What is done with an attachment's contents when a render pass begins.
#[derive(Clone, Copy, Debug, PartialEq, Eq, Structural)]
pub enum LoadOp {
    Load,
    Clear,
    DontCare,
}

/// What is done with an attachment's contents when a render pass ends.
#[derive(Clone, Copy, Debug, PartialEq, Eq, Structural)]
pub enum StoreOp {
    Store,
    DontCare,
}

/// A render pass with one colour attachment, one subpass and one dependency
/// on what came before the pass.
#[derive(Clone, Copy, Debug, PartialEq, Eq, Structural)]
pub struct RenderPassPlan {
    /// Format of the colour attachment.
    pub format: i32,
    /// Samples per pixel.
    pub samples: u32,
    pub load_op: LoadOp,
    pub store_op: StoreOp,
    pub stencil_load_op: LoadOp,
    pub stencil_store_op: StoreOp,
    pub initial_layout: i32,
    pub final_layout: i32,
    /// Index of the attachment the subpass draws to.
    pub attachment: u32,
    /// Layout of the attachment during the subpass.
    pub subpass_layout: i32,
    pub src_subpass: u32,
    pub dst_subpass: u32,
    pub src_stage_mask: u32,
    pub src_access_mask: u32,
    pub dst_stage_mask: u32,
    pub dst_access_mask: u32,
}

/// The render pass for images of the given format: the image is cleared at
/// the start and kept at the end, its earlier contents are given up, and it
/// is left ready to be presented. Writing colour in the subpass waits for the
/// same stage of whatever used the image before.
pub open spec fn render_pass_for(format: i32) -> RenderPassPlan {
    RenderPassPlan {
        format,
        samples: 1,
        load_op: LoadOp::Clear,
        store_op: StoreOp::Store,
        stencil_load_op: LoadOp::DontCare,
        stencil_store_op: StoreOp::DontCare,
        initial_layout: IMAGE_LAYOUT_UNDEFINED,
        final_layout: IMAGE_LAYOUT_PRESENT_SRC,
        attachment: 0,
        subpass_layout: IMAGE_LAYOUT_COLOR_ATTACHMENT_OPTIMAL,
        src_subpass: SUBPASS_EXTERNAL,
        dst_subpass: 0,
        src_stage_mask: PIPELINE_STAGE_COLOR_ATTACHMENT_OUTPUT_BIT,
        src_access_mask: 0,
        dst_stage_mask: PIPELINE_STAGE_COLOR_ATTACHMENT_OUTPUT_BIT,
        dst_access_mask: ACCESS_COLOR_ATTACHMENT_WRITE_BIT,
    }
}

/// Plans the render pass for swapchain images of the given format.
pub fn plan_render_pass(swapchain_image_format: i32) -> (plan: RenderPassPlan)
    ensures
        plan == render_pass_for(swapchain_image_format),
{
    RenderPassPlan {
        format: swapchain_image_format,
        samples: 1,
        load_op: LoadOp::Clear,
        store_op: StoreOp::Store,
        stencil_load_op: LoadOp::DontCare,
        stencil_store_op: StoreOp::DontCare,
        initial_layout: IMAGE_LAYOUT_UNDEFINED,
        final_layout: IMAGE_LAYOUT_PRESENT_SRC,
        attachment: 0,
        subpass_layout: IMAGE_LAYOUT_COLOR_ATTACHMENT_OPTIMAL,
        src_subpass: SUBPASS_EXTERNAL,
        dst_subpass: 0,
        src_stage_mask: PIPELINE_STAGE_COLOR_ATTACHMENT_OUTPUT_BIT,
        src_access_mask: 0,
        dst_stage_mask: PIPELINE_STAGE_COLOR_ATTACHMENT_OUTPUT_BIT,
        dst_access_mask: ACCESS_COLOR_ATTACHMENT_WRITE_BIT,
    }
}

/// How primitives are put together from vertices.
#[derive(Clone, Copy, Debug, PartialEq, Eq, Structural)]
pub enum Topology {
    TriangleList,
}

/// Which triangles are dropped for facing away.
#[derive(Clone, Copy, Debug, PartialEq, Eq, Structural)]
pub enum CullMode {
    Nothing,
    Front,
    Back,
}

/// The winding that marks a triangle as facing the viewer.
#[derive(Clone, Copy, Debug, PartialEq, Eq, Structural)]
pub enum FrontFace {
    CounterClockwise,
    Clockwise,
}

/// The fixed state of the graphics pipeline.
#[derive(Clone, Copy, Debug, PartialEq, Eq, Structural)]
pub struct PipelineConfig {
    pub topology: Topology,
    pub primitive_restart: bool,
    /// Viewport and scissor are set while recording, not fixed here.
    pub dynamic_viewport: bool,
    pub dynamic_scissor: bool,
    pub viewport_count: u32,
    pub scissor_count: u32,
    pub depth_clamp: bool,
    pub rasterizer_discard: bool,
    /// Polygons are filled.
    pub fill_polygons: bool,
    pub cull_mode: CullMode,
    pub front_face: FrontFace,
    pub depth_bias: bool,
    pub sample_shading: bool,
    /// Samples per pixel.
    pub samples: u32,
    pub write_red: bool,
    pub write_green: bool,
    pub write_blue: bool,
    pub write_alpha: bool,
    pub blend: bool,
    pub logic_op: bool,
    /// Index of the subpass the pipeline is used in.
    pub subpass: u32,
    /// The projection handed to the shaders turns the vertical axis over, to
    /// account for the downward axis of the framebuffer.
    pub flip_projection_y: bool,
}

/// The pipeline state the renderer uses: lists of filled triangles with the
/// back faces dropped, counter-clockwise being the front under a projection
/// that turns the vertical axis over; no blending; viewport and scissor left
/// to be set per frame.
pub open spec fn pipeline_state() -> PipelineConfig {
    PipelineConfig {
        topology: Topology::TriangleList,
        primitive_restart: false,
        dynamic_viewport: true,
        dynamic_scissor: true,
        viewport_count: 1,
        scissor_count: 1,
        depth_clamp: false,
        rasterizer_discard: false,
        fill_polygons: true,
        cull_mode: CullMode::Back,
        front_face: FrontFace::CounterClockwise,
        depth_bias: false,
        sample_shading: false,
        samples: 1,
        write_red: true,
        write_green: true,
        write_blue: true,
        write_alpha: false,
        blend: false,
        logic_op: false,
        subpass: 0,
        flip_projection_y: true,
    }
}

/// Gives the fixed state of the graphics pipeline.
pub fn plan_graphics_pipeline() -> (config: PipelineConfig)
    ensures
        config == pipeline_state(),
{
    PipelineConfig {
        topology: Topology::TriangleList,
        primitive_restart: false,
        dynamic_viewport: true,
        dynamic_scissor: true,
        viewport_count: 1,
        scissor_count: 1,
        depth_clamp: false,
        rasterizer_discard: false,
        fill_polygons: true,
        cull_mode: CullMode::Back,
        front_face: FrontFace::CounterClockwise,
        depth_bias: false,
        sample_shading: false,
        samples: 1,
        write_red: true,
        write_green: true,
        write_blue: true,
        write_alpha: false,
        blend: false,
        logic_op: false,
        subpass: 0,
        flip_projection_y: true,
    }
}

/// What one framebuffer is created with.
#[derive(Clone, Copy, Debug, PartialEq, Eq, Structural)]
pub struct FramebufferPlan {
    /// Index of the image view that is the framebuffer's only attachment.
    pub image_view: u32,
    pub width: u32,
    pub height: u32,
    pub layers: u32,
}

/// The framebuffer for image view `i` of a swapchain of the given extent.
pub open spec fn framebuffer_for(i: int, extent: Extent2D) -> FramebufferPlan {
    FramebufferPlan { image_view: i as u32, width: extent.width, height: extent.height, layers: 1 }
}

/// Plans the framebuffers of a swapchain: one per image view, each of the
/// swapchain's extent.
pub fn plan_framebuffers(image_view_count: u32, swap_chain_extent: Extent2D) -> (plans: Vec<
    FramebufferPlan,
>)
    ensures
        plans@.len() == image_view_count,
        forall|i: int|
            0 <= i < image_view_count ==> #[trigger] plans@[i] == framebuffer_for(
                i,
                swap_chain_extent,
            ),
{
    let mut plans: Vec<FramebufferPlan> = Vec::new();
    let mut i: u32 = 0;
    while i < image_view_count
        invariant
            i <= image_view_count,
            plans@.len() == i,
            forall|k: int|
                0 <= k < i ==> #[trigger] plans@[k] == framebuffer_for(k, swap_chain_extent),
        decreases image_view_count - i,
    {
        plans.push(
            FramebufferPlan {
                image_view: i,
                width: swap_chain_extent.width,
                height: swap_chain_extent.height,
                layers: 1,
            },
        );
        i += 1;
    }
    plans
}

/// What is rendered into: the render pass and one framebuffer per image view
/// of the swapchain. Render targets belong to one swapchain and are replaced
/// whenever it is.
#[derive(Debug)]
pub struct RenderTargets {
    pub render_pass: RenderPassPlan,
    pub extent: Extent2D,
    pub framebuffers: Vec<FramebufferPlan>,
}

/// Render targets as a mathematical value.
pub ghost struct RenderTargetsView {
    pub render_pass: RenderPassPlan,
    pub extent: Extent2D,
    pub framebuffers: Seq<FramebufferPlan>,
}

impl View for RenderTargets {
    type V = RenderTargetsView;

    open spec fn view(&self) -> RenderTargetsView {
        RenderTargetsView {
            render_pass: self.render_pass,
            extent: self.extent,
            framebuffers: self.framebuffers@,
        }
    }
}

impl RenderTargetsView {
    /// The targets can be rendered into: they have an area, and framebuffer
    /// `i` covers that area with image view `i` in a single layer.
    pub open spec fn is_valid(self) -> bool {
        &&& self.extent.is_non_degenerate()
        &&& forall|i: int|
            0 <= i < self.framebuffers.len() ==> #[trigger] self.framebuffers[i]
                == framebuffer_for(i, self.extent)
    }
}

/// The render targets of a swapchain of the given format and extent with
/// `image_view_count` image views.
pub open spec fn render_targets_for(format: i32, extent: Extent2D, image_view_count: u32)
    -> RenderTargetsView {
    RenderTargetsView {
        render_pass: render_pass_for(format),
        extent,
        framebuffers: Seq::new(image_view_count as nat, |i: int| framebuffer_for(i, extent)),
    }
}

/// Plans the render targets of a swapchain: they take their format and
/// extent from it and have one framebuffer for each of its image views.
pub fn plan_render_targets(swapchain: &SwapchainPlan, image_view_count: u32) -> (targets:
    RenderTargets)
    ensures
        targets@ == render_targets_for(
            swapchain.format.format,
            swapchain.extent,
            image_view_count,
        ),
{
    let framebuffers = plan_framebuffers(image_view_count, swapchain.extent);
    assert(framebuffers@ =~= Seq::new(
        image_view_count as nat,
        |i: int| framebuffer_for(i, swapchain.extent),
    ));
    RenderTargets {
        render_pass: plan_render_pass(swapchain.format.format),
        extent: swapchain.extent,
        framebuffers,
    }
}

/// Rebuilding the swapchain twice for the same window size gives the same
/// render targets both times: their format and extent, and with the same
/// number of image views every framebuffer, come out equal whatever present
/// modes and queue families the two rebuilds were planned with.
pub proof fn lemma_rebuilt_targets_are_identical(
    capabilities: SurfaceCapabilities,
    formats: Seq<SurfaceFormat>,
    framebuffer_size: (i32, i32),
    image_view_count: u32,
    first_present_modes: Seq<i32>,
    first_indices: QueueFamilyIndices,
    second_present_modes: Seq<i32>,
    second_indices: QueueFamilyIndices,
)
    ensures
        ({
            let first = planned_swapchain(
                capabilities,
                formats,
                first_present_modes,
                framebuffer_size,
                first_indices,
            );
            let second = planned_swapchain(
                capabilities,
                formats,
                second_present_modes,
                framebuffer_size,
                second_indices,
            );
            render_targets_for(first.format.format, first.extent, image_view_count)
                == render_targets_for(second.format.format, second.extent, image_view_count)
        }),
{
}

/// Render targets planned for a swapchain with an area are valid, with
/// exactly one framebuffer per image view.
pub proof fn lemma_targets_of_valid_swapchain(format: i32, extent: Extent2D, image_view_count: u32)
    requires
        extent.is_non_degenerate(),
    ensures
        render_targets_for(format, extent, image_view_count).is_valid(),
        render_targets_for(format, extent, image_view_count).framebuffers.len()
            == image_view_count,
        render_targets_for(format, extent, image_view_count).render_pass.format == format,
{
}

/// One command of a frame.
#[derive(Clone, Copy, Debug, PartialEq, Eq, Structural)]
pub enum Command {
    /// Begin recording.
    Begin,
    /// Begin the render pass on the framebuffer with the given index,
    /// clearing the whole of `render_area` to opaque black.
    BeginRenderPass { framebuffer: u32, render_area: Extent2D },
    /// Bind the graphics pipeline.
    BindPipeline,
    /// Bind the vertex buffer to binding zero, from its start.
    BindVertexBuffer,
    /// Bind the index buffer, from its start, as 16-bit indices.
    BindIndexBuffer,
    /// Set the viewport to the whole of `extent`, with depth from 0 to 1.
    SetViewport { extent: Extent2D },
    /// Set the scissor rectangle to the whole of `extent`.
    SetScissor { extent: Extent2D },
    /// Bind the descriptor set of the given in-flight slot.
    BindDescriptorSet { slot: u32 },
    /// Draw one instance of `index_count` indices from the start of the
    /// index buffer.
    DrawIndexed { index_count: u32 },
    /// End the render pass.
    EndRenderPass,
    /// End recording.
    End,
}

/// The commands of one frame, drawn into the image with index `image_index`
/// with the resources of in-flight slot `slot`.
pub open spec fn frame_commands(extent: Extent2D, image_index: u32, slot: u32) -> Seq<Command> {
    seq![
        Command::Begin,
        Command::BeginRenderPass { framebuffer: image_index, render_area: extent },
        Command::BindPipeline,
        Command::BindVertexBuffer,
        Command::BindIndexBuffer,
        Command::SetViewport { extent },
        Command::SetScissor { extent },
        Command::BindDescriptorSet { slot },
        Command::DrawIndexed { index_count: INDEX_COUNT },
        Command::EndRenderPass,
        Command::End,
    ]
}

/// Lists the commands to record for one frame. The image index must name
/// one of the framebuffers and the slot one of the in-flight slots.
pub fn record_command_buffer(
    swapchain_extent: Extent2D,
    image_index: u32,
    framebuffer_count: u32,
    slot: u32,
    frames_in_flight: u32,
) -> (commands: Vec<Command>)
    requires
        image_index < framebuffer_count,
        slot < frames_in_flight,
    ensures
        commands@ == frame_commands(swapchain_extent, image_index, slot),
{
    let mut commands: Vec<Command> = Vec::new();
    commands.push(Command::Begin);
    commands.push(
        Command::BeginRenderPass { framebuffer: image_index, render_area: swapchain_extent },
    );
    commands.push(Command::BindPipeline);
    commands.push(Command::BindVertexBuffer);
    commands.push(Command::BindIndexBuffer);
    commands.push(Command::SetViewport { extent: swapchain_extent });
    commands.push(Command::SetScissor { extent: swapchain_extent });
    commands.push(Command::BindDescriptorSet { slot });
    commands.push(Command::DrawIndexed { index_count: INDEX_COUNT });
    commands.push(Command::EndRenderPass);
    commands.push(Command::End);
    commands
}

} // verus!
