//! The order in which the renderer is built up at start and taken down at
//! exit.
//!
//! Building up is a fixed sequence of steps in which every step finds what it
//! needs already made, and which stops at the first step that fails. Taking
//! down releases everything that was made, dependants before what they
//! depend on and a handle before the memory bound to it.

use vstd::prelude::*;

verus! {

/// One step of building up the renderer.
#[derive(Clone, Copy, Debug, PartialEq, Eq, Structural)]
pub enum SetupStep {
    LoadLibrary,
    CheckValidationLayers,
    CreateInstance,
    SetupDebugMessenger,
    CreateSurface,
    PickPhysicalDevice,
    CreateLogicalDevice,
    CreateSwapchain,
    CreateImageViews,
    CreateRenderPass,
    CreateDescriptorSetLayout,
    CreateGraphicsPipeline,
    CreateFramebuffers,
    CreateCommandPool,
    CreateTextureImage,
    CreateTextureImageView,
    CreateTextureSampler,
    CreateVertexBuffer,
    CreateIndexBuffer,
    CreateUniformBuffers,
    CreateDescriptorPool,
    CreateDescriptorSets,
    CreateCommandBuffers,
    CreateSyncObjects,
}

/// What follows a step of building up.
#[derive(Clone, Copy, Debug, PartialEq, Eq, Structural)]
pub enum SetupAction {
    /// Carry out this step next.
    Perform(SetupStep),
    /// Everything is built; the frame loop can start.
    Run,
    /// Give up with the error of the step that failed.
    Abort,
}

impl SetupStep {
    /// The place of the step in the sequence, counted from zero.
    pub open spec fn position(self) -> nat {
        match self {
            SetupStep::LoadLibrary => 0,
            SetupStep::CheckValidationLayers => 1,
            SetupStep::CreateInstance => 2,
            SetupStep::SetupDebugMessenger => 3,
            SetupStep::CreateSurface => 4,
            SetupStep::PickPhysicalDevice => 5,
            SetupStep::CreateLogicalDevice => 6,
            SetupStep::CreateSwapchain => 7,
            SetupStep::CreateImageViews => 8,
            SetupStep::CreateRenderPass => 9,
            SetupStep::CreateDescriptorSetLayout => 10,
            SetupStep::CreateGraphicsPipeline => 11,
            SetupStep::CreateFramebuffers => 12,
            SetupStep::CreateCommandPool => 13,
            SetupStep::CreateTextureImage => 14,
            SetupStep::CreateTextureImageView => 15,
            SetupStep::CreateTextureSampler => 16,
            SetupStep::CreateVertexBuffer => 17,
            SetupStep::CreateIndexBuffer => 18,
            SetupStep::CreateUniformBuffers => 19,
            SetupStep::CreateDescriptorPool => 20,
            SetupStep::CreateDescriptorSets => 21,
            SetupStep::CreateCommandBuffers => 22,
            SetupStep::CreateSyncObjects => 23,
        }
    }

    /// The steps whose results this step uses.
    pub open spec fn needs(self) -> Seq<SetupStep> {
        match self {
            SetupStep::LoadLibrary => seq![],
            SetupStep::CheckValidationLayers => seq![SetupStep::LoadLibrary],
            SetupStep::CreateInstance => seq![SetupStep::LoadLibrary],
            SetupStep::SetupDebugMessenger => seq![SetupStep::CreateInstance],
            SetupStep::CreateSurface => seq![SetupStep::CreateInstance],
            SetupStep::PickPhysicalDevice => seq![
                SetupStep::CreateInstance,
                SetupStep::CreateSurface,
            ],
            SetupStep::CreateLogicalDevice => seq![SetupStep::PickPhysicalDevice],
            SetupStep::CreateSwapchain => seq![
                SetupStep::CreateSurface,
                SetupStep::CreateLogicalDevice,
            ],
            SetupStep::CreateImageViews => seq![SetupStep::CreateSwapchain],
            SetupStep::CreateRenderPass => seq![SetupStep::CreateSwapchain],
            SetupStep::CreateDescriptorSetLayout => seq![SetupStep::CreateLogicalDevice],
            SetupStep::CreateGraphicsPipeline => seq![
                SetupStep::CreateRenderPass,
                SetupStep::CreateDescriptorSetLayout,
            ],
            SetupStep::CreateFramebuffers => seq![
                SetupStep::CreateImageViews,
                SetupStep::CreateRenderPass,
            ],
            SetupStep::CreateCommandPool => seq![SetupStep::CreateLogicalDevice],
            SetupStep::CreateTextureImage => seq![SetupStep::CreateCommandPool],
            SetupStep::CreateTextureImageView => seq![SetupStep::CreateTextureImage],
            SetupStep::CreateTextureSampler => seq![SetupStep::CreateLogicalDevice],
            SetupStep::CreateVertexBuffer => seq![SetupStep::CreateCommandPool],
            SetupStep::CreateIndexBuffer => seq![SetupStep::CreateCommandPool],
            SetupStep::CreateUniformBuffers => seq![SetupStep::CreateLogicalDevice],
            SetupStep::CreateDescriptorPool => seq![SetupStep::CreateLogicalDevice],
            SetupStep::CreateDescriptorSets => seq![
                SetupStep::CreateDescriptorSetLayout,
                SetupStep::CreateTextureImageView,
                SetupStep::CreateTextureSampler,
                SetupStep::CreateUniformBuffers,
                SetupStep::CreateDescriptorPool,
            ],
            SetupStep::CreateCommandBuffers => seq![SetupStep::CreateCommandPool],
            SetupStep::CreateSyncObjects => seq![SetupStep::CreateLogicalDevice],
        }
    }

    /// The step serves diagnostics only, and is left out when validation is
    /// switched off.
    pub open spec fn for_validation_only(self) -> bool {
        self == SetupStep::CheckValidationLayers || self == SetupStep::SetupDebugMessenger
    }

    /// A failure of the step ends the building up. The debug messenger alone
    /// may fail without harm: it only reports, and never alters what is done.
    pub open spec fn is_fatal(self) -> bool {
        self != SetupStep::SetupDebugMessenger
    }

    /// The step that comes after this one in the full sequence, if any.
    pub open spec fn successor(self) -> Option<SetupStep> {
        match self {
            SetupStep::LoadLibrary => Some(SetupStep::CheckValidationLayers),
            SetupStep::CheckValidationLayers => Some(SetupStep::CreateInstance),
            SetupStep::CreateInstance => Some(SetupStep::SetupDebugMessenger),
            SetupStep::SetupDebugMessenger => Some(SetupStep::CreateSurface),
            SetupStep::CreateSurface => Some(SetupStep::PickPhysicalDevice),
            SetupStep::PickPhysicalDevice => Some(SetupStep::CreateLogicalDevice),
            SetupStep::CreateLogicalDevice => Some(SetupStep::CreateSwapchain),
            SetupStep::CreateSwapchain => Some(SetupStep::CreateImageViews),
            SetupStep::CreateImageViews => Some(SetupStep::CreateRenderPass),
            SetupStep::CreateRenderPass => Some(SetupStep::CreateDescriptorSetLayout),
            SetupStep::CreateDescriptorSetLayout => Some(SetupStep::CreateGraphicsPipeline),
            SetupStep::CreateGraphicsPipeline => Some(SetupStep::CreateFramebuffers),
            SetupStep::CreateFramebuffers => Some(SetupStep::CreateCommandPool),
            SetupStep::CreateCommandPool => Some(SetupStep::CreateTextureImage),
            SetupStep::CreateTextureImage => Some(SetupStep::CreateTextureImageView),
            SetupStep::CreateTextureImageView => Some(SetupStep::CreateTextureSampler),
            SetupStep::CreateTextureSampler => Some(SetupStep::CreateVertexBuffer),
            SetupStep::CreateVertexBuffer => Some(SetupStep::CreateIndexBuffer),
            SetupStep::CreateIndexBuffer => Some(SetupStep::CreateUniformBuffers),
            SetupStep::CreateUniformBuffers => Some(SetupStep::CreateDescriptorPool),
            SetupStep::CreateDescriptorPool => Some(SetupStep::CreateDescriptorSets),
            SetupStep::CreateDescriptorSets => Some(SetupStep::CreateCommandBuffers),
            SetupStep::CreateCommandBuffers => Some(SetupStep::CreateSyncObjects),
            SetupStep::CreateSyncObjects => None,
        }
    }

    /// The step that comes after this one, leaving out the steps that serve
    /// diagnostics when `validation` is off.
    pub open spec fn following(self, validation: bool) -> Option<SetupStep> {
        match self.successor() {
            Some(next) => if !validation && next.for_validation_only() {
                next.successor()
            } else {
                Some(next)
            },
            None => None,
        }
    }
}

/// The step that building up starts with.
pub fn first_setup_step() -> (step: SetupStep)
    ensures
        step == SetupStep::LoadLibrary,
        step.position() == 0,
{
    SetupStep::LoadLibrary
}

/// The step that follows `step`, or nothing after the last.
pub fn next_setup_step(step: SetupStep, validation: bool) -> (next: Option<SetupStep>)
    ensures
        next == step.following(validation),
        next matches Some(n) ==> n.position() > step.position() && (validation
            || !n.for_validation_only()),
        next is None <==> step == SetupStep::CreateSyncObjects,
{
    let successor = match step {
        SetupStep::LoadLibrary => SetupStep::CheckValidationLayers,
        SetupStep::CheckValidationLayers => SetupStep::CreateInstance,
        SetupStep::CreateInstance => SetupStep::SetupDebugMessenger,
        SetupStep::SetupDebugMessenger => SetupStep::CreateSurface,
        SetupStep::CreateSurface => SetupStep::PickPhysicalDevice,
        SetupStep::PickPhysicalDevice => SetupStep::CreateLogicalDevice,
        SetupStep::CreateLogicalDevice => SetupStep::CreateSwapchain,
        SetupStep::CreateSwapchain => SetupStep::CreateImageViews,
        SetupStep::CreateImageViews => SetupStep::CreateRenderPass,
        SetupStep::CreateRenderPass => SetupStep::CreateDescriptorSetLayout,
        SetupStep::CreateDescriptorSetLayout => SetupStep::CreateGraphicsPipeline,
        SetupStep::CreateGraphicsPipeline => SetupStep::CreateFramebuffers,
        SetupStep::CreateFramebuffers => SetupStep::CreateCommandPool,
        SetupStep::CreateCommandPool => SetupStep::CreateTextureImage,
        SetupStep::CreateTextureImage => SetupStep::CreateTextureImageView,
        SetupStep::CreateTextureImageView => SetupStep::CreateTextureSampler,
        SetupStep::CreateTextureSampler => SetupStep::CreateVertexBuffer,
        SetupStep::CreateVertexBuffer => SetupStep::CreateIndexBuffer,
        SetupStep::CreateIndexBuffer => SetupStep::CreateUniformBuffers,
        SetupStep::CreateUniformBuffers => SetupStep::CreateDescriptorPool,
        SetupStep::CreateDescriptorPool => SetupStep::CreateDescriptorSets,
        SetupStep::CreateDescriptorSets => SetupStep::CreateCommandBuffers,
        SetupStep::CreateCommandBuffers => SetupStep::CreateSyncObjects,
        SetupStep::CreateSyncObjects => {
            return None;
        },
    };
    if validation {
        Some(successor)
    } else {
        match successor {
            SetupStep::CheckValidationLayers => Some(SetupStep::CreateInstance),
            SetupStep::SetupDebugMessenger => Some(SetupStep::CreateSurface),
            _ => Some(successor),
        }
    }
}

/// What follows `step` once it has succeeded or failed.
pub open spec fn action_after(step: SetupStep, succeeded: bool, validation: bool)
    -> SetupAction {
    if !succeeded && step.is_fatal() {
        SetupAction::Abort
    } else {
        match step.following(validation) {
            Some(next) => SetupAction::Perform(next),
            None => SetupAction::Run,
        }
    }
}

/// Says what to do after a step of building up: stop at the first failure
/// that matters, otherwise go on to the next step, and run once the last
/// step is done.
pub fn after_setup_step(step: SetupStep, succeeded: bool, validation: bool) -> (action:
    SetupAction)
    ensures
        action == action_after(step, succeeded, validation),
{
    let fatal = match step {
        SetupStep::SetupDebugMessenger => false,
        _ => true,
    };
    if !succeeded && fatal {
        SetupAction::Abort
    } else {
        match next_setup_step(step, validation) {
            Some(next) => SetupAction::Perform(next),
            None => SetupAction::Run,
        }
    }
}

/// Every step comes after all the steps whose results it uses, and leaving
/// out the diagnostic steps takes nothing away that a later step uses.
pub proof fn lemma_setup_respects_dependencies(step: SetupStep, i: int)
    requires
        0 <= i < step.needs().len(),
    ensures
        step.needs()[i].position() < step.position(),
        !step.for_validation_only() ==> !step.needs()[i].for_validation_only(),
{
}

/// The sequence visits the steps one place at a time: a step's successor
/// stands exactly one place after it, and no two steps share a place.
pub proof fn lemma_setup_order_is_total(a: SetupStep, b: SetupStep)
    ensures
        a.successor() matches Some(next) ==> next.position() == a.position() + 1,
        a.position() < 24,
        a.position() == b.position() ==> a == b,
{
}

/// A kind of object the renderer holds and must give back at exit.
#[derive(Clone, Copy, Debug, PartialEq, Eq, Structural)]
pub enum Resource {
    ImageAvailableSemaphores,
    RenderFinishedSemaphores,
    InFlightFences,
    CommandPool,
    Pipeline,
    PipelineLayout,
    RenderPass,
    ShaderModule,
    Framebuffers,
    ImageViews,
    Swapchain,
    TextureSampler,
    TextureImageView,
    TextureImage,
    TextureMemory,
    /// Each per-frame uniform buffer, followed by its memory.
    UniformBuffers,
    DescriptorPool,
    DescriptorSetLayout,
    IndexBuffer,
    IndexMemory,
    VertexBuffer,
    VertexMemory,
    Device,
    Surface,
    DebugMessenger,
    Instance,
}

/// One step of taking the renderer down.
#[derive(Clone, Copy, Debug, PartialEq, Eq, Structural)]
pub enum TeardownStep {
    /// Wait until the device has finished all work.
    WaitDeviceIdle,
    /// Destroy or free every object of this kind.
    Release(Resource),
}

impl Resource {
    /// The place of the resource in the order of release, counted from zero.
    pub open spec fn release_position(self) -> nat {
        match self {
            Resource::ImageAvailableSemaphores => 0,
            Resource::RenderFinishedSemaphores => 1,
            Resource::InFlightFences => 2,
            Resource::CommandPool => 3,
            Resource::Pipeline => 4,
            Resource::PipelineLayout => 5,
            Resource::RenderPass => 6,
            Resource::ShaderModule => 7,
            Resource::Framebuffers => 8,
            Resource::ImageViews => 9,
            Resource::Swapchain => 10,
            Resource::TextureSampler => 11,
            Resource::TextureImageView => 12,
            Resource::TextureImage => 13,
            Resource::TextureMemory => 14,
            Resource::UniformBuffers => 15,
            Resource::DescriptorPool => 16,
            Resource::DescriptorSetLayout => 17,
            Resource::IndexBuffer => 18,
            Resource::IndexMemory => 19,
            Resource::VertexBuffer => 20,
            Resource::VertexMemory => 21,
            Resource::Device => 22,
            Resource::Surface => 23,
            Resource::DebugMessenger => 24,
            Resource::Instance => 25,
        }
    }

    /// The resource was made from the logical device and dies with it.
    pub open spec fn is_device_child(self) -> bool {
        self.release_position() < Resource::Device.release_position()
    }

    /// This resource must be released while `other` still exists: `other` is
    /// what this one was made from, or the memory bound to it.
    pub open spec fn depends_on(self, other: Resource) -> bool {
        ||| other == Resource::Instance && self != Resource::Instance
        ||| other == Resource::Device && self.is_device_child()
        ||| self == Resource::Pipeline && other == Resource::PipelineLayout
        ||| self == Resource::PipelineLayout && other == Resource::DescriptorSetLayout
        ||| self == Resource::Framebuffers && other == Resource::ImageViews
        ||| self == Resource::ImageViews && other == Resource::Swapchain
        ||| self == Resource::Swapchain && other == Resource::Surface
        ||| self == Resource::TextureImageView && other == Resource::TextureImage
        ||| self == Resource::TextureImage && other == Resource::TextureMemory
        ||| self == Resource::DescriptorPool && other == Resource::DescriptorSetLayout
        ||| self == Resource::IndexBuffer && other == Resource::IndexMemory
        ||| self == Resource::VertexBuffer && other == Resource::VertexMemory
    }
}

/// The steps that take down everything made from the logical device, the
/// device itself and the surface, after the device has gone idle.
pub open spec fn device_teardown_steps() -> Seq<TeardownStep> {
    seq![
        TeardownStep::WaitDeviceIdle,
        TeardownStep::Release(Resource::ImageAvailableSemaphores),
        TeardownStep::Release(Resource::RenderFinishedSemaphores),
        TeardownStep::Release(Resource::InFlightFences),
        TeardownStep::Release(Resource::CommandPool),
        TeardownStep::Release(Resource::Pipeline),
        TeardownStep::Release(Resource::PipelineLayout),
        TeardownStep::Release(Resource::RenderPass),
        TeardownStep::Release(Resource::ShaderModule),
        TeardownStep::Release(Resource::Framebuffers),
        TeardownStep::Release(Resource::ImageViews),
        TeardownStep::Release(Resource::Swapchain),
        TeardownStep::Release(Resource::TextureSampler),
        TeardownStep::Release(Resource::TextureImageView),
        TeardownStep::Release(Resource::TextureImage),
        TeardownStep::Release(Resource::TextureMemory),
        TeardownStep::Release(Resource::UniformBuffers),
        TeardownStep::Release(Resource::DescriptorPool),
        TeardownStep::Release(Resource::DescriptorSetLayout),
        TeardownStep::Release(Resource::IndexBuffer),
        TeardownStep::Release(Resource::IndexMemory),
        TeardownStep::Release(Resource::VertexBuffer),
        TeardownStep::Release(Resource::VertexMemory),
        TeardownStep::Release(Resource::Device),
        TeardownStep::Release(Resource::Surface),
    ]
}

/// The steps of taking the renderer down: the wait for the idle device, then
/// one release per kind of resource held. The debug messenger is released
/// only if there is one.
pub open spec fn teardown_steps(has_debug_messenger: bool) -> Seq<TeardownStep> {
    device_teardown_steps() + (if has_debug_messenger {
        seq![TeardownStep::Release(Resource::DebugMessenger)]
    } else {
        seq![]
    }) + seq![TeardownStep::Release(Resource::Instance)]
}

/// The index in `teardown_steps` at which `resource` is released.
pub open spec fn release_index(resource: Resource, has_debug_messenger: bool) -> int {
    if resource == Resource::Instance && !has_debug_messenger {
        25
    } else {
        (resource.release_position() + 1) as int
    }
}

/// Lists the steps of taking the renderer down.
pub fn plan_teardown(has_debug_messenger: bool) -> (steps: Vec<TeardownStep>)
    ensures
        steps@ == teardown_steps(has_debug_messenger),
{
    let mut steps: Vec<TeardownStep> = Vec::new();
    steps.push(TeardownStep::WaitDeviceIdle);
    steps.push(TeardownStep::Release(Resource::ImageAvailableSemaphores));
    steps.push(TeardownStep::Release(Resource::RenderFinishedSemaphores));
    steps.push(TeardownStep::Release(Resource::InFlightFences));
    steps.push(TeardownStep::Release(Resource::CommandPool));
    steps.push(TeardownStep::Release(Resource::Pipeline));
    steps.push(TeardownStep::Release(Resource::PipelineLayout));
    steps.push(TeardownStep::Release(Resource::RenderPass));
    steps.push(TeardownStep::Release(Resource::ShaderModule));
    steps.push(TeardownStep::Release(Resource::Framebuffers));
    steps.push(TeardownStep::Release(Resource::ImageViews));
    steps.push(TeardownStep::Release(Resource::Swapchain));
    steps.push(TeardownStep::Release(Resource::TextureSampler));
    steps.push(TeardownStep::Release(Resource::TextureImageView));
    steps.push(TeardownStep::Release(Resource::TextureImage));
    steps.push(TeardownStep::Release(Resource::TextureMemory));
    steps.push(TeardownStep::Release(Resource::UniformBuffers));
    steps.push(TeardownStep::Release(Resource::DescriptorPool));
    steps.push(TeardownStep::Release(Resource::DescriptorSetLayout));
    steps.push(TeardownStep::Release(Resource::IndexBuffer));
    steps.push(TeardownStep::Release(Resource::IndexMemory));
    steps.push(TeardownStep::Release(Resource::VertexBuffer));
    steps.push(TeardownStep::Release(Resource::VertexMemory));
    steps.push(TeardownStep::Release(Resource::Device));
    steps.push(TeardownStep::Release(Resource::Surface));
    if has_debug_messenger {
        steps.push(TeardownStep::Release(Resource::DebugMessenger));
    }
    steps.push(TeardownStep::Release(Resource::Instance));
    steps
}

/// Taking down starts with the wait for the idle device and then releases
/// every kind of resource held exactly once, at the place `release_index`
/// names.
pub proof fn lemma_teardown_releases_everything(has_debug_messenger: bool, resource: Resource)
    ensures
        teardown_steps(has_debug_messenger)[0] == TeardownStep::WaitDeviceIdle,
        teardown_steps(has_debug_messenger).len() == if has_debug_messenger {
            27nat
        } else {
            26nat
        },
        has_debug_messenger || resource != Resource::DebugMessenger ==> {
            &&& 0 < release_index(resource, has_debug_messenger) < teardown_steps(
                has_debug_messenger,
            ).len()
            &&& teardown_steps(has_debug_messenger)[release_index(resource, has_debug_messenger)]
                == TeardownStep::Release(resource)
        },
        forall|i: int|
            0 <= i < teardown_steps(has_debug_messenger).len() && #[trigger] teardown_steps(
                has_debug_messenger,
            )[i] == TeardownStep::Release(resource) ==> i == release_index(
                resource,
                has_debug_messenger,
            ),
{
}

/// Nothing is released before what depends on it: of two resources held, the
/// one that depends on the other is released earlier, and both after the
/// device has gone idle.
pub proof fn lemma_teardown_respects_dependencies(
    has_debug_messenger: bool,
    dependant: Resource,
    base: Resource,
)
    requires
        dependant.depends_on(base),
        has_debug_messenger || dependant != Resource::DebugMessenger,
    ensures
        0 < release_index(dependant, has_debug_messenger) < release_index(
            base,
            has_debug_messenger,
        ),
{
}

} // verus!
