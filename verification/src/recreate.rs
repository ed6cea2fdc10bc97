//! Rebuilding the swapchain after the surface has changed.
//!
//! The rebuild waits while the window has no drawable area, lets the device
//! go idle, takes down what hangs on the old swapchain in order of
//! dependence, and builds it up again in the opposite order. As with the
//! frame loop, the caller does the work and reports back.

use vstd::prelude::*;
use crate::device::QueueFamilyIndices;
use crate::surface::{SurfaceCapabilities, SurfaceFormat};
use crate::swapchain::{lemma_plan_is_valid_iff_extent_has_area, plannable, planned_swapchain};
use crate::window::{is_minimized, size_is_zero};

verus! {

/// The step of a rebuild that is being waited on.
#[derive(Clone, Copy, Debug, PartialEq, Eq, Structural)]
pub enum RecreateStage {
    /// No rebuild is under way.
    Idle,
    /// Waiting for the window's framebuffer size.
    CheckingSize,
    /// Blocked on the window system until something happens to the window.
    WaitingForEvents,
    /// Waiting for the device to go idle.
    WaitingIdle,
    /// Waiting for the old framebuffers to be destroyed.
    DestroyingFramebuffers,
    /// Waiting for the old image views to be destroyed.
    DestroyingImageViews,
    /// Waiting for the old swapchain to be destroyed.
    DestroyingSwapchain,
    /// Waiting for the new swapchain.
    CreatingSwapchain,
    /// Waiting for the new image views.
    CreatingImageViews,
    /// Waiting for the new framebuffers.
    CreatingFramebuffers,
    /// A step failed. Nothing leads out of this stage.
    Failed,
}

/// What the caller reports to a rebuild.
#[derive(Clone, Copy, Debug, PartialEq, Eq, Structural)]
pub enum RecreateEvent {
    /// The swapchain is to be rebuilt.
    Begin,
    /// The window's framebuffer has this size in pixels.
    FramebufferSize { width: i32, height: i32 },
    /// The wait on the window system returned.
    EventsArrived,
    /// The device is idle.
    DeviceIdle,
    /// The old framebuffers are destroyed.
    FramebuffersDestroyed,
    /// The old image views are destroyed.
    ImageViewsDestroyed,
    /// The old swapchain is destroyed.
    SwapchainDestroyed,
    /// The new swapchain exists.
    SwapchainCreated,
    /// The new image views exist.
    ImageViewsCreated,
    /// The new framebuffers exist.
    FramebuffersCreated,
    /// The last action failed.
    Failed,
}

/// What a rebuild asks the caller to do next.
#[derive(Clone, Copy, Debug, PartialEq, Eq, Structural)]
pub enum RecreateAction {
    /// Report the window's framebuffer size.
    QueryFramebufferSize,
    /// Block on the window system until an event arrives.
    WaitEvents,
    /// Wait for the device to go idle.
    WaitDeviceIdle,
    /// Destroy the framebuffers of the old swapchain.
    DestroyFramebuffers,
    /// Destroy the image views of the old swapchain.
    DestroyImageViews,
    /// Destroy the old swapchain.
    DestroySwapchain,
    /// Create a swapchain for a window whose framebuffer has the given size.
    CreateSwapchain { width: i32, height: i32 },
    /// Create one image view per image of the new swapchain.
    CreateImageViews,
    /// Create one framebuffer per image view.
    CreateFramebuffers,
    /// The rebuild is complete.
    Finished,
    /// Give up with an error.
    Abort,
}

/// What stands of the swapchain and of what hangs on it.
#[derive(Clone, Copy, Debug, PartialEq, Eq, Structural)]
pub struct SwapchainParts {
    /// The swapchain exists.
    pub swapchain: bool,
    /// The image views of the swapchain's images exist.
    pub image_views: bool,
    /// The framebuffers on those image views exist.
    pub framebuffers: bool,
}

impl SwapchainParts {
    /// Nothing stands without what it hangs on: framebuffers only with
    /// image views, image views only with the swapchain.
    pub open spec fn consistent(self) -> bool {
        (self.framebuffers ==> self.image_views) && (self.image_views ==> self.swapchain)
    }

    /// Swapchain, image views and framebuffers all stand.
    pub open spec fn complete(self) -> bool {
        self.swapchain && self.image_views && self.framebuffers
    }
}

impl RecreateStage {
    /// What stands while the rebuild waits at this stage. Up to the
    /// destruction of the framebuffers everything does; then the parts go one
    /// by one, dependants first, and come back in the opposite order.
    pub open spec fn holds(self) -> SwapchainParts {
        match self {
            RecreateStage::DestroyingImageViews => SwapchainParts {
                swapchain: true,
                image_views: true,
                framebuffers: false,
            },
            RecreateStage::DestroyingSwapchain => SwapchainParts {
                swapchain: true,
                image_views: false,
                framebuffers: false,
            },
            RecreateStage::CreatingSwapchain => SwapchainParts {
                swapchain: false,
                image_views: false,
                framebuffers: false,
            },
            RecreateStage::CreatingImageViews => SwapchainParts {
                swapchain: true,
                image_views: false,
                framebuffers: false,
            },
            RecreateStage::CreatingFramebuffers => SwapchainParts {
                swapchain: true,
                image_views: true,
                framebuffers: false,
            },
            _ => SwapchainParts { swapchain: true, image_views: true, framebuffers: true },
        }
    }
}

/// A rebuild as a mathematical value.
pub ghost struct RecreationModel {
    pub stage: RecreateStage,
    /// The framebuffer size that ended the wait for a drawable window.
    pub framebuffer_size: (i32, i32),
    /// What stands of the swapchain and of what hangs on it. After a failure
    /// this is what stood when the failing step was asked for.
    pub parts: SwapchainParts,
}

impl RecreationModel {
    /// The device or the swapchain is touched only for a window with a
    /// drawable area: from the wait for the idle device on, the size on
    /// record has no zero side. And what stands is what the stage calls for,
    /// never a part without what it hangs on.
    pub open spec fn inv(self) -> bool {
        &&& self.parts.consistent()
        &&& self.stage != RecreateStage::Failed ==> self.parts == self.stage.holds()
        &&& match self.stage {
            RecreateStage::Idle | RecreateStage::CheckingSize | RecreateStage::WaitingForEvents
            | RecreateStage::Failed => true,
            _ => !size_is_zero(self.framebuffer_size),
        }
    }

    /// The model at `stage`, with the parts standing that the stage calls for.
    pub open spec fn at(self, stage: RecreateStage) -> RecreationModel {
        RecreationModel { stage, parts: stage.holds(), ..self }
    }

    /// The model after a failure: what stood, stands.
    pub open spec fn failed(self) -> RecreationModel {
        RecreationModel { stage: RecreateStage::Failed, ..self }
    }

    /// The rebuild after `event`, and the action it asks for.
    ///
    /// While the window reports a size with a zero side the rebuild
    /// alternates between asking for the size and blocking on the window
    /// system. After that the steps follow one another in a fixed order. A
    /// failure, or an event that the stage does not expect, is final and
    /// leaves standing what stood.
    pub open spec fn step(self, event: RecreateEvent) -> (RecreationModel, RecreateAction) {
        match (self.stage, event) {
            (RecreateStage::Idle, RecreateEvent::Begin) => (
                self.at(RecreateStage::CheckingSize),
                RecreateAction::QueryFramebufferSize,
            ),
            (RecreateStage::CheckingSize, RecreateEvent::FramebufferSize { width, height }) => {
                if size_is_zero((width, height)) {
                    (self.at(RecreateStage::WaitingForEvents), RecreateAction::WaitEvents)
                } else {
                    (
                        RecreationModel {
                            framebuffer_size: (width, height),
                            ..self.at(RecreateStage::WaitingIdle)
                        },
                        RecreateAction::WaitDeviceIdle,
                    )
                }
            },
            (RecreateStage::WaitingForEvents, RecreateEvent::EventsArrived) => (
                self.at(RecreateStage::CheckingSize),
                RecreateAction::QueryFramebufferSize,
            ),
            (RecreateStage::WaitingIdle, RecreateEvent::DeviceIdle) => (
                self.at(RecreateStage::DestroyingFramebuffers),
                RecreateAction::DestroyFramebuffers,
            ),
            (RecreateStage::DestroyingFramebuffers, RecreateEvent::FramebuffersDestroyed) => (
                self.at(RecreateStage::DestroyingImageViews),
                RecreateAction::DestroyImageViews,
            ),
            (RecreateStage::DestroyingImageViews, RecreateEvent::ImageViewsDestroyed) => (
                self.at(RecreateStage::DestroyingSwapchain),
                RecreateAction::DestroySwapchain,
            ),
            (RecreateStage::DestroyingSwapchain, RecreateEvent::SwapchainDestroyed) => (
                self.at(RecreateStage::CreatingSwapchain),
                RecreateAction::CreateSwapchain {
                    width: self.framebuffer_size.0,
                    height: self.framebuffer_size.1,
                },
            ),
            (RecreateStage::CreatingSwapchain, RecreateEvent::SwapchainCreated) => (
                self.at(RecreateStage::CreatingImageViews),
                RecreateAction::CreateImageViews,
            ),
            (RecreateStage::CreatingImageViews, RecreateEvent::ImageViewsCreated) => (
                self.at(RecreateStage::CreatingFramebuffers),
                RecreateAction::CreateFramebuffers,
            ),
            (RecreateStage::CreatingFramebuffers, RecreateEvent::FramebuffersCreated) => (
                self.at(RecreateStage::Idle),
                RecreateAction::Finished,
            ),
            _ => (self.failed(), RecreateAction::Abort),
        }
    }
}

/// The bookkeeping of one swapchain rebuild after another.
pub struct SwapchainRecreation {
    stage: RecreateStage,
    framebuffer_size: (i32, i32),
    parts: SwapchainParts,
}

impl View for SwapchainRecreation {
    type V = RecreationModel;

    closed spec fn view(&self) -> RecreationModel {
        RecreationModel {
            stage: self.stage,
            framebuffer_size: self.framebuffer_size,
            parts: self.parts,
        }
    }
}

/// What stands while a rebuild waits at `stage`.
fn parts_held(stage: RecreateStage) -> (parts: SwapchainParts)
    ensures
        parts == stage.holds(),
{
    match stage {
        RecreateStage::DestroyingImageViews | RecreateStage::CreatingFramebuffers => SwapchainParts {
            swapchain: true,
            image_views: true,
            framebuffers: false,
        },
        RecreateStage::DestroyingSwapchain | RecreateStage::CreatingImageViews => SwapchainParts {
            swapchain: true,
            image_views: false,
            framebuffers: false,
        },
        RecreateStage::CreatingSwapchain => SwapchainParts {
            swapchain: false,
            image_views: false,
            framebuffers: false,
        },
        _ => SwapchainParts { swapchain: true, image_views: true, framebuffers: true },
    }
}

impl SwapchainRecreation {
    /// The model of this rebuild keeps its invariant.
    pub closed spec fn wf(&self) -> bool {
        self@.inv()
    }

    /// A well-formed rebuild keeps the invariant of its model.
    pub proof fn lemma_well_formed(&self)
        requires
            self.wf(),
        ensures
            self@.inv(),
    {
    }

    /// A rebuild that has not begun, for a swapchain that stands complete.
    pub fn new() -> (recreation: SwapchainRecreation)
        ensures
            recreation.wf(),
            recreation@ == (RecreationModel {
                stage: RecreateStage::Idle,
                framebuffer_size: (0i32, 0i32),
                parts: RecreateStage::Idle.holds(),
            }),
    {
        SwapchainRecreation {
            stage: RecreateStage::Idle,
            framebuffer_size: (0, 0),
            parts: parts_held(RecreateStage::Idle),
        }
    }

    /// The stage the rebuild has reached.
    pub fn stage(&self) -> (stage: RecreateStage)
        ensures
            stage == self@.stage,
    {
        self.stage
    }

    /// What stands of the swapchain and of what hangs on it.
    pub fn parts(&self) -> (parts: SwapchainParts)
        ensures
            parts == self@.parts,
    {
        self.parts
    }

    /// Takes in what the caller reports and says what to do next.
    pub fn step(&mut self, event: RecreateEvent) -> (action: RecreateAction)
        requires
            old(self).wf(),
        ensures
            final(self).wf(),
            (final(self)@, action) == old(self)@.step(event),
    {
        let (stage, action) = match (self.stage, event) {
            (RecreateStage::Idle, RecreateEvent::Begin) => (
                RecreateStage::CheckingSize,
                RecreateAction::QueryFramebufferSize,
            ),
            (RecreateStage::CheckingSize, RecreateEvent::FramebufferSize { width, height }) => {
                if is_minimized((width, height)) {
                    (RecreateStage::WaitingForEvents, RecreateAction::WaitEvents)
                } else {
                    self.framebuffer_size = (width, height);
                    (RecreateStage::WaitingIdle, RecreateAction::WaitDeviceIdle)
                }
            },
            (RecreateStage::WaitingForEvents, RecreateEvent::EventsArrived) => (
                RecreateStage::CheckingSize,
                RecreateAction::QueryFramebufferSize,
            ),
            (RecreateStage::WaitingIdle, RecreateEvent::DeviceIdle) => (
                RecreateStage::DestroyingFramebuffers,
                RecreateAction::DestroyFramebuffers,
            ),
            (RecreateStage::DestroyingFramebuffers, RecreateEvent::FramebuffersDestroyed) => (
                RecreateStage::DestroyingImageViews,
                RecreateAction::DestroyImageViews,
            ),
            (RecreateStage::DestroyingImageViews, RecreateEvent::ImageViewsDestroyed) => (
                RecreateStage::DestroyingSwapchain,
                RecreateAction::DestroySwapchain,
            ),
            (RecreateStage::DestroyingSwapchain, RecreateEvent::SwapchainDestroyed) => (
                RecreateStage::CreatingSwapchain,
                RecreateAction::CreateSwapchain {
                    width: self.framebuffer_size.0,
                    height: self.framebuffer_size.1,
                },
            ),
            (RecreateStage::CreatingSwapchain, RecreateEvent::SwapchainCreated) => (
                RecreateStage::CreatingImageViews,
                RecreateAction::CreateImageViews,
            ),
            (RecreateStage::CreatingImageViews, RecreateEvent::ImageViewsCreated) => (
                RecreateStage::CreatingFramebuffers,
                RecreateAction::CreateFramebuffers,
            ),
            (RecreateStage::CreatingFramebuffers, RecreateEvent::FramebuffersCreated) => (
                RecreateStage::Idle,
                RecreateAction::Finished,
            ),
            _ => (RecreateStage::Failed, RecreateAction::Abort),
        };
        match stage {
            RecreateStage::Failed => {},
            _ => {
                self.parts = parts_held(stage);
            },
        }
        self.stage = stage;
        action
    }
}

/// Every step keeps the rebuild's invariant.
pub proof fn lemma_recreate_step_keeps_invariant(model: RecreationModel, event: RecreateEvent)
    requires
        model.inv(),
    ensures
        model.step(event).0.inv(),
{
}

/// A minimised window blocks the rebuild: a size with a zero side is
/// answered by a wait on the window system and by nothing else, and after
/// that wait the size is asked for again.
pub proof fn lemma_minimized_window_blocks(model: RecreationModel, width: i32, height: i32)
    requires
        model.stage == RecreateStage::CheckingSize,
        width == 0 || height == 0,
    ensures
        model.step(RecreateEvent::FramebufferSize { width, height }) == (
            model.at(RecreateStage::WaitingForEvents),
            RecreateAction::WaitEvents,
        ),
        model.at(RecreateStage::WaitingForEvents).step(RecreateEvent::EventsArrived) == (
            model.at(RecreateStage::CheckingSize),
            RecreateAction::QueryFramebufferSize,
        ),
{
}

/// No swapchain is created for a window without drawable area, nor before
/// the old one is gone: the order to create one comes only in answer to the
/// old swapchain's destruction, and the size it carries has no zero side.
pub proof fn lemma_swapchain_created_for_drawable_window(
    model: RecreationModel,
    event: RecreateEvent,
)
    requires
        model.inv(),
    ensures
        model.step(event).1 matches RecreateAction::CreateSwapchain { width, height } ==> {
            &&& width != 0 && height != 0
            &&& model.stage == RecreateStage::DestroyingSwapchain
            &&& event == RecreateEvent::SwapchainDestroyed
        },
        model.step(event).1 == RecreateAction::WaitDeviceIdle ==> model.stage
            == RecreateStage::CheckingSize,
        model.step(event).1 == RecreateAction::DestroyFramebuffers ==> model.stage
            == RecreateStage::WaitingIdle,
        model.step(event).1 == RecreateAction::DestroyImageViews ==> model.stage
            == RecreateStage::DestroyingFramebuffers,
        model.step(event).1 == RecreateAction::DestroySwapchain ==> model.stage
            == RecreateStage::DestroyingImageViews,
        model.step(event).1 == RecreateAction::CreateImageViews ==> model.stage
            == RecreateStage::CreatingSwapchain,
        model.step(event).1 == RecreateAction::CreateFramebuffers ==> model.stage
            == RecreateStage::CreatingImageViews,
        model.step(event).1 == RecreateAction::Finished ==> model.stage
            == RecreateStage::CreatingFramebuffers,
{
}

/// What a rebuild leaves behind. One that finishes leaves swapchain, image
/// views and framebuffers standing, and only such a one returns to rest.
/// One that fails leaves standing exactly what stood when the failing step
/// was asked for: after a failed wait for the device everything, after a
/// failed creation what was created before it, and never a part without
/// what it hangs on.
pub proof fn lemma_rebuild_leaves_consistent_parts(model: RecreationModel, event: RecreateEvent)
    requires
        model.inv(),
    ensures
        model.step(event).0.parts.consistent(),
        model.step(event).1 == RecreateAction::Finished ==> model.step(event).0.parts.complete(),
        model.step(event).0.stage == RecreateStage::Idle ==> model.step(event).0.parts.complete(),
        model.step(event).1 == RecreateAction::Abort ==> model.step(event).0.parts == model.parts,
        model.step(event).1 == RecreateAction::Abort && model.stage != RecreateStage::Failed
            ==> model.step(event).0.parts == model.stage.holds(),
{
}

/// A rebuild asks for no swapchain without area: the swapchain planned for
/// the size that the order to create one carries is valid, from any plannable
/// report of a surface that offers an area. A surface that offers none, by
/// reporting a current extent with a zero side or allowing no larger one,
/// can only have a swapchain without area, whatever the window's size.
pub proof fn lemma_rebuilt_swapchain_is_valid(
    model: RecreationModel,
    event: RecreateEvent,
    width: i32,
    height: i32,
    capabilities: SurfaceCapabilities,
    formats: Seq<SurfaceFormat>,
    present_modes: Seq<i32>,
    indices: QueueFamilyIndices,
)
    requires
        model.inv(),
        model.step(event).1 == (RecreateAction::CreateSwapchain { width, height }),
        plannable(capabilities, formats, indices),
    ensures
        planned_swapchain(capabilities, formats, present_modes, (width, height), indices).is_valid()
            <==> capabilities.offers_area(),
{
    lemma_plan_is_valid_iff_extent_has_area(
        capabilities,
        formats,
        present_modes,
        (width, height),
        indices,
    );
}

} // verus!
