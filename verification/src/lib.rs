//! Decision logic of a small Vulkan renderer: which device to use, how to
//! configure the swapchain, and in which order the frame loop issues its work.
//!
//! Everything here works on plain values. Driver and window-system calls are
//! made by the caller, which feeds their results in and carries out the actions
//! that come back.

pub mod result;
pub mod surface;
pub mod swapchain;
pub mod flags;
pub mod device;
pub mod window;
pub mod frame;
pub mod recreate;
pub mod upload;
pub mod lifecycle;
pub mod instance;
pub mod render;
pub mod resources;
pub mod shading;
pub mod timing;
pub mod run;
