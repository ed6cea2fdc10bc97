//! Objects of the windowing layer.
//!
//! The windowing layer owns its windows, monitors and cursors and hands them
//! out by reference only. The types here give those references something to
//! point at; none of them has any content of its own.

use vstd::prelude::*;

verus! {

/// Opaque monitor object.
pub struct GLFWmonitor;

/// Opaque window object.
pub struct GLFWwindow;

/// Opaque cursor object.
pub struct GLFWcursor;

/// The window has no drawable area, as while it is minimised: one of its
/// sides is zero.
pub open spec fn size_is_zero(framebuffer_size: (i32, i32)) -> bool {
    framebuffer_size.0 == 0 || framebuffer_size.1 == 0
}

/// Whether the window has no drawable area.
pub fn is_minimized(framebuffer_size: (i32, i32)) -> (zero: bool)
    ensures
        zero == size_is_zero(framebuffer_size),
{
    framebuffer_size.0 == 0 || framebuffer_size.1 == 0
}

} // verus!
