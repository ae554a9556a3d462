//! The window information a drag needs on the window-procedure thread,
//! written by the ECS thread when a drag starts.

use crate::ecs::drag::DragConstraint;
use crate::ecs::pointer::PhysicalPoint;
use vstd::prelude::*;

verus! {

/// Window information for a drag in progress.
#[derive(Debug, Clone, Copy, PartialEq, Eq, Structural)]
pub struct WindowDragContext {
    /// Raw Win32 handle of the dragged window.
    pub hwnd: Option<isize>,
    /// Window position (including its frame, screen coordinates) when the drag started.
    pub initial_window_pos: Option<PhysicalPoint>,
    /// Cached `DragConfig::move_window` of the dragged entity.
    pub move_window: bool,
    /// Cached `DragConstraint` of the dragged entity.
    pub constraint: Option<DragConstraint>,
}

/// The empty context: no window, no position, no window moving, no constraint.
pub open spec fn empty_context() -> WindowDragContext {
    WindowDragContext { hwnd: None, initial_window_pos: None, move_window: false, constraint: None }
}

impl Default for WindowDragContext {
    fn default() -> (c: Self)
        ensures
            c == empty_context(),
    {
        WindowDragContext { hwnd: None, initial_window_pos: None, move_window: false, constraint: None }
    }
}

impl WindowDragContext {
    /// Resets the context to the empty one.
    pub fn clear(&mut self)
        ensures
            *final(self) == empty_context(),
    {
        self.hwnd = None;
        self.initial_window_pos = None;
        self.move_window = false;
        self.constraint = None;
    }
}

} // verus!
