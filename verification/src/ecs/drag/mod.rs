//! Window dragging: per-entity drag settings and constraints, the drag state
//! machine driven by the window procedure, the accumulator that carries its
//! results to the ECS thread, and the window context carried back.

pub mod accumulator;
pub mod context;
pub mod events;
pub mod state;
pub mod tick;

pub use accumulator::{DragAccumulator, DragAccumulatorView, DragTransition, FlushResult};
pub use context::WindowDragContext;
pub use events::{
    DragEndEvent, DragEvent, DragStartEvent, DragTransitionEvent, drag_move_event,
    initial_window_position, start_context, transition_event,
};
pub use state::{
    DragState, cancel_dragging, check_threshold, end_dragging, reset_to_idle, start_dragging,
    start_preparing, start_preparing_at, update_dragging,
};

use vstd::prelude::*;

verus! {

/// Per-entity drag settings.
#[derive(Clone, Debug, PartialEq, Eq, Structural)]
pub struct DragConfig {
    /// Distance (physical pixels) the pointer must travel before a drag starts.
    pub threshold: i32,
    /// Whether dragging is enabled.
    pub enabled: bool,
    /// Whether the window procedure moves the window itself while dragging.
    pub move_window: bool,
    /// Buttons that may start a drag.
    pub left_button: bool,
    pub right_button: bool,
    pub middle_button: bool,
}

impl Default for DragConfig {
    /// A 5-pixel threshold, enabled, moving the window, left button only.
    fn default() -> (c: Self)
        ensures
            c.threshold == 5,
            c.enabled,
            c.move_window,
            c.left_button,
            !c.right_button,
            !c.middle_button,
    {
        DragConfig {
            threshold: 5,
            enabled: true,
            move_window: true,
            left_button: true,
            right_button: false,
            middle_button: false,
        }
    }
}

/// Bounds (physical pixels) that a dragged position is kept within; a
/// missing bound does not constrain.
#[derive(Clone, Copy, Debug, PartialEq, Eq, Structural)]
pub struct DragConstraint {
    pub min_x: Option<i32>,
    pub max_x: Option<i32>,
    pub min_y: Option<i32>,
    pub max_y: Option<i32>,
}

/// `v` raised to `min` (when given), then lowered to `max` (when given).
pub open spec fn clamp_between(v: int, min: Option<i32>, max: Option<i32>) -> int {
    let raised = match min {
        Some(m) => if v < m { m as int } else { v },
        None => v,
    };
    match max {
        Some(m) => if raised > m { m as int } else { raised },
        None => raised,
    }
}

/// Executable form of [`clamp_between`].
fn clamp_coordinate(v: i32, min: Option<i32>, max: Option<i32>) -> (r: i32)
    ensures
        r == clamp_between(v as int, min, max),
{
    let raised = match min {
        Some(m) => if v < m { m } else { v },
        None => v,
    };
    match max {
        Some(m) => if raised > m { m } else { raised },
        None => raised,
    }
}

impl DragConstraint {
    /// The position `(x, y)` brought within the constraint: each coordinate
    /// is raised to its minimum, then lowered to its maximum.
    pub fn apply(&self, x: i32, y: i32) -> (r: (i32, i32))
        ensures
            r.0 == clamp_between(x as int, self.min_x, self.max_x),
            r.1 == clamp_between(y as int, self.min_y, self.max_y),
    {
        (clamp_coordinate(x, self.min_x, self.max_x), clamp_coordinate(y, self.min_y, self.max_y))
    }
}

/// Applying a constraint twice gives the same position as applying it once.
pub proof fn lemma_constraint_idempotent(c: DragConstraint, x: int, y: int)
    ensures
        clamp_between(clamp_between(x, c.min_x, c.max_x), c.min_x, c.max_x) == clamp_between(
            x,
            c.min_x,
            c.max_x,
        ),
        clamp_between(clamp_between(y, c.min_y, c.max_y), c.min_y, c.max_y) == clamp_between(
            y,
            c.min_y,
            c.max_y,
        ),
{
}

/// A constrained coordinate lies within its bounds whenever the bounds are
/// consistent (minimum not above maximum), and a coordinate already within
/// its bounds is left unchanged.
pub proof fn lemma_constraint_within_bounds(v: int, min: Option<i32>, max: Option<i32>)
    requires
        min matches Some(lo) && max matches Some(hi) ==> lo <= hi,
    ensures
        min matches Some(lo) ==> lo <= clamp_between(v, min, max),
        max matches Some(hi) ==> clamp_between(v, min, max) <= hi,
        (min matches Some(lo) ==> lo <= v) && (max matches Some(hi) ==> v <= hi) ==> clamp_between(
            v,
            min,
            max,
        ) == v,
{
}

} // verus!
