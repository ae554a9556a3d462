//! The drag state machine of the window procedure.
//!
//! A drag goes `Idle → Preparing` (button pressed) `→ JustStarted`
//! (threshold reached) `→ Dragging` (pointer moves) `→ JustEnded` (button
//! released or drag cancelled) `→ Idle` (after the ECS tick has dispatched
//! the end). Only one drag runs at a time.

use crate::ecs::drag::{DragConstraint, WindowDragContext};
use crate::ecs::pointer::PhysicalPoint;
use crate::outside::instant_now;
use bevy_ecs::entity::Entity;
use std::time::Instant;
use vstd::prelude::*;

verus! {

/// The state of the (single) drag.
#[derive(Debug, Clone)]
pub enum DragState {
    /// No drag.
    Idle,
    /// The button is down, the threshold has not been reached yet.
    Preparing {
        entity: Entity,
        /// Where the button went down (screen, physical pixels).
        start_pos: PhysicalPoint,
        start_time: Instant,
    },
    /// The threshold was just reached (lasts one frame).
    JustStarted {
        entity: Entity,
        start_pos: PhysicalPoint,
        current_pos: PhysicalPoint,
        start_time: Instant,
    },
    /// Dragging, threshold reached.
    Dragging {
        entity: Entity,
        start_pos: PhysicalPoint,
        current_pos: PhysicalPoint,
        /// The position before the last move.
        prev_pos: PhysicalPoint,
        start_time: Instant,
        /// Raw handle of the dragged window (0 when unknown).
        hwnd: isize,
        /// Window position when the drag started.
        initial_window_pos: PhysicalPoint,
        /// Whether the window procedure moves the window.
        move_window: bool,
        constraint: Option<DragConstraint>,
    },
    /// The drag just ended (lasts one frame).
    JustEnded {
        entity: Entity,
        /// Where the drag ended.
        position: PhysicalPoint,
        /// Whether it was cancelled rather than released.
        cancelled: bool,
    },
}

/// A button is held for a drag that has not ended.
pub open spec fn is_active(s: DragState) -> bool {
    s is Preparing || s is JustStarted || s is Dragging
}

/// The entity of the drag, for every state but `Idle`.
pub open spec fn drag_entity(s: DragState) -> Option<Entity> {
    match s {
        DragState::Idle => None,
        DragState::Preparing { entity, .. } => Some(entity),
        DragState::JustStarted { entity, .. } => Some(entity),
        DragState::Dragging { entity, .. } => Some(entity),
        DragState::JustEnded { entity, .. } => Some(entity),
    }
}

/// State after a button press on `entity` at `pos`, at time `time`: a new
/// drag is prepared unless one is already active.
pub open spec fn pressed(s: DragState, entity: Entity, pos: PhysicalPoint, time: Instant) -> DragState {
    if is_active(s) {
        s
    } else {
        DragState::Preparing { entity, start_pos: pos, start_time: time }
    }
}

/// State after the movement threshold is reached at `current_pos`.
pub open spec fn threshold_reached(s: DragState, current_pos: PhysicalPoint) -> DragState {
    match s {
        DragState::Preparing { entity, start_pos, start_time } => DragState::JustStarted {
            entity,
            start_pos,
            current_pos,
            start_time,
        },
        _ => s,
    }
}

/// State after the pointer moves to `current_pos`; `context` is the window
/// information published by the ECS thread, if it could be read.
pub open spec fn moved(s: DragState, current_pos: PhysicalPoint, context: Option<WindowDragContext>) -> DragState {
    match s {
        DragState::JustStarted { entity, start_pos, start_time, .. } => {
            let (hwnd, initial_window_pos, move_window, constraint) = match context {
                Some(ctx) => (
                    match ctx.hwnd {
                        Some(h) => h,
                        None => 0isize,
                    },
                    match ctx.initial_window_pos {
                        Some(p) => p,
                        None => PhysicalPoint { x: 0, y: 0 },
                    },
                    ctx.move_window,
                    ctx.constraint,
                ),
                None => (0isize, PhysicalPoint { x: 0, y: 0 }, false, None),
            };
            DragState::Dragging {
                entity,
                start_pos,
                current_pos,
                prev_pos: current_pos,
                start_time,
                hwnd,
                initial_window_pos,
                move_window,
                constraint,
            }
        },
        DragState::Dragging {
            entity,
            start_pos,
            current_pos: old_pos,
            start_time,
            hwnd,
            initial_window_pos,
            move_window,
            constraint,
            ..
        } => DragState::Dragging {
            entity,
            start_pos,
            current_pos,
            prev_pos: old_pos,
            start_time,
            hwnd,
            initial_window_pos,
            move_window,
            constraint,
        },
        _ => s,
    }
}

/// State after the button is released at `position` (or the drag ends with
/// `cancelled` set).
pub open spec fn released(s: DragState, position: PhysicalPoint, cancelled: bool) -> DragState {
    match s {
        DragState::Preparing { entity, .. } => DragState::JustEnded { entity, position, cancelled },
        DragState::JustStarted { entity, .. } => DragState::JustEnded { entity, position, cancelled },
        DragState::Dragging { entity, .. } => DragState::JustEnded { entity, position, cancelled },
        _ => s,
    }
}

/// State after a cancellation (Escape, `WM_CANCELMODE`): an active drag ends,
/// cancelled, at its start position.
pub open spec fn cancelled(s: DragState) -> DragState {
    match s {
        DragState::Preparing { entity, start_pos, .. } => DragState::JustEnded {
            entity,
            position: start_pos,
            cancelled: true,
        },
        DragState::JustStarted { entity, start_pos, .. } => DragState::JustEnded {
            entity,
            position: start_pos,
            cancelled: true,
        },
        DragState::Dragging { entity, start_pos, .. } => DragState::JustEnded {
            entity,
            position: start_pos,
            cancelled: true,
        },
        _ => s,
    }
}

/// State after the ECS tick dispatched the end of a drag.
pub open spec fn reset(s: DragState) -> DragState {
    match s {
        DragState::JustEnded { .. } => DragState::Idle,
        _ => s,
    }
}

/// Squared distance between two points.
pub open spec fn distance_sq(a: PhysicalPoint, b: PhysicalPoint) -> int {
    (a.x - b.x) * (a.x - b.x) + (a.y - b.y) * (a.y - b.y)
}

/// The threshold test is computed in `i32`: the differences, their squares
/// and sum, and the squared threshold must all fit.
pub open spec fn threshold_fits(s: DragState, current_pos: PhysicalPoint, threshold: i32) -> bool {
    match s {
        DragState::Preparing { start_pos, .. } => {
            let dx = current_pos.x - start_pos.x;
            let dy = current_pos.y - start_pos.y;
            &&& i32::MIN <= dx <= i32::MAX
            &&& i32::MIN <= dy <= i32::MAX
            &&& dx * dx + dy * dy <= i32::MAX
            &&& threshold * threshold <= i32::MAX
        },
        _ => true,
    }
}

/// Whether a preparing drag has moved far enough to start.
pub open spec fn threshold_met(s: DragState, current_pos: PhysicalPoint, threshold: i32) -> bool {
    match s {
        DragState::Preparing { start_pos, .. } => distance_sq(current_pos, start_pos) >= threshold
            * threshold,
        _ => false,
    }
}

/// Button press (`WM_LBUTTONDOWN`) at time `time`: prepares a drag of
/// `entity` from `pos`, unless a drag is already active.
pub fn start_preparing_at(state: &mut DragState, entity: Entity, pos: PhysicalPoint, time: Instant)
    ensures
        *final(state) == pressed(*old(state), entity, pos, time),
{
    match *state {
        DragState::Preparing { .. } | DragState::JustStarted { .. } | DragState::Dragging { .. } => {
        },
        _ => {
            *state = DragState::Preparing { entity, start_pos: pos, start_time: time };
        },
    }
}

/// Button press (`WM_LBUTTONDOWN`): prepares a drag of `entity` from `pos`,
/// stamped with the current time, unless a drag is already active.
pub fn start_preparing(state: &mut DragState, entity: Entity, pos: PhysicalPoint)
    ensures
        is_active(*old(state)) ==> *final(state) == *old(state),
        !is_active(*old(state)) ==> (*final(state) matches DragState::Preparing {
            entity: e,
            start_pos: p,
            ..
        } && e == entity && p == pos),
        exists|t: Instant| *final(state) == pressed(*old(state), entity, pos, t),
{
    let now = instant_now();
    start_preparing_at(state, entity, pos, now);
}

/// The threshold was reached at `current_pos`: a preparing drag starts.
pub fn start_dragging(state: &mut DragState, current_pos: PhysicalPoint)
    ensures
        *final(state) == threshold_reached(*old(state), current_pos),
{
    match *state {
        DragState::Preparing { entity, start_pos, start_time } => {
            *state = DragState::JustStarted { entity, start_pos, current_pos, start_time };
        },
        _ => {},
    }
}

/// Pointer move (`WM_MOUSEMOVE`) to `current_pos`. A just-started drag
/// becomes a drag, taking the window handle, initial window position, window
/// moving flag and constraint from `drag_context` (zero, origin, `false` and
/// none where missing); a drag records the move.
pub fn update_dragging(
    state: &mut DragState,
    current_pos: PhysicalPoint,
    drag_context: Option<WindowDragContext>,
)
    ensures
        *final(state) == moved(*old(state), current_pos, drag_context),
{
    match *state {
        DragState::JustStarted { entity, start_pos, start_time, .. } => {
            let (hwnd, initial_window_pos, move_window, constraint) = match drag_context {
                Some(ctx) => (
                    match ctx.hwnd {
                        Some(h) => h,
                        None => 0isize,
                    },
                    match ctx.initial_window_pos {
                        Some(p) => p,
                        None => PhysicalPoint { x: 0, y: 0 },
                    },
                    ctx.move_window,
                    ctx.constraint,
                ),
                None => (0isize, PhysicalPoint { x: 0, y: 0 }, false, None),
            };
            *state = DragState::Dragging {
                entity,
                start_pos,
                current_pos,
                prev_pos: current_pos,
                start_time,
                hwnd,
                initial_window_pos,
                move_window,
                constraint,
            };
        },
        DragState::Dragging {
            entity,
            start_pos,
            current_pos: old_pos,
            start_time,
            hwnd,
            initial_window_pos,
            move_window,
            constraint,
            ..
        } => {
            *state = DragState::Dragging {
                entity,
                start_pos,
                current_pos,
                prev_pos: old_pos,
                start_time,
                hwnd,
                initial_window_pos,
                move_window,
                constraint,
            };
        },
        _ => {},
    }
}

/// Button release (`WM_LBUTTONUP`) at `position`: an active drag ends there.
pub fn end_dragging(state: &mut DragState, position: PhysicalPoint, cancelled: bool)
    ensures
        *final(state) == released(*old(state), position, cancelled),
{
    match *state {
        DragState::Preparing { entity, .. }
        | DragState::JustStarted { entity, .. }
        | DragState::Dragging { entity, .. } => {
            *state = DragState::JustEnded { entity, position, cancelled };
        },
        _ => {},
    }
}

/// Cancellation (Escape, `WM_CANCELMODE`): an active drag ends, cancelled,
/// at its start position.
pub fn cancel_dragging(state: &mut DragState)
    ensures
        *final(state) == cancelled(*old(state)),
{
    match *state {
        DragState::Preparing { entity, start_pos, .. }
        | DragState::JustStarted { entity, start_pos, .. }
        | DragState::Dragging { entity, start_pos, .. } => {
            *state = DragState::JustEnded { entity, position: start_pos, cancelled: true };
        },
        _ => {},
    }
}

/// After the end of a drag was dispatched: a just-ended drag becomes idle.
pub fn reset_to_idle(state: &mut DragState)
    ensures
        *final(state) == reset(*old(state)),
{
    match *state {
        DragState::JustEnded { .. } => {
            *state = DragState::Idle;
        },
        _ => {},
    }
}

/// Whether a preparing drag has moved at least `threshold` pixels from its
/// start (squared distances are compared); `false` in any other state.
pub fn check_threshold(state: &DragState, current_pos: PhysicalPoint, threshold: i32) -> (r: bool)
    requires
        threshold_fits(*state, current_pos, threshold),
    ensures
        r == threshold_met(*state, current_pos, threshold),
{
    match state {
        DragState::Preparing { start_pos, .. } => {
            let dx = current_pos.x - start_pos.x;
            let dy = current_pos.y - start_pos.y;
            assert(dx * dx >= 0 && dy * dy >= 0 && threshold * threshold >= 0) by (nonlinear_arith);
            let distance_sq = dx * dx + dy * dy;
            let threshold_sq = threshold * threshold;
            distance_sq >= threshold_sq
        },
        _ => false,
    }
}

// ---------------------------------------------------------------------------
// Laws of the drag state machine
// ---------------------------------------------------------------------------

/// While a drag is active, no transition but the end of the cycle changes
/// which entity is dragged: a new press is ignored, and reaching the
/// threshold, moving, releasing and cancelling all keep the entity.
pub proof fn lemma_drag_keeps_entity(
    s: DragState,
    entity: Entity,
    pos: PhysicalPoint,
    time: Instant,
    context: Option<WindowDragContext>,
    cancelled_flag: bool,
)
    requires
        is_active(s),
    ensures
        pressed(s, entity, pos, time) == s,
        drag_entity(threshold_reached(s, pos)) == drag_entity(s),
        drag_entity(moved(s, pos, context)) == drag_entity(s),
        drag_entity(released(s, pos, cancelled_flag)) == drag_entity(s),
        drag_entity(cancelled(s)) == drag_entity(s),
{
}

/// A full drag cycle: a press on `entity` from idle (or right after a
/// previous drag ended), the threshold reached, any number of moves (here
/// two), and a release end in `JustEnded` on that entity at the release
/// position; the following reset returns to `Idle`.
pub proof fn lemma_drag_cycle(
    s: DragState,
    entity: Entity,
    start: PhysicalPoint,
    time: Instant,
    p1: PhysicalPoint,
    p2: PhysicalPoint,
    p3: PhysicalPoint,
    end: PhysicalPoint,
    context: Option<WindowDragContext>,
    cancelled_flag: bool,
)
    requires
        !is_active(s),
    ensures
        ({
            let s1 = pressed(s, entity, start, time);
            let s2 = threshold_reached(s1, p1);
            let s3 = moved(s2, p2, context);
            let s4 = moved(s3, p3, context);
            let s5 = released(s4, end, cancelled_flag);
            &&& s1 == DragState::Preparing { entity, start_pos: start, start_time: time }
            &&& s2 is JustStarted
            &&& s3 is Dragging
            &&& (s4 matches DragState::Dragging { current_pos, prev_pos, start_pos, .. }
                && current_pos == p3 && prev_pos == p2 && start_pos == start)
            &&& s5 == DragState::JustEnded { entity, position: end, cancelled: cancelled_flag }
            &&& reset(s5) == DragState::Idle
        }),
{
}

/// Cancelling and then resetting always leaves the machine idle, whatever
/// state it was in; a cancelled drag reports its start position.
pub proof fn lemma_cancel_then_reset_is_idle(s: DragState)
    ensures
        reset(cancelled(s)) == DragState::Idle,
        s matches DragState::Preparing { start_pos, .. } ==> cancelled(s) matches DragState::JustEnded {
            position,
            cancelled: true,
            ..
        } && position == start_pos,
{
}

/// The threshold test never succeeds outside the preparing state, and never
/// at the start position itself when the threshold is positive.
pub proof fn lemma_threshold_needs_movement(s: DragState, current_pos: PhysicalPoint, threshold: i32)
    ensures
        !(s is Preparing) ==> !threshold_met(s, current_pos, threshold),
        (s matches DragState::Preparing { start_pos, .. } && start_pos == current_pos && threshold
            > 0) ==> !threshold_met(s, current_pos, threshold),
{
    if threshold > 0 {
        assert(threshold * threshold > 0) by (nonlinear_arith)
            requires
                threshold > 0,
        ;
    }
}

/// Cancelling ends every active drag at the position where it started,
/// flagged as cancelled, on the dragged entity; it is exactly a release at
/// the start position with the cancelled flag set. Outside an active drag
/// it changes nothing, and cancelling twice is cancelling once.
pub proof fn lemma_cancel_ends_at_start(s: DragState)
    ensures
        (match s {
            DragState::Preparing { entity, start_pos, .. } => cancelled(s) == (DragState::JustEnded {
                entity,
                position: start_pos,
                cancelled: true,
            }) && cancelled(s) == released(s, start_pos, true),
            DragState::JustStarted { entity, start_pos, .. } => cancelled(s) == (DragState::JustEnded {
                entity,
                position: start_pos,
                cancelled: true,
            }) && cancelled(s) == released(s, start_pos, true),
            DragState::Dragging { entity, start_pos, .. } => cancelled(s) == (DragState::JustEnded {
                entity,
                position: start_pos,
                cancelled: true,
            }) && cancelled(s) == released(s, start_pos, true),
            _ => cancelled(s) == s,
        }),
        cancelled(cancelled(s)) == cancelled(s),
{
}

/// A release ends every active drag on its entity at the release position
/// with the given flag, and changes nothing otherwise. A move keeps where
/// the drag started: a running drag takes the new position as current and
/// the old current position as previous, keeping its window information; a
/// just-started drag begins running at the new position with the window
/// information of the context.
pub proof fn lemma_release_and_move(
    s: DragState,
    pos: PhysicalPoint,
    cancelled_flag: bool,
    context: Option<WindowDragContext>,
)
    ensures
        is_active(s) ==> released(s, pos, cancelled_flag) == (DragState::JustEnded {
            entity: drag_entity(s)->0,
            position: pos,
            cancelled: cancelled_flag,
        }),
        !is_active(s) ==> released(s, pos, cancelled_flag) == s,
        (match s {
            DragState::Dragging {
                entity,
                start_pos,
                current_pos,
                start_time,
                hwnd,
                initial_window_pos,
                move_window,
                constraint,
                ..
            } => (match moved(s, pos, context) {
                DragState::Dragging {
                    entity: e2,
                    start_pos: s2,
                    current_pos: c2,
                    prev_pos: p2,
                    start_time: t2,
                    hwnd: h2,
                    initial_window_pos: i2,
                    move_window: m2,
                    constraint: k2,
                } => e2 == entity && s2 == start_pos && c2 == pos && p2 == current_pos && t2
                    == start_time && h2 == hwnd && i2 == initial_window_pos && m2 == move_window
                    && k2 == constraint,
                _ => false,
            }),
            DragState::JustStarted { entity, start_pos, .. } => (match moved(s, pos, context) {
                DragState::Dragging {
                    entity: e2,
                    start_pos: s2,
                    current_pos: c2,
                    prev_pos: p2,
                    move_window: m2,
                    constraint: k2,
                    ..
                } => e2 == entity && s2 == start_pos && c2 == pos && p2 == pos && m2 == (match context {
                    Some(c) => c.move_window,
                    None => false,
                }) && k2 == (match context {
                    Some(c) => c.constraint,
                    None => None,
                }),
                _ => false,
            }),
            _ => moved(s, pos, context) == s,
        }),
{
}

/// The threshold test of a preparing drag compares the squared Euclidean
/// distance from the start, `dx*dx + dy*dy`, with the squared threshold:
/// a horizontal move counts as much as a vertical one, swapping the two
/// offsets does not change the answer, and a move along one axis alone
/// starts the drag exactly when its length reaches the threshold.
pub proof fn lemma_threshold_is_euclidean(
    entity: Entity,
    start: PhysicalPoint,
    time: Instant,
    dx: i32,
    dy: i32,
    threshold: i32,
)
    requires
        i32::MIN <= start.x + dx <= i32::MAX,
        i32::MIN <= start.y + dy <= i32::MAX,
        i32::MIN <= start.x + dy <= i32::MAX,
        i32::MIN <= start.y + dx <= i32::MAX,
    ensures
        ({
            let s = DragState::Preparing { entity, start_pos: start, start_time: time };
            let p = PhysicalPoint { x: (start.x + dx) as i32, y: (start.y + dy) as i32 };
            let swapped = PhysicalPoint { x: (start.x + dy) as i32, y: (start.y + dx) as i32 };
            let horizontal = PhysicalPoint { x: (start.x + dx) as i32, y: start.y };
            let vertical = PhysicalPoint { x: start.x, y: (start.y + dx) as i32 };
            &&& threshold_met(s, p, threshold) == (dx * dx + dy * dy >= threshold * threshold)
            &&& threshold_met(s, p, threshold) == threshold_met(s, swapped, threshold)
            &&& threshold_met(s, horizontal, threshold) == (dx * dx >= threshold * threshold)
            &&& threshold_met(s, horizontal, threshold) == threshold_met(s, vertical, threshold)
            &&& (0 <= threshold <= dx ==> threshold_met(s, horizontal, threshold))
            &&& (0 <= dx < threshold ==> !threshold_met(s, horizontal, threshold))
        }),
{
    let s = DragState::Preparing { entity, start_pos: start, start_time: time };
    let p = PhysicalPoint { x: (start.x + dx) as i32, y: (start.y + dy) as i32 };
    let swapped = PhysicalPoint { x: (start.x + dy) as i32, y: (start.y + dx) as i32 };
    let horizontal = PhysicalPoint { x: (start.x + dx) as i32, y: start.y };
    let vertical = PhysicalPoint { x: start.x, y: (start.y + dx) as i32 };
    assert(p.x - start.x == dx && p.y - start.y == dy);
    assert(swapped.x - start.x == dy && swapped.y - start.y == dx);
    assert(horizontal.x - start.x == dx && horizontal.y - start.y == 0);
    assert(vertical.x - start.x == 0 && vertical.y - start.y == dx);
    assert(distance_sq(p, start) == dx * dx + dy * dy);
    assert(distance_sq(swapped, start) == dy * dy + dx * dx);
    assert(distance_sq(horizontal, start) == dx * dx);
    assert(distance_sq(vertical, start) == dx * dx);
    if 0 <= threshold <= dx {
        assert(dx * dx >= threshold * threshold) by (nonlinear_arith)
            requires
                0 <= threshold <= dx,
        ;
    }
    if 0 <= dx < threshold {
        assert(dx * dx < threshold * threshold) by (nonlinear_arith)
            requires
                0 <= dx < threshold,
        ;
    }
}

} // verus!
