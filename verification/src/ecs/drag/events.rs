//! The drag events a tick dispatches, built from what the accumulator
//! handed over.

use crate::ecs::drag::{DragConfig, DragConstraint, DragTransition, FlushResult, WindowDragContext};
use crate::ecs::pointer::PhysicalPoint;
use bevy_ecs::entity::Entity;
use std::time::Instant;
use vstd::prelude::*;

verus! {

/// A drag started.
#[derive(Clone, Debug)]
pub struct DragStartEvent {
    pub target: Entity,
    /// Where the drag started (screen, physical pixels).
    pub position: PhysicalPoint,
    /// Whether the primary (left) button drags.
    pub is_primary: bool,
    pub timestamp: Instant,
}

/// The dragged pointer moved.
#[derive(Clone, Debug)]
pub struct DragEvent {
    pub target: Entity,
    /// Where the drag started.
    pub start_position: PhysicalPoint,
    /// Where the pointer is now.
    pub position: PhysicalPoint,
    pub is_primary: bool,
    pub timestamp: Instant,
}

/// A drag ended.
#[derive(Clone, Debug)]
pub struct DragEndEvent {
    pub target: Entity,
    /// Where the drag ended.
    pub position: PhysicalPoint,
    /// Whether it was cancelled rather than released.
    pub cancelled: bool,
    pub is_primary: bool,
    pub timestamp: Instant,
}

/// The event a pending transition turns into.
#[derive(Clone, Debug)]
pub enum DragTransitionEvent {
    Start(DragStartEvent),
    End(DragEndEvent),
}

/// The event for a transition; an end is stamped with `end_time`, a start
/// keeps the time at which it was recorded.
pub open spec fn transition_event_of(t: DragTransition, end_time: Instant) -> DragTransitionEvent {
    match t {
        DragTransition::Started { entity, start_pos, timestamp } => DragTransitionEvent::Start(
            DragStartEvent { target: entity, position: start_pos, is_primary: true, timestamp },
        ),
        DragTransition::Ended { entity, end_pos, cancelled } => DragTransitionEvent::End(
            DragEndEvent {
                target: entity,
                position: end_pos,
                cancelled,
                is_primary: true,
                timestamp: end_time,
            },
        ),
    }
}

/// A recorded end becomes an end event for the same entity at the same
/// position, carrying the cancelled flag unchanged (a cancelled drag is never
/// reported as a release, nor a release as a cancellation), stamped with the
/// dispatch time; a recorded start becomes a start event for the same entity
/// at the start position, keeping the time at which it was recorded. Both are
/// primary-button events.
pub proof fn lemma_transition_event_keeps_fields(
    entity: Entity,
    pos: PhysicalPoint,
    cancelled: bool,
    recorded: Instant,
    end_time: Instant,
)
    ensures
        (match transition_event_of(DragTransition::Ended { entity, end_pos: pos, cancelled }, end_time) {
            DragTransitionEvent::End(e) => e.target == entity && e.position == pos && e.cancelled
                == cancelled && e.is_primary && e.timestamp == end_time,
            DragTransitionEvent::Start(_) => false,
        }),
        (match transition_event_of(
            DragTransition::Started { entity, start_pos: pos, timestamp: recorded },
            end_time,
        ) {
            DragTransitionEvent::Start(e) => e.target == entity && e.position == pos && e.is_primary
                && e.timestamp == recorded,
            DragTransitionEvent::End(_) => false,
        }),
{
}

/// The event dispatched for a drag start or end (primary button).
pub fn transition_event(t: DragTransition, end_time: Instant) -> (e: DragTransitionEvent)
    ensures
        e == transition_event_of(t, end_time),
{
    match t {
        DragTransition::Started { entity, start_pos, timestamp } => DragTransitionEvent::Start(
            DragStartEvent { target: entity, position: start_pos, is_primary: true, timestamp },
        ),
        DragTransition::Ended { entity, end_pos, cancelled } => DragTransitionEvent::End(
            DragEndEvent {
                target: entity,
                position: end_pos,
                cancelled,
                is_primary: true,
                timestamp: end_time,
            },
        ),
    }
}

/// The move event of a tick: sent to the dragged entity when the flushed
/// movement is not zero; its start is the one recorded for the drag
/// (`recorded_start`), or the current position when none is recorded.
pub fn drag_move_event(flush: &FlushResult, recorded_start: Option<PhysicalPoint>, time: Instant) -> (e:
    Option<DragEvent>)
    ensures
        flush.current_dragging_entity is None || (flush.delta.x == 0 && flush.delta.y == 0) ==> e is None,
        flush.current_dragging_entity is Some && (flush.delta.x != 0 || flush.delta.y != 0)
            ==> e == Some(DragEvent {
            target: flush.current_dragging_entity->0,
            start_position: match recorded_start {
                Some(p) => p,
                None => flush.current_position,
            },
            position: flush.current_position,
            is_primary: true,
            timestamp: time,
        }),
{
    match flush.drag_event_target() {
        Some(target) => {
            let start_position = match recorded_start {
                Some(p) => p,
                None => flush.current_position,
            };
            Some(
                DragEvent {
                    target,
                    start_position,
                    position: flush.current_position,
                    is_primary: true,
                    timestamp: time,
                },
            )
        },
        None => None,
    }
}

/// Where the dragged window stands when a drag starts. With a window
/// handle, it is the window's client position converted to window
/// coordinates (frame included), when that conversion was made and
/// succeeded (`converted`); without a handle, the client position itself.
/// Where neither is known, the origin.
pub open spec fn initial_window_position_of(
    has_handle: bool,
    client_pos: Option<PhysicalPoint>,
    converted: Option<PhysicalPoint>,
) -> PhysicalPoint {
    let found = if has_handle { converted } else { client_pos };
    match found {
        Some(p) => p,
        None => PhysicalPoint { x: 0, y: 0 },
    }
}

/// The initial window position recorded for a drag; see
/// [`initial_window_position_of`].
pub fn initial_window_position(
    has_handle: bool,
    client_pos: Option<PhysicalPoint>,
    converted: Option<PhysicalPoint>,
) -> (p: PhysicalPoint)
    ensures
        p == initial_window_position_of(has_handle, client_pos, converted),
{
    let found = if has_handle { converted } else { client_pos };
    match found {
        Some(p) => p,
        None => PhysicalPoint { x: 0, y: 0 },
    }
}

/// The window context published when a drag starts: the window's handle
/// (if found), its initial position, and the dragged entity's window-moving
/// flag (off without a configuration) and constraint.
pub fn start_context(
    hwnd: Option<isize>,
    initial_window_pos: PhysicalPoint,
    config: Option<&DragConfig>,
    constraint: Option<DragConstraint>,
) -> (c: WindowDragContext)
    ensures
        c.hwnd == hwnd,
        c.initial_window_pos == Some(initial_window_pos),
        c.move_window == (match config {
            Some(cfg) => cfg.move_window,
            None => false,
        }),
        c.constraint == constraint,
{
    let move_window = match config {
        Some(cfg) => cfg.move_window,
        None => false,
    };
    WindowDragContext { hwnd, initial_window_pos: Some(initial_window_pos), move_window, constraint }
}

} // verus!
