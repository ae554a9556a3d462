//! What one ECS tick does with the drag results the accumulator handed
//! over: the events it dispatches, the records it puts on or takes off the
//! dragged entity and its window, and the window context it publishes.

use crate::ecs::drag::events::{
    drag_move_event, initial_window_position, initial_window_position_of, transition_event,
    transition_event_of,
};
use crate::ecs::drag::{
    DragConfig, DragConstraint, DragEndEvent, DragEvent, DragStartEvent, DragTransition,
    DragTransitionEvent, FlushResult, WindowDragContext,
};
use crate::ecs::pointer::PhysicalPoint;
use crate::outside::entity_bits;
use bevy_ecs::entity::Entity;
use std::time::Instant;
use vstd::prelude::*;

verus! {

/// The record kept on an entity while it is dragged.
#[derive(Debug, Clone, Copy, PartialEq, Eq, Structural)]
pub struct DraggingRecord {
    /// Where the drag started (screen, physical pixels).
    pub drag_start_pos: PhysicalPoint,
    /// Where the dragged window stood when the drag started.
    pub initial_window_pos: PhysicalPoint,
    /// The pointer position at the previous tick.
    pub prev_frame_pos: PhysicalPoint,
}

/// What a drag start leads to.
pub struct DragStartActions {
    /// Sent to the dragged entity and dispatched along its path.
    pub event: DragStartEvent,
    /// Published for the window procedure; the drag state then advances
    /// with it from the start position.
    pub context: WindowDragContext,
    /// Put on the dragged entity.
    pub record: DraggingRecord,
    /// The window entity marked as being dragged, when one was found.
    pub mark_window: Option<Entity>,
}

/// What a drag end leads to: the event is sent and dispatched, the dragged
/// entity's record is taken off, the window (when found) is unmarked and its
/// position announced again, and the published context is cleared.
pub struct DragEndActions {
    pub event: DragEndEvent,
    /// The window entity unmarked, when one was found.
    pub unmark_window: Option<Entity>,
}

/// What the start or end of this tick leads to.
pub enum DragTransitionActions {
    Start(DragStartActions),
    End(DragEndActions),
}

/// Everything a tick does with one flush.
pub struct DragTickPlan {
    /// For the pending start or end, if any.
    pub transition: Option<DragTransitionActions>,
    /// The move event, if any; after it is dispatched, the dragged entity's
    /// record takes the event's position as its previous-frame position.
    pub moved: Option<DragEvent>,
}

/// The window context published when a drag starts.
pub open spec fn start_context_of(
    hwnd: Option<isize>,
    initial_window_pos: PhysicalPoint,
    config: Option<DragConfig>,
    constraint: Option<DragConstraint>,
) -> WindowDragContext {
    WindowDragContext {
        hwnd,
        initial_window_pos: Some(initial_window_pos),
        move_window: match config {
            Some(cfg) => cfg.move_window,
            None => false,
        },
        constraint,
    }
}

/// The move event of a tick: sent to the dragged entity when the flushed
/// movement is not zero, starting where the drag started (`start`) or, when
/// no start is known, at the current position.
pub open spec fn move_event_of(flush: FlushResult, start: Option<PhysicalPoint>, time: Instant) -> Option<
    DragEvent,
> {
    if flush.current_dragging_entity is Some && (flush.delta.x != 0 || flush.delta.y != 0) {
        Some(
            DragEvent {
                target: flush.current_dragging_entity->0,
                start_position: match start {
                    Some(p) => p,
                    None => flush.current_position,
                },
                position: flush.current_position,
                is_primary: true,
                timestamp: time,
            },
        )
    } else {
        None
    }
}

/// The drag start recorded on the dragged entity once the transition is
/// handled: a start of that entity records its start position, an end of it
/// takes the record off, and otherwise `recorded_start` stays.
pub open spec fn start_after_transition(
    transition: Option<DragTransition>,
    dragging: Option<Entity>,
    recorded_start: Option<PhysicalPoint>,
) -> Option<PhysicalPoint> {
    match transition {
        Some(DragTransition::Started { entity, start_pos, .. }) => if dragging == Some(entity) {
            Some(start_pos)
        } else {
            recorded_start
        },
        Some(DragTransition::Ended { entity, .. }) => if dragging == Some(entity) {
            None
        } else {
            recorded_start
        },
        None => recorded_start,
    }
}

/// The plan of a tick for `flush`. `window` is the window entity found above
/// the transition's entity, `hwnd` its handle (when it has one), and
/// `client_pos` / `converted` its position as
/// [`initial_window_position_of`] takes them; `config` and `constraint`
/// are those of the transition's entity; `recorded_start` is the start
/// recorded on the dragged entity before the tick; `now` stamps the end and
/// move events.
pub open spec fn drag_tick_plan_of(
    flush: FlushResult,
    window: Option<Entity>,
    hwnd: Option<isize>,
    client_pos: Option<PhysicalPoint>,
    converted: Option<PhysicalPoint>,
    config: Option<DragConfig>,
    constraint: Option<DragConstraint>,
    recorded_start: Option<PhysicalPoint>,
    now: Instant,
) -> DragTickPlan {
    let window_pos = initial_window_position_of(hwnd is Some, client_pos, converted);
    DragTickPlan {
        transition: match flush.transition {
            Some(t) => Some(
                match transition_event_of(t, now) {
                    DragTransitionEvent::Start(event) => DragTransitionActions::Start(
                        DragStartActions {
                            event,
                            context: start_context_of(hwnd, window_pos, config, constraint),
                            record: DraggingRecord {
                                drag_start_pos: event.position,
                                initial_window_pos: window_pos,
                                prev_frame_pos: event.position,
                            },
                            mark_window: window,
                        },
                    ),
                    DragTransitionEvent::End(event) => DragTransitionActions::End(
                        DragEndActions { event, unmark_window: window },
                    ),
                },
            ),
            None => None,
        },
        moved: move_event_of(
            flush,
            start_after_transition(flush.transition, flush.current_dragging_entity, recorded_start),
            now,
        ),
    }
}

/// The move event of a tick measures the drag from where it started. With
/// no transition pending and a start recorded on the dragged entity, the
/// event goes to that entity, starts at the recorded start and ends at the
/// current position, so its distance is the pointer's travel since the drag
/// started, whatever the earlier ticks did; with no start recorded it starts
/// at the current position. A drag that starts in this tick measures from
/// the start just recorded. No movement means no move event.
pub proof fn lemma_move_event_measures_from_start(
    flush: FlushResult,
    window: Option<Entity>,
    hwnd: Option<isize>,
    client_pos: Option<PhysicalPoint>,
    converted: Option<PhysicalPoint>,
    config: Option<DragConfig>,
    constraint: Option<DragConstraint>,
    recorded_start: Option<PhysicalPoint>,
    now: Instant,
)
    ensures
        ({
            let plan = drag_tick_plan_of(
                flush,
                window,
                hwnd,
                client_pos,
                converted,
                config,
                constraint,
                recorded_start,
                now,
            );
            let moving = flush.current_dragging_entity is Some && (flush.delta.x != 0 || flush.delta.y
                != 0);
            &&& (!moving ==> plan.moved is None)
            &&& (moving && flush.transition is None ==> (match plan.moved {
                Some(ev) => ev.target == flush.current_dragging_entity->0 && ev.position
                    == flush.current_position && ev.timestamp == now && ev.is_primary && ev.start_position
                    == (match recorded_start {
                    Some(p) => p,
                    None => flush.current_position,
                }) && (recorded_start matches Some(p) ==> ev.position.x - ev.start_position.x
                    == flush.current_position.x - p.x && ev.position.y - ev.start_position.y
                    == flush.current_position.y - p.y),
                None => false,
            }))
            &&& (moving && (flush.transition matches Some(DragTransition::Started { entity, .. })
                && flush.current_dragging_entity == Some(entity)) ==> (match (plan.moved, flush.transition) {
                (Some(ev), Some(DragTransition::Started { start_pos, .. })) => ev.start_position
                    == start_pos,
                _ => false,
            }))
        }),
{
}

/// Plans the tick for `flush`; see [`drag_tick_plan_of`].
pub fn plan_drag_tick(
    flush: FlushResult,
    window: Option<Entity>,
    hwnd: Option<isize>,
    client_pos: Option<PhysicalPoint>,
    converted: Option<PhysicalPoint>,
    config: Option<&DragConfig>,
    constraint: Option<DragConstraint>,
    recorded_start: Option<PhysicalPoint>,
    now: Instant,
) -> (plan: DragTickPlan)
    ensures
        plan == drag_tick_plan_of(
            flush,
            window,
            hwnd,
            client_pos,
            converted,
            match config {
                Some(c) => Some(*c),
                None => None,
            },
            constraint,
            recorded_start,
            now,
        ),
{
    let window_pos = initial_window_position(hwnd.is_some(), client_pos, converted);
    let start = match &flush.transition {
        Some(DragTransition::Started { entity, start_pos, .. }) => {
            if match flush.current_dragging_entity {
                Some(d) => entity_bits(d) == entity_bits(*entity),
                None => false,
            } {
                Some(*start_pos)
            } else {
                recorded_start
            }
        },
        Some(DragTransition::Ended { entity, .. }) => {
            if match flush.current_dragging_entity {
                Some(d) => entity_bits(d) == entity_bits(*entity),
                None => false,
            } {
                None
            } else {
                recorded_start
            }
        },
        None => recorded_start,
    };
    let moved = drag_move_event(&flush, start, now);
    let transition = match flush.transition {
        Some(t) => Some(
            match transition_event(t, now) {
                DragTransitionEvent::Start(event) => {
                    let move_window = match config {
                        Some(cfg) => cfg.move_window,
                        None => false,
                    };
                    let position = event.position;
                    DragTransitionActions::Start(
                        DragStartActions {
                            event,
                            context: WindowDragContext {
                                hwnd,
                                initial_window_pos: Some(window_pos),
                                move_window,
                                constraint,
                            },
                            record: DraggingRecord {
                                drag_start_pos: position,
                                initial_window_pos: window_pos,
                                prev_frame_pos: position,
                            },
                            mark_window: window,
                        },
                    )
                },
                DragTransitionEvent::End(event) => DragTransitionActions::End(
                    DragEndActions { event, unmark_window: window },
                ),
            },
        ),
        None => None,
    };
    DragTickPlan { transition, moved }
}

} // verus!
