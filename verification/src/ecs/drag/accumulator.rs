//! Accumulates drag movement in the window procedure and hands it to the
//! ECS thread once per tick.

use crate::ecs::pointer::PhysicalPoint;
use bevy_ecs::entity::Entity;
use std::time::Instant;
use vstd::prelude::*;

verus! {

/// A drag start or end, waiting to be dispatched by the ECS thread.
#[derive(Debug, Clone)]
pub enum DragTransition {
    /// A drag started.
    Started { entity: Entity, start_pos: PhysicalPoint, timestamp: Instant },
    /// A drag ended.
    Ended { entity: Entity, end_pos: PhysicalPoint, cancelled: bool },
}

/// What [`DragAccumulator::flush`] hands over.
#[derive(Debug)]
pub struct FlushResult {
    /// Movement accumulated since the previous flush.
    pub delta: PhysicalPoint,
    /// The pending start or end, if any.
    pub transition: Option<DragTransition>,
    /// The entity being dragged, while a drag runs.
    pub current_dragging_entity: Option<Entity>,
    /// The last pointer position recorded.
    pub current_position: PhysicalPoint,
}

/// The accumulator's contents.
pub struct DragAccumulatorView {
    pub delta: PhysicalPoint,
    pub dragging_entity: Option<Entity>,
    pub position: PhysicalPoint,
    pub pending: Option<DragTransition>,
}

/// Movement, position and pending transition collected by the window
/// procedure between two ECS ticks.
#[derive(Debug)]
pub struct DragAccumulator {
    accumulated_delta: PhysicalPoint,
    current_dragging_entity: Option<Entity>,
    current_pos: PhysicalPoint,
    pending_transition: Option<DragTransition>,
}

impl View for DragAccumulator {
    type V = DragAccumulatorView;

    closed spec fn view(&self) -> DragAccumulatorView {
        DragAccumulatorView {
            delta: self.accumulated_delta,
            dragging_entity: self.current_dragging_entity,
            position: self.current_pos,
            pending: self.pending_transition,
        }
    }
}

/// The origin.
pub open spec fn origin() -> PhysicalPoint {
    PhysicalPoint { x: 0, y: 0 }
}

/// Contents after `delta` is added to the accumulated movement.
pub open spec fn accumulated(v: DragAccumulatorView, delta: PhysicalPoint) -> DragAccumulatorView {
    DragAccumulatorView {
        delta: PhysicalPoint {
            x: (v.delta.x + delta.x) as i32,
            y: (v.delta.y + delta.y) as i32,
        },
        ..v
    }
}

/// Adding `delta` to the accumulated movement stays within `i32`.
pub open spec fn delta_fits(v: DragAccumulatorView, delta: PhysicalPoint) -> bool {
    &&& i32::MIN <= v.delta.x + delta.x <= i32::MAX
    &&& i32::MIN <= v.delta.y + delta.y <= i32::MAX
}

/// Contents after a transition is recorded: a start makes its entity the
/// dragged one, an end clears it; the transition becomes the pending one.
pub open spec fn transitioned(v: DragAccumulatorView, t: DragTransition) -> DragAccumulatorView {
    DragAccumulatorView {
        dragging_entity: match t {
            DragTransition::Started { entity, .. } => Some(entity),
            DragTransition::Ended { .. } => None,
        },
        pending: Some(t),
        ..v
    }
}

/// Contents after a flush: no movement, no pending transition.
pub open spec fn flushed(v: DragAccumulatorView) -> DragAccumulatorView {
    DragAccumulatorView { delta: origin(), pending: None, ..v }
}

/// What a flush of contents `v` hands over.
pub open spec fn flush_result_of(v: DragAccumulatorView) -> FlushResult {
    FlushResult {
        delta: v.delta,
        transition: v.pending,
        current_dragging_entity: v.dragging_entity,
        current_position: v.position,
    }
}

impl DragAccumulator {
    /// An empty accumulator.
    pub fn new() -> (a: Self)
        ensures
            a@.delta == origin(),
            a@.dragging_entity is None,
            a@.position == origin(),
            a@.pending is None,
    {
        DragAccumulator {
            accumulated_delta: PhysicalPoint::new(0, 0),
            current_dragging_entity: None,
            current_pos: PhysicalPoint::new(0, 0),
            pending_transition: None,
        }
    }

    /// Adds a movement to the accumulated one.
    pub fn accumulate_delta(&mut self, delta: PhysicalPoint)
        requires
            delta_fits(old(self)@, delta),
        ensures
            final(self)@ == accumulated(old(self)@, delta),
    {
        self.accumulated_delta.x = self.accumulated_delta.x + delta.x;
        self.accumulated_delta.y = self.accumulated_delta.y + delta.y;
    }

    /// The movement accumulated since the last flush.
    pub fn accumulated_delta(&self) -> (d: PhysicalPoint)
        ensures
            d == self@.delta,
    {
        self.accumulated_delta
    }

    /// Records the current pointer position.
    pub fn update_position(&mut self, pos: PhysicalPoint)
        ensures
            final(self)@ == (DragAccumulatorView { position: pos, ..old(self)@ }),
    {
        self.current_pos = pos;
    }

    /// Records a drag start or end, replacing any pending one.
    pub fn set_transition(&mut self, transition: DragTransition)
        ensures
            final(self)@ == transitioned(old(self)@, transition),
    {
        match &transition {
            DragTransition::Started { entity, .. } => {
                self.current_dragging_entity = Some(*entity);
            },
            DragTransition::Ended { .. } => {
                self.current_dragging_entity = None;
            },
        }
        self.pending_transition = Some(transition);
    }

    /// Hands over the accumulated movement, the pending transition, the
    /// dragged entity and the position, then clears the movement and the
    /// pending transition.
    pub fn flush(&mut self) -> (r: FlushResult)
        ensures
            r == flush_result_of(old(self)@),
            final(self)@ == flushed(old(self)@),
    {
        let delta = self.accumulated_delta;
        let transition = self.pending_transition.take();
        let entity = self.current_dragging_entity;
        let position = self.current_pos;
        self.accumulated_delta = PhysicalPoint::new(0, 0);
        FlushResult {
            delta,
            transition,
            current_dragging_entity: entity,
            current_position: position,
        }
    }
}

impl Default for DragAccumulator {
    fn default() -> (a: Self)
        ensures
            a@.delta == origin(),
            a@.dragging_entity is None,
            a@.position == origin(),
            a@.pending is None,
    {
        Self::new()
    }
}

impl FlushResult {
    /// The entity a drag-move event is dispatched to this tick: the dragged
    /// entity, when there is one and the accumulated movement is not zero.
    pub fn drag_event_target(&self) -> (t: Option<Entity>)
        ensures
            t == (if self.current_dragging_entity is Some && (self.delta.x != 0 || self.delta.y
                != 0) {
                self.current_dragging_entity
            } else {
                None
            }),
    {
        match self.current_dragging_entity {
            Some(e) => if self.delta.x != 0 || self.delta.y != 0 {
                Some(e)
            } else {
                None
            },
            None => None,
        }
    }
}

// ---------------------------------------------------------------------------
// Laws of the accumulator
// ---------------------------------------------------------------------------

/// Movements added between two flushes are handed over as their sum by the
/// next flush, and a flush right after a flush hands over no movement and no
/// transition, keeping the dragged entity and position.
pub proof fn lemma_flush_hands_over_sum(v: DragAccumulatorView, d1: PhysicalPoint, d2: PhysicalPoint)
    requires
        v.delta == origin(),
        delta_fits(v, d1),
        delta_fits(accumulated(v, d1), d2),
    ensures
        flush_result_of(accumulated(accumulated(v, d1), d2)).delta.x == d1.x + d2.x,
        flush_result_of(accumulated(accumulated(v, d1), d2)).delta.y == d1.y + d2.y,
        flush_result_of(flushed(accumulated(accumulated(v, d1), d2))).delta == origin(),
        flush_result_of(flushed(accumulated(accumulated(v, d1), d2))).transition is None,
        flush_result_of(flushed(accumulated(accumulated(v, d1), d2))).current_dragging_entity
            == v.dragging_entity,
        flush_result_of(flushed(accumulated(accumulated(v, d1), d2))).current_position
            == v.position,
{
}

/// A recorded start makes its entity the dragged one until an end is
/// recorded; movements and position updates do not change it, and a flush
/// hands the start over exactly once.
pub proof fn lemma_start_then_end(
    v: DragAccumulatorView,
    entity: Entity,
    start: PhysicalPoint,
    time: Instant,
    d: PhysicalPoint,
    end: PhysicalPoint,
    cancelled: bool,
)
    requires
        delta_fits(transitioned(v, DragTransition::Started { entity, start_pos: start, timestamp: time }), d),
    ensures
        ({
            let started = transitioned(v, DragTransition::Started { entity, start_pos: start, timestamp: time });
            let moved = accumulated(started, d);
            let first = flush_result_of(moved);
            let after = flushed(moved);
            let ended = transitioned(after, DragTransition::Ended { entity, end_pos: end, cancelled });
            &&& first.current_dragging_entity == Some(entity)
            &&& first.transition == Some(DragTransition::Started { entity, start_pos: start, timestamp: time })
            &&& flush_result_of(after).transition is None
            &&& flush_result_of(after).current_dragging_entity == Some(entity)
            &&& flush_result_of(ended).current_dragging_entity is None
            &&& flush_result_of(ended).transition == Some(DragTransition::Ended { entity, end_pos: end, cancelled })
        }),
{
}

/// One call made on an accumulator between two flushes.
pub enum AccumulatorCall {
    /// `accumulate_delta` with this movement.
    Move(PhysicalPoint),
    /// `update_position` with this position.
    Position(PhysicalPoint),
    /// `set_transition` with this transition.
    Transition(DragTransition),
}

/// Contents after one call.
pub open spec fn after_call(v: DragAccumulatorView, c: AccumulatorCall) -> DragAccumulatorView {
    match c {
        AccumulatorCall::Move(d) => accumulated(v, d),
        AccumulatorCall::Position(p) => DragAccumulatorView { position: p, ..v },
        AccumulatorCall::Transition(t) => transitioned(v, t),
    }
}

/// Contents after the calls `calls`, in order.
pub open spec fn after_calls(v: DragAccumulatorView, calls: Seq<AccumulatorCall>) -> DragAccumulatorView
    decreases calls.len(),
{
    if calls.len() == 0 {
        v
    } else {
        after_call(after_calls(v, calls.drop_last()), calls.last())
    }
}

/// Every movement among `calls` is admitted by `accumulate_delta` when it
/// is made (the running sum stays within `i32`).
pub open spec fn calls_fit(v: DragAccumulatorView, calls: Seq<AccumulatorCall>) -> bool
    decreases calls.len(),
{
    if calls.len() == 0 {
        true
    } else {
        &&& calls_fit(v, calls.drop_last())
        &&& match calls.last() {
            AccumulatorCall::Move(d) => delta_fits(after_calls(v, calls.drop_last()), d),
            _ => true,
        }
    }
}

/// The sum of the movements among `calls`, horizontally.
pub open spec fn moves_sum_x(calls: Seq<AccumulatorCall>) -> int
    decreases calls.len(),
{
    if calls.len() == 0 {
        0
    } else {
        moves_sum_x(calls.drop_last()) + match calls.last() {
            AccumulatorCall::Move(d) => d.x as int,
            _ => 0,
        }
    }
}

/// The sum of the movements among `calls`, vertically.
pub open spec fn moves_sum_y(calls: Seq<AccumulatorCall>) -> int
    decreases calls.len(),
{
    if calls.len() == 0 {
        0
    } else {
        moves_sum_y(calls.drop_last()) + match calls.last() {
            AccumulatorCall::Move(d) => d.y as int,
            _ => 0,
        }
    }
}

/// The last transition recorded among `calls`, if any.
pub open spec fn last_transition(calls: Seq<AccumulatorCall>) -> Option<DragTransition>
    decreases calls.len(),
{
    if calls.len() == 0 {
        None
    } else {
        match calls.last() {
            AccumulatorCall::Transition(t) => Some(t),
            _ => last_transition(calls.drop_last()),
        }
    }
}

/// The last position recorded among `calls`, or `before` when none is.
pub open spec fn last_position(calls: Seq<AccumulatorCall>, before: PhysicalPoint) -> PhysicalPoint
    decreases calls.len(),
{
    if calls.len() == 0 {
        before
    } else {
        match calls.last() {
            AccumulatorCall::Position(p) => p,
            _ => last_position(calls.drop_last(), before),
        }
    }
}

/// The dragged entity after `calls`: the one of the last transition when it
/// is a start, none when it is an end, `before` when there is none.
pub open spec fn last_dragging_entity(calls: Seq<AccumulatorCall>, before: Option<Entity>) -> Option<Entity> {
    match last_transition(calls) {
        Some(DragTransition::Started { entity, .. }) => Some(entity),
        Some(DragTransition::Ended { .. }) => None,
        None => before,
    }
}

/// Whatever calls are made between two flushes (or since the accumulator
/// was created), the next flush hands over the sum of every movement, the
/// last transition recorded (none if none was), the dragged entity set by
/// the latest transition and the latest position; afterwards no movement
/// and no transition are pending, and entity and position are kept.
pub proof fn lemma_flush_hands_over_all_moves(v: DragAccumulatorView, calls: Seq<AccumulatorCall>)
    requires
        v.delta == origin(),
        v.pending is None,
        calls_fit(v, calls),
    ensures
        ({
            let r = flush_result_of(after_calls(v, calls));
            let rest = flushed(after_calls(v, calls));
            &&& r.delta.x == moves_sum_x(calls)
            &&& r.delta.y == moves_sum_y(calls)
            &&& r.transition == last_transition(calls)
            &&& r.current_dragging_entity == last_dragging_entity(calls, v.dragging_entity)
            &&& r.current_position == last_position(calls, v.position)
            &&& rest.delta == origin()
            &&& rest.pending is None
            &&& rest.dragging_entity == r.current_dragging_entity
            &&& rest.position == r.current_position
        }),
    decreases calls.len(),
{
    if calls.len() > 0 {
        lemma_flush_hands_over_all_moves(v, calls.drop_last());
    }
}

} // verus!
