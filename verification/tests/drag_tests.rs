use bevy_ecs::entity::Entity;
use std::time::Instant;
use wintf::ecs::drag::{
    cancel_dragging, check_threshold, drag_move_event, end_dragging, initial_window_position,
    reset_to_idle,
    start_context, start_dragging, start_preparing, start_preparing_at, transition_event,
    update_dragging, DragAccumulator, DragConfig, DragConstraint, DragState, DragTransition,
    DragTransitionEvent, WindowDragContext,
};
use wintf::ecs::drag::tick::{plan_drag_tick, DragTransitionActions};
use wintf::ecs::pointer::PhysicalPoint;

fn entity(n: u32) -> Entity {
    Entity::from_raw_u32(n).unwrap()
}

fn p(x: i32, y: i32) -> PhysicalPoint {
    PhysicalPoint::new(x, y)
}

#[test]
fn drag_config_defaults() {
    let c = DragConfig::default();
    assert_eq!(c.threshold, 5);
    assert!(c.enabled && c.move_window && c.left_button);
    assert!(!c.right_button && !c.middle_button);
}

#[test]
fn constraint_clamps_each_axis() {
    let c = DragConstraint { min_x: Some(0), max_x: Some(100), min_y: None, max_y: Some(50) };
    assert_eq!(c.apply(-10, 70), (0, 50));
    assert_eq!(c.apply(120, -500), (100, -500));
    assert_eq!(c.apply(30, 20), (30, 20));
    let free = DragConstraint { min_x: None, max_x: None, min_y: None, max_y: None };
    assert_eq!(free.apply(-7, 9), (-7, 9));
    // applying twice is the same as once
    let once = c.apply(500, 500);
    assert_eq!(c.apply(once.0, once.1), once);
}

#[test]
fn full_drag_cycle() {
    let e = entity(1);
    let mut state = DragState::Idle;
    start_preparing(&mut state, e, p(10, 10));
    assert!(matches!(state, DragState::Preparing { entity, start_pos, .. } if entity == e && start_pos == p(10, 10)));

    assert!(!check_threshold(&state, p(12, 13), 5));
    assert!(check_threshold(&state, p(13, 14), 5));

    start_dragging(&mut state, p(13, 14));
    assert!(matches!(state, DragState::JustStarted { current_pos, .. } if current_pos == p(13, 14)));

    let ctx = WindowDragContext {
        hwnd: Some(42),
        initial_window_pos: Some(p(100, 200)),
        move_window: true,
        constraint: None,
    };
    update_dragging(&mut state, p(15, 15), Some(ctx));
    match state {
        DragState::Dragging { current_pos, prev_pos, hwnd, initial_window_pos, move_window, .. } => {
            assert_eq!(current_pos, p(15, 15));
            assert_eq!(prev_pos, p(15, 15));
            assert_eq!(hwnd, 42);
            assert_eq!(initial_window_pos, p(100, 200));
            assert!(move_window);
        }
        _ => panic!("expected Dragging"),
    }
    update_dragging(&mut state, p(20, 25), None);
    assert!(matches!(state, DragState::Dragging { current_pos, prev_pos, hwnd: 42, .. } if current_pos == p(20, 25) && prev_pos == p(15, 15)));

    end_dragging(&mut state, p(21, 26), false);
    assert!(matches!(state, DragState::JustEnded { entity, position, cancelled: false } if entity == e && position == p(21, 26)));

    reset_to_idle(&mut state);
    assert!(matches!(state, DragState::Idle));
}

#[test]
fn second_press_is_ignored_while_active() {
    let (a, b) = (entity(1), entity(2));
    let mut state = DragState::Idle;
    let t = Instant::now();
    start_preparing_at(&mut state, a, p(0, 0), t);
    start_preparing_at(&mut state, b, p(5, 5), t);
    assert!(matches!(state, DragState::Preparing { entity, .. } if entity == a));
    // a press right after a drag ended starts a new one
    end_dragging(&mut state, p(1, 1), false);
    start_preparing_at(&mut state, b, p(5, 5), t);
    assert!(matches!(state, DragState::Preparing { entity, .. } if entity == b));
}

#[test]
fn cancel_ends_at_start_position() {
    let mut state = DragState::Idle;
    start_preparing(&mut state, entity(3), p(7, 8));
    start_dragging(&mut state, p(30, 30));
    cancel_dragging(&mut state);
    assert!(matches!(state, DragState::JustEnded { position, cancelled: true, .. } if position == p(7, 8)));
    reset_to_idle(&mut state);
    assert!(matches!(state, DragState::Idle));
    // idle stays idle
    cancel_dragging(&mut state);
    reset_to_idle(&mut state);
    assert!(matches!(state, DragState::Idle));
}

#[test]
fn threshold_only_while_preparing() {
    let state = DragState::Idle;
    assert!(!check_threshold(&state, p(1000, 1000), 5));
    let mut state = DragState::Idle;
    start_preparing(&mut state, entity(1), p(0, 0));
    assert!(!check_threshold(&state, p(0, 0), 1));
    assert!(check_threshold(&state, p(0, 0), 0));
    assert!(check_threshold(&state, p(3, 4), 5));
    assert!(!check_threshold(&state, p(3, 3), 5));
}

#[test]
fn just_started_without_context_uses_defaults() {
    let mut state = DragState::Idle;
    start_preparing(&mut state, entity(1), p(0, 0));
    start_dragging(&mut state, p(9, 9));
    update_dragging(&mut state, p(10, 10), None);
    assert!(matches!(state, DragState::Dragging { hwnd: 0, move_window: false, constraint: None, initial_window_pos, .. } if initial_window_pos == p(0, 0)));
}

#[test]
fn accumulator_flush_hands_over_and_resets() {
    let e = entity(4);
    let mut acc = DragAccumulator::new();
    let t = Instant::now();
    acc.set_transition(DragTransition::Started { entity: e, start_pos: p(1, 2), timestamp: t });
    acc.accumulate_delta(p(3, 4));
    acc.accumulate_delta(p(-1, 1));
    acc.update_position(p(50, 60));
    let r = acc.flush();
    assert_eq!(r.delta, p(2, 5));
    assert!(matches!(r.transition, Some(DragTransition::Started { entity, .. }) if entity == e));
    assert_eq!(r.current_dragging_entity, Some(e));
    assert_eq!(r.current_position, p(50, 60));
    assert_eq!(r.drag_event_target(), Some(e));

    let r2 = acc.flush();
    assert_eq!(r2.delta, p(0, 0));
    assert!(r2.transition.is_none());
    assert_eq!(r2.current_dragging_entity, Some(e));
    assert_eq!(r2.drag_event_target(), None);

    acc.set_transition(DragTransition::Ended { entity: e, end_pos: p(9, 9), cancelled: true });
    let r3 = acc.flush();
    assert_eq!(r3.current_dragging_entity, None);
    assert!(matches!(r3.transition, Some(DragTransition::Ended { cancelled: true, .. })));
}

#[test]
fn events_from_flush() {
    let e = entity(5);
    let t = Instant::now();
    let mut acc = DragAccumulator::default();
    acc.set_transition(DragTransition::Started { entity: e, start_pos: p(1, 1), timestamp: t });
    acc.accumulate_delta(p(2, 0));
    acc.update_position(p(3, 1));
    let flush = acc.flush();
    let ev = drag_move_event(&flush, Some(p(1, 1)), t).unwrap();
    assert_eq!(ev.target, e);
    assert_eq!(ev.start_position, p(1, 1));
    assert_eq!(ev.position, p(3, 1));
    assert!(ev.is_primary);
    let ev2 = drag_move_event(&flush, None, t).unwrap();
    assert_eq!(ev2.start_position, p(3, 1));

    match transition_event(flush.transition.unwrap(), t) {
        DragTransitionEvent::Start(s) => {
            assert_eq!(s.target, e);
            assert_eq!(s.position, p(1, 1));
            assert!(s.is_primary);
        }
        DragTransitionEvent::End(_) => panic!("expected a start"),
    }
    match transition_event(DragTransition::Ended { entity: e, end_pos: p(4, 4), cancelled: false }, t) {
        DragTransitionEvent::End(end) => {
            assert_eq!(end.position, p(4, 4));
            assert!(!end.cancelled);
        }
        DragTransitionEvent::Start(_) => panic!("expected an end"),
    }
}

#[test]
fn context_for_a_started_drag() {
    let cfg = DragConfig::default();
    let c = start_context(Some(7), p(10, 20), Some(&cfg), None);
    assert_eq!(c.hwnd, Some(7));
    assert_eq!(c.initial_window_pos, Some(p(10, 20)));
    assert!(c.move_window);
    let c2 = start_context(None, p(0, 0), None, None);
    assert!(!c2.move_window);
    let mut c3 = c;
    c3.clear();
    assert_eq!(c3, WindowDragContext::default());
}

#[test]
fn initial_window_position_prefers_converted_with_handle() {
    assert_eq!(initial_window_position(true, Some(p(10, 20)), Some(p(2, 5))), p(2, 5));
    // With a handle, a failed conversion leaves the origin.
    assert_eq!(initial_window_position(true, Some(p(10, 20)), None), p(0, 0));
    // Without a handle, the client position is taken as it is.
    assert_eq!(initial_window_position(false, Some(p(10, 20)), None), p(10, 20));
    assert_eq!(initial_window_position(false, None, None), p(0, 0));
}

#[test]
fn flush_hands_over_every_move_since_the_last_flush() {
    let mut acc = DragAccumulator::new();
    acc.accumulate_delta(p(100, 100));
    let _ = acc.flush();
    acc.accumulate_delta(p(1, 2));
    acc.update_position(p(10, 10));
    acc.accumulate_delta(p(-4, 5));
    acc.set_transition(DragTransition::Ended { entity: entity(4), end_pos: p(3, 3), cancelled: true });
    acc.accumulate_delta(p(7, -1));
    acc.update_position(p(20, 30));
    let r = acc.flush();
    assert_eq!(r.delta, p(4, 6));
    assert_eq!(r.current_position, p(20, 30));
    assert_eq!(r.current_dragging_entity, None);
    assert!(matches!(r.transition, Some(DragTransition::Ended { cancelled: true, .. })));
    let r2 = acc.flush();
    assert_eq!(r2.delta, p(0, 0));
    assert!(r2.transition.is_none());
    assert_eq!(r2.current_position, p(20, 30));
}

#[test]
fn tick_plan_for_a_start_with_movement() {
    let e = entity(8);
    let w = entity(9);
    let t = Instant::now();
    let mut acc = DragAccumulator::new();
    acc.set_transition(DragTransition::Started { entity: e, start_pos: p(5, 5), timestamp: t });
    acc.accumulate_delta(p(3, 0));
    acc.update_position(p(8, 5));
    let flush = acc.flush();
    let cfg = DragConfig::default();
    let plan = plan_drag_tick(flush, Some(w), Some(42), Some(p(100, 100)), Some(p(92, 70)), Some(&cfg), None, None, t);
    match plan.transition {
        Some(DragTransitionActions::Start(start)) => {
            assert_eq!(start.event.target, e);
            assert_eq!(start.event.position, p(5, 5));
            assert_eq!(start.context.hwnd, Some(42));
            assert_eq!(start.context.initial_window_pos, Some(p(92, 70)));
            assert!(start.context.move_window);
            assert_eq!(start.record.drag_start_pos, p(5, 5));
            assert_eq!(start.record.initial_window_pos, p(92, 70));
            assert_eq!(start.record.prev_frame_pos, p(5, 5));
            assert_eq!(start.mark_window, Some(w));
        }
        _ => panic!("expected a start"),
    }
    // The move event starts where the drag just started.
    let moved = plan.moved.unwrap();
    assert_eq!(moved.target, e);
    assert_eq!(moved.start_position, p(5, 5));
    assert_eq!(moved.position, p(8, 5));
}

#[test]
fn tick_plan_for_an_end_and_for_nothing() {
    let e = entity(10);
    let t = Instant::now();
    let mut acc = DragAccumulator::new();
    acc.set_transition(DragTransition::Ended { entity: e, end_pos: p(1, 2), cancelled: false });
    let plan = plan_drag_tick(acc.flush(), None, None, None, None, None, None, None, t);
    match plan.transition {
        Some(DragTransitionActions::End(end)) => {
            assert_eq!(end.event.target, e);
            assert_eq!(end.event.position, p(1, 2));
            assert!(!end.event.cancelled);
            assert_eq!(end.unmark_window, None);
        }
        _ => panic!("expected an end"),
    }
    assert!(plan.moved.is_none());
    let idle = plan_drag_tick(acc.flush(), None, None, None, None, None, None, Some(p(0, 0)), t);
    assert!(idle.transition.is_none());
    assert!(idle.moved.is_none());
}
