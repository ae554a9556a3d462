use std::collections::HashSet;
use std::time::Instant;
use wintf::ecs::pointer::{
    first_double_click, ButtonBuffer, DoubleClick, PhysicalPoint, PointerBuffer, PointerButton,
    PointerInput, PointerLeave, TickInput, WheelBuffer, WheelDelta, WindowPointerTracking,
    POINTER_BUFFER_MAX_SAMPLES,
};

#[derive(Debug, Clone, Copy)]
struct PositionSample {
    x: f32,
    y: f32,
    #[allow(dead_code)]
    timestamp: Instant,
}

#[test]
fn test_pointer_buffer_push() {
    let mut buffer = PointerBuffer::new();
    assert!(buffer.is_empty());

    buffer.push(PositionSample {
        x: 10.0,
        y: 20.0,
        timestamp: Instant::now(),
    });
    assert_eq!(buffer.len(), 1);
    assert!(!buffer.is_empty());
}

#[test]
fn test_pointer_buffer_max_samples() {
    let mut buffer = PointerBuffer::new();
    for i in 0..10 {
        buffer.push(PositionSample {
            x: i as f32,
            y: i as f32,
            timestamp: Instant::now(),
        });
    }
    assert_eq!(buffer.len(), PointerBuffer::<PositionSample>::MAX_SAMPLES);

    let latest = buffer.latest().unwrap();
    assert_eq!(latest.x, 9.0);
}

#[test]
fn mod_test_button_buffer_state() {
    let mut buffer = ButtonBuffer::default();
    assert!(!buffer.down_received);
    assert!(!buffer.up_received);

    buffer.record_down();
    assert!(buffer.down_received);
    assert!(!buffer.up_received);

    buffer.record_up();
    assert!(buffer.down_received);
    assert!(buffer.up_received);

    buffer.reset();
    assert!(!buffer.down_received);
    assert!(!buffer.up_received);
}

#[test]
fn mod_test_wheel_buffer() {
    let mut buffer = WheelBuffer::default();
    assert_eq!(buffer.vertical, 0);
    assert_eq!(buffer.horizontal, 0);

    buffer.add_vertical(120);
    buffer.add_vertical(120);
    assert_eq!(buffer.vertical, 240);

    buffer.add_horizontal(-60);
    assert_eq!(buffer.horizontal, -60);

    buffer.reset();
    assert_eq!(buffer.vertical, 0);
    assert_eq!(buffer.horizontal, 0);
}

#[test]
fn test_pointer_leave_marker() {
    let leave1 = PointerLeave;
    let leave2 = PointerLeave;
    assert_eq!(leave1, leave2);
}

#[test]
fn test_window_pointer_tracking_default() {
    let tracking = WindowPointerTracking::default();
    assert!(!tracking.0);

    let tracking_enabled = WindowPointerTracking(true);
    assert!(tracking_enabled.0);
}

#[test]
fn mod_test_physical_point_new() {
    let pt = PhysicalPoint::new(100, 200);
    assert_eq!(pt.x, 100);
    assert_eq!(pt.y, 200);
}

#[test]
fn mod_test_double_click_variants() {
    assert_eq!(DoubleClick::default(), DoubleClick::NoClick);

    assert_ne!(DoubleClick::Left, DoubleClick::Right);
    assert_ne!(DoubleClick::Middle, DoubleClick::XButton1);
    assert_ne!(DoubleClick::XButton1, DoubleClick::XButton2);
}

#[test]
fn mod_test_wheel_delta_default() {
    let delta = WheelDelta::default();
    assert_eq!(delta.vertical, 0);
    assert_eq!(delta.horizontal, 0);
}

#[test]
fn test_pointer_button_enum() {
    let mut set = HashSet::new();
    set.insert(PointerButton::Left);
    set.insert(PointerButton::Right);
    set.insert(PointerButton::Middle);
    set.insert(PointerButton::XButton1);
    set.insert(PointerButton::XButton2);
    assert_eq!(set.len(), 5);
}

// --- further cases ---

#[test]
fn pointer_buffer_keeps_the_last_five_in_order() {
    let mut buffer = PointerBuffer::new();
    for i in 0..7 {
        buffer.push(i);
    }
    assert_eq!(buffer.len(), POINTER_BUFFER_MAX_SAMPLES);
    assert_eq!(buffer.latest(), Some(&6));
    assert_eq!(buffer.latest_pair(), Some((&5, &6)));
    buffer.clear();
    assert!(buffer.is_empty());
    assert_eq!(buffer.latest(), None);
}

#[test]
fn pointer_buffer_pair_needs_two_samples() {
    let mut buffer = PointerBuffer::new();
    assert_eq!(buffer.latest_pair(), None);
    buffer.push(1u8);
    assert_eq!(buffer.latest_pair(), None);
    buffer.push(2u8);
    assert_eq!(buffer.latest_pair(), Some((&1, &2)));
}

#[test]
fn button_press_wins_over_release_in_one_tick() {
    let mut buffer = ButtonBuffer::default();
    assert!(!buffer.resolve_pressed(false));
    assert!(buffer.resolve_pressed(true));
    buffer.record_up();
    assert!(!buffer.resolve_pressed(true));
    buffer.record_down();
    assert!(buffer.resolve_pressed(false));
}

#[test]
fn wheel_buffer_saturates() {
    let mut buffer = WheelBuffer::default();
    buffer.add_vertical(i16::MAX);
    buffer.add_vertical(120);
    assert_eq!(buffer.vertical, i16::MAX);
    buffer.add_horizontal(i16::MIN);
    buffer.add_horizontal(-1);
    assert_eq!(buffer.horizontal, i16::MIN);
    let delta = buffer.to_delta();
    assert_eq!(delta, WheelDelta { vertical: i16::MAX, horizontal: i16::MIN });
}

#[test]
fn first_double_click_of_a_tick_is_kept() {
    assert_eq!(first_double_click(None, DoubleClick::Left), DoubleClick::Left);
    assert_eq!(
        first_double_click(Some(DoubleClick::Right), DoubleClick::Left),
        DoubleClick::Right
    );
}

fn empty_tick() -> TickInput {
    TickInput {
        left: None,
        right: None,
        middle: None,
        xbutton1: None,
        xbutton2: None,
        position: None,
        wheel: None,
        double_click: None,
        modifiers: None,
    }
}

#[test]
fn tick_merges_buffers_into_pointer_input() {
    let mut input = PointerInput::default();
    input.right_down = true;
    let mut left = ButtonBuffer::default();
    left.record_down();
    left.record_up();
    let mut right = ButtonBuffer::default();
    right.record_up();
    let tick = TickInput {
        left: Some(left),
        right: Some(right),
        position: Some(PhysicalPoint::new(30, 40)),
        wheel: Some(WheelDelta { vertical: 120, horizontal: 0 }),
        double_click: Some(DoubleClick::Left),
        modifiers: Some((true, false)),
        ..empty_tick()
    };
    input.apply_tick(&tick);
    assert!(input.left_down); // a press wins over a release in the same tick
    assert!(!input.right_down);
    assert!(!input.middle_down);
    assert_eq!(input.screen_point, PhysicalPoint::new(30, 40));
    assert_eq!(input.local_point, PhysicalPoint::new(30, 40));
    assert_eq!(input.wheel.vertical, 120);
    assert_eq!(input.double_click, DoubleClick::Left);
    assert!(input.shift_down && !input.ctrl_down);

    // A tick with nothing buffered keeps everything.
    let before = input;
    input.apply_tick(&empty_tick());
    assert_eq!(input, before);
}

#[test]
fn press_handlers_fire_once() {
    let mut input = PointerInput::default();
    let mut left = ButtonBuffer::default();
    left.record_down();
    input.apply_tick(&TickInput { left: Some(left), ..empty_tick() });
    assert!(input.fires_pressed());
    input.clear_after_dispatch();
    assert!(!input.left_down);
    assert_eq!(input.double_click, DoubleClick::NoClick);
    input.apply_tick(&empty_tick());
    assert!(!input.fires_pressed());

    // The extra buttons do not fire press handlers.
    let mut x1 = ButtonBuffer::default();
    x1.record_down();
    input.apply_tick(&TickInput { xbutton1: Some(x1), ..empty_tick() });
    assert!(input.xbutton1_down);
    assert!(!input.fires_pressed());
}

#[test]
fn transient_state_lasts_one_frame() {
    let mut input = PointerInput::default();
    input.apply_tick(&TickInput {
        wheel: Some(WheelDelta { vertical: -120, horizontal: 5 }),
        double_click: Some(DoubleClick::Right),
        position: Some(PhysicalPoint::new(1, 2)),
        ..empty_tick()
    });
    input.clear_transient();
    assert_eq!(input.double_click, DoubleClick::NoClick);
    assert_eq!(input.wheel, WheelDelta::default());
    assert_eq!(input.screen_point, PhysicalPoint::new(1, 2));
}
