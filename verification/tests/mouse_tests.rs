use std::collections::HashSet;
use std::time::Instant;
use wintf::ecs::pointer::{
    ButtonBuffer, DoubleClick, MouseBuffer, MouseButton, MouseLeave, PhysicalPoint, WheelBuffer,
    WheelDelta, WindowMouseTracking,
};
use wintf::ecs::pointer::{PointerLeave, WindowPointerTracking};

#[derive(Debug, Clone, Copy)]
struct PositionSample {
    x: f32,
    y: f32,
    #[allow(dead_code)]
    timestamp: Instant,
}

#[test]
fn test_mouse_buffer_push() {
    let mut buffer = MouseBuffer::new();
    assert!(buffer.is_empty());

    buffer.push(PositionSample {
        x: 10.0,
        y: 20.0,
        timestamp: Instant::now(),
    });
    assert_eq!(buffer.len(), 1);
    assert!(!buffer.is_empty());
}

#[test]
fn test_mouse_buffer_max_samples() {
    let mut buffer = MouseBuffer::new();
    for i in 0..10 {
        buffer.push(PositionSample {
            x: i as f32,
            y: i as f32,
            timestamp: Instant::now(),
        });
    }
    assert_eq!(buffer.len(), MouseBuffer::<PositionSample>::MAX_SAMPLES);

    let latest = buffer.latest().unwrap();
    assert_eq!(latest.x, 9.0);
}

#[test]
fn mouse_test_button_buffer_state() {
    let mut buffer = ButtonBuffer::default();
    assert!(!buffer.down_received);
    assert!(!buffer.up_received);

    buffer.record_down();
    assert!(buffer.down_received);
    assert!(!buffer.up_received);

    buffer.record_up();
    assert!(buffer.down_received);
    assert!(buffer.up_received);

    buffer.reset();
    assert!(!buffer.down_received);
    assert!(!buffer.up_received);
}

#[test]
fn mouse_test_wheel_buffer() {
    let mut buffer = WheelBuffer::default();
    assert_eq!(buffer.vertical, 0);
    assert_eq!(buffer.horizontal, 0);

    buffer.add_vertical(120);
    buffer.add_vertical(120);
    assert_eq!(buffer.vertical, 240);

    buffer.add_horizontal(-60);
    assert_eq!(buffer.horizontal, -60);

    buffer.reset();
    assert_eq!(buffer.vertical, 0);
    assert_eq!(buffer.horizontal, 0);
}

#[test]
fn test_mouse_leave_marker() {
    let leave1: MouseLeave = PointerLeave;
    let leave2: MouseLeave = PointerLeave;
    assert_eq!(leave1, leave2);
}

#[test]
fn test_window_mouse_tracking_default() {
    let tracking = WindowMouseTracking::default();
    assert!(!tracking.0);

    let tracking_enabled: WindowMouseTracking = WindowPointerTracking(true);
    assert!(tracking_enabled.0);
}

#[test]
fn mouse_test_physical_point_new() {
    let pt = PhysicalPoint::new(100, 200);
    assert_eq!(pt.x, 100);
    assert_eq!(pt.y, 200);
}

#[test]
fn mouse_test_double_click_variants() {
    assert_eq!(DoubleClick::default(), DoubleClick::NoClick);

    assert_ne!(DoubleClick::Left, DoubleClick::Right);
    assert_ne!(DoubleClick::Middle, DoubleClick::XButton1);
    assert_ne!(DoubleClick::XButton1, DoubleClick::XButton2);
}

#[test]
fn mouse_test_wheel_delta_default() {
    let delta = WheelDelta::default();
    assert_eq!(delta.vertical, 0);
    assert_eq!(delta.horizontal, 0);
}

#[test]
fn test_mouse_button_enum() {
    let mut set = HashSet::new();
    set.insert(MouseButton::Left);
    set.insert(MouseButton::Right);
    set.insert(MouseButton::Middle);
    set.insert(MouseButton::XButton1);
    set.insert(MouseButton::XButton2);
    assert_eq!(set.len(), 5);
}

