use bevy_ecs::entity::Entity;
use wintf::ecs::app::App;

fn entity(n: u32) -> Entity {
    Entity::from_raw_u32(n).unwrap()
}

#[test]
fn last_window_closed_quits() {
    let mut app = App::new();
    app.on_window_created(entity(1));
    app.on_window_created(entity(2));
    assert_eq!(app.window_count(), 2);
    assert!(!app.on_window_destroyed(entity(1)));
    assert_eq!(app.window_count(), 1);
    assert!(app.on_window_destroyed(entity(2)));
    assert_eq!(app.window_count(), 0);
}

#[test]
fn destroying_without_windows_stays_at_zero() {
    let mut app = App::default();
    assert!(app.on_window_destroyed(entity(7)));
    assert_eq!(app.window_count(), 0);
}

#[test]
fn display_change_flag_and_message_window() {
    let mut app = App::new();
    assert!(!app.display_configuration_changed());
    app.mark_display_change();
    assert!(app.display_configuration_changed());
    app.reset_display_change();
    assert!(!app.display_configuration_changed());
    assert_eq!(app.message_window(), None);
    app.set_message_window(0x1234);
    assert_eq!(app.message_window(), Some(0x1234));
}
