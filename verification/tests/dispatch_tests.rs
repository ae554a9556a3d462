use bevy_ecs::hierarchy::ChildOf;
use bevy_ecs::world::World;
use wintf::ecs::pointer::dispatch::build_bubble_path;
use wintf::ecs::pointer::{DispatchCursor, Phase, PhaseKind, VisitOutcome};

#[test]
fn test_phase_tunnel() {
    let phase = Phase::Tunnel(42);
    assert!(phase.is_tunnel());
    assert!(!phase.is_bubble());
    assert_eq!(*phase.value(), 42);
}

#[test]
fn test_phase_bubble() {
    let phase = Phase::Bubble("test");
    assert!(!phase.is_tunnel());
    assert!(phase.is_bubble());
    assert_eq!(*phase.value(), "test");
}

#[test]
fn test_phase_clone() {
    let phase = Phase::Tunnel(100);
    let cloned = phase.clone();
    assert_eq!(*cloned.value(), 100);
}

#[test]
fn test_build_bubble_path_single_entity() {
    let mut world = World::new();
    let entity = world.spawn_empty().id();

    let path = build_bubble_path(&world, entity);
    assert_eq!(path.len(), 1);
    assert_eq!(path[0], entity);
}

#[test]
fn test_build_bubble_path_hierarchy() {
    let mut world = World::new();
    let root = world.spawn_empty().id();
    let child = world.spawn(ChildOf(root)).id();
    let grandchild = world.spawn(ChildOf(child)).id();

    let path = build_bubble_path(&world, grandchild);
    assert_eq!(path.len(), 3);
    assert_eq!(path[0], grandchild);
    assert_eq!(path[1], child);
    assert_eq!(path[2], root);
}

// --- further cases ---

fn visits(path_len: usize, outcomes: &dyn Fn(PhaseKind, usize) -> VisitOutcome) -> Vec<(PhaseKind, usize)> {
    let mut cursor = DispatchCursor::new(path_len);
    let mut seen = Vec::new();
    while let Some((kind, index)) = cursor.current() {
        seen.push((kind, index));
        cursor.advance(outcomes(kind, index));
    }
    seen
}

#[test]
fn dispatch_visits_tunnel_then_bubble() {
    let seen = visits(3, &|_, _| VisitOutcome::Continue);
    assert_eq!(
        seen,
        vec![
            (PhaseKind::Tunnel, 2),
            (PhaseKind::Tunnel, 1),
            (PhaseKind::Tunnel, 0),
            (PhaseKind::Bubble, 0),
            (PhaseKind::Bubble, 1),
            (PhaseKind::Bubble, 2),
        ]
    );
}

#[test]
fn dispatch_stops_when_handled_in_bubble() {
    // root (index 1) has no stopping handler; the sender (index 0) stops in bubble.
    let seen = visits(2, &|kind, index| {
        if kind == PhaseKind::Bubble && index == 0 {
            VisitOutcome::Handled
        } else {
            VisitOutcome::Continue
        }
    });
    assert_eq!(
        seen,
        vec![(PhaseKind::Tunnel, 1), (PhaseKind::Tunnel, 0), (PhaseKind::Bubble, 0)]
    );
}

#[test]
fn dispatch_stops_at_missing_entity() {
    let seen = visits(3, &|_, index| {
        if index == 1 {
            VisitOutcome::Missing
        } else {
            VisitOutcome::Continue
        }
    });
    assert_eq!(seen, vec![(PhaseKind::Tunnel, 2), (PhaseKind::Tunnel, 1)]);
}

#[test]
fn dispatch_over_empty_path_visits_nothing() {
    assert!(visits(0, &|_, _| VisitOutcome::Continue).is_empty());
}
