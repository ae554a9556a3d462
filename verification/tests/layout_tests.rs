use bevy_ecs::entity::Entity;
use wintf::ecs::layout::TaffyLayoutResource;
use wintf::ecs::layout::monitors::plan_monitor_changes;

fn entity(n: u32) -> Entity {
    Entity::from_raw_u32(n).unwrap()
}

#[test]
fn created_nodes_map_both_ways() {
    let mut res = TaffyLayoutResource::default();
    let a = entity(1);
    let b = entity(2);
    let na = res.create_node(a).unwrap();
    let nb = res.create_node(b).unwrap();
    assert_ne!(na, nb);
    assert_eq!(res.get_node(a), Some(na));
    assert_eq!(res.get_node(b), Some(nb));
    assert_eq!(res.get_entity(na), Some(a));
    assert_eq!(res.get_entity(nb), Some(b));
    assert_eq!(res.taffy().total_node_count(), 2);
}

#[test]
fn removed_node_is_unmapped() {
    let mut res = TaffyLayoutResource::new();
    let a = entity(3);
    let na = res.create_node(a).unwrap();
    res.remove_node(a).unwrap();
    assert_eq!(res.get_node(a), None);
    assert_eq!(res.get_entity(na), None);
    assert_eq!(res.taffy().total_node_count(), 0);
    // removing an unmapped entity changes nothing
    res.remove_node(a).unwrap();
    assert_eq!(res.taffy().total_node_count(), 0);
}

#[test]
fn mapping_check_passes_until_an_entity_is_mapped_twice() {
    let mut res = TaffyLayoutResource::new();
    assert!(res.verify_mapping_consistency());
    let a = entity(1);
    res.create_node(a).unwrap();
    res.create_node(entity(2)).unwrap();
    assert!(res.verify_mapping_consistency());
    // mapping the same entity again leaves its first node pointing back to it
    res.create_node(a).unwrap();
    assert!(!res.verify_mapping_consistency());
}

#[test]
fn monitors_are_matched_by_handle() {
    let existing = vec![100, 200, 300];
    let incoming = vec![300, 400, 100];
    let plan = plan_monitor_changes(&existing, &incoming);
    assert_eq!(plan.decisions, vec![Some(2), None, Some(0)]);
    assert_eq!(plan.removed, vec![1]);
}

#[test]
fn repeated_handles_update_once() {
    // the last record of a handle is the one updated; an enumerated handle
    // seen twice is added the second time
    let existing = vec![5, 7, 5];
    let incoming = vec![5, 5];
    let plan = plan_monitor_changes(&existing, &incoming);
    assert_eq!(plan.decisions, vec![Some(2), None]);
    assert_eq!(plan.removed, vec![1]);
    let empty = plan_monitor_changes(&vec![], &vec![]);
    assert!(empty.decisions.is_empty() && empty.removed.is_empty());
}

#[test]
fn create_node_succeeds_after_tree_changes() {
    let mut res = TaffyLayoutResource::new();
    let a = entity(5);
    let na = res.create_node(a).unwrap();
    // The tree is changed directly; creating another node still succeeds and
    // the new node is looked up again by its entity.
    res.taffy_mut().remove(na).unwrap();
    let b = entity(6);
    let nb = res.create_node(b).unwrap();
    assert_eq!(res.get_node(b), Some(nb));
    assert_eq!(res.get_entity(nb), Some(b));
}
