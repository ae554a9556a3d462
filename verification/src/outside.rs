//! Outside types that the verified logic carries through unchanged, and the
//! few outside calls that it makes.

use vstd::prelude::*;

verus! {

/// An ECS entity identifier; the logic only stores, copies and compares it.
#[verifier::external_type_specification]
#[verifier::external_body]
pub struct ExEntity(bevy_ecs::entity::Entity);

/// A monotonic timestamp; the logic only stores it.
#[verifier::external_type_specification]
#[verifier::external_body]
pub struct ExInstant(std::time::Instant);

/// `Entity` derives `Clone` and `Copy`: a clone is a bitwise copy.
pub assume_specification[<bevy_ecs::entity::Entity as Clone>::clone](e: &bevy_ecs::entity::Entity) -> (r: bevy_ecs::entity::Entity)
    ensures
        r == *e,
;

/// `Instant` derives `Clone` and `Copy`: a clone is a bitwise copy.
pub assume_specification[<std::time::Instant as Clone>::clone](t: &std::time::Instant) -> (r: std::time::Instant)
    ensures
        r == *t,
;

/// The 64-bit encoding of an entity (`Entity::to_bits`: row in the low
/// half, generation in the high half).
pub uninterp spec fn entity_to_bits(e: bevy_ecs::entity::Entity) -> u64;

/// `Entity::to_bits`: the entity's 64-bit encoding, a function of the
/// entity alone.
#[verifier::external_body]
pub(crate) fn entity_bits(e: bevy_ecs::entity::Entity) -> (r: u64)
    ensures
        r == entity_to_bits(e),
        forall|o: bevy_ecs::entity::Entity| #[trigger] entity_to_bits(o) == r ==> o == e,
{
    e.to_bits()
}

/// An ECS world; the logic reads the parent links of its entities.
#[verifier::external_type_specification]
#[verifier::external_body]
pub struct ExWorld(bevy_ecs::world::World);

/// The parent links of a world: the encoding of each entity that exists and
/// carries a `ChildOf` component, mapped to the parent that component names.
pub uninterp spec fn world_parents(world: bevy_ecs::world::World) -> Map<u64, bevy_ecs::entity::Entity>;

/// `World::get::<ChildOf>(entity)` followed by `ChildOf::parent`: the parent
/// of `entity`, when it exists and has one.
#[verifier::external_body]
pub(crate) fn parent_of(world: &bevy_ecs::world::World, entity: bevy_ecs::entity::Entity) -> (r: Option<bevy_ecs::entity::Entity>)
    ensures
        r == (if world_parents(*world).contains_key(entity_to_bits(entity)) {
            Some(world_parents(*world)[entity_to_bits(entity)])
        } else {
            None
        }),
{
    world.get::<bevy_ecs::hierarchy::ChildOf>(entity).map(|c| c.parent())
}

/// The number of entities a world has allocated.
pub uninterp spec fn world_entity_count(world: bevy_ecs::world::World) -> u32;

/// The entities of `world` that carry a parent link are finitely many, and
/// at most `count`.
pub open spec fn parent_links_within(world: bevy_ecs::world::World, count: u32) -> bool {
    &&& world_parents(world).dom().finite()
    &&& world_parents(world).dom().len() <= count
}

/// `World::entities().len()`: the number of entities currently allocated.
/// An entity that carries a `ChildOf` component is allocated, so the
/// entities with a parent link are among those counted.
#[verifier::external_body]
pub(crate) fn entity_count(world: &bevy_ecs::world::World) -> (r: u32)
    ensures
        r == world_entity_count(*world),
        parent_links_within(*world, r),
{
    world.entities().len()
}

/// Reads the monotonic clock (`std::time::Instant::now`).
///
/// Nothing is promised of the result: it depends on the time of the call.
#[verifier::external_body]
pub(crate) fn instant_now() -> std::time::Instant {
    std::time::Instant::now()
}

} // verus!
