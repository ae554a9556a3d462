//! The layout tree and its two-way mapping with entities.

use crate::outside::{entity_bits, entity_to_bits};
use bevy_ecs::entity::Entity;
use std::collections::HashMap;
use taffy::{NodeId, TaffyError, TaffyTree};
use vstd::prelude::*;
use vstd::std_specs::hash::obeys_key_model;
use vstd::std_specs::iter::IteratorSpec;

verus! {

broadcast use vstd::std_specs::hash::group_hash_axioms;

/// A layout tree of the `taffy` crate.
#[verifier::external_type_specification]
#[verifier::external_body]
#[verifier::reject_recursive_types(NodeContext)]
pub struct ExTaffyTree<NodeContext>(TaffyTree<NodeContext>);

/// A node identifier of the `taffy` crate.
#[verifier::external_type_specification]
#[verifier::external_body]
pub struct ExNodeId(NodeId);

/// An error of the `taffy` crate.
#[verifier::external_type_specification]
#[verifier::external_body]
pub struct ExTaffyError(TaffyError);

/// The raw 64-bit value of a node identifier.
pub uninterp spec fn node_raw(n: NodeId) -> u64;

/// The raw identifiers of the nodes a tree holds.
pub uninterp spec fn taffy_node_ids(tree: TaffyTree<()>) -> Set<u64>;

/// `u64::from(NodeId)`: the identifier's raw value. A `NodeId` wraps
/// exactly one `u64`, so identifiers with the same raw value are equal.
#[verifier::external_body]
fn node_to_raw(n: NodeId) -> (r: u64)
    ensures
        r == node_raw(n),
        forall|m: NodeId| #[trigger] node_raw(m) == r ==> m == n,
{
    u64::from(n)
}

/// `NodeId::from(u64)`: wraps a raw value; unwrapping gives it back, and
/// it is the only identifier with that raw value (a `NodeId` wraps exactly
/// one `u64`).
#[verifier::external_body]
fn node_from_raw(raw: u64) -> (n: NodeId)
    ensures
        node_raw(n) == raw,
        forall|m: NodeId| #[trigger] node_raw(m) == raw ==> m == n,
{
    NodeId::from(raw)
}

/// `TaffyTree::new`: a tree without nodes.
#[verifier::external_body]
fn tree_new() -> (t: TaffyTree<()>)
    ensures
        taffy_node_ids(t) == Set::<u64>::empty(),
{
    TaffyTree::new()
}

/// `TaffyTree::new_leaf` with the default style: inserts a node into the
/// tree's slot map and returns its identifier, which no node of the tree had
/// before; the call never fails.
#[verifier::external_body]
fn tree_new_leaf(tree: &mut TaffyTree<()>) -> (r: Result<NodeId, TaffyError>)
    ensures
        r matches Ok(n) && !taffy_node_ids(*old(tree)).contains(node_raw(n))
            && taffy_node_ids(*final(tree)) == taffy_node_ids(*old(tree)).insert(node_raw(n)),
{
    tree.new_leaf(taffy::Style::default())
}

/// `TaffyTree::remove` of a node the tree holds (it indexes the tree's slot
/// maps by the node and panics on a node it does not hold): detaches and
/// removes that node and returns it; the other nodes stay.
#[verifier::external_body]
fn tree_remove(tree: &mut TaffyTree<()>, node: NodeId) -> (r: Result<NodeId, TaffyError>)
    requires
        taffy_node_ids(*old(tree)).contains(node_raw(node)),
    ensures
        r is Ok,
        taffy_node_ids(*final(tree)) == taffy_node_ids(*old(tree)).remove(node_raw(node)),
{
    tree.remove(node)
}

/// The layout tree and the two-way mapping between entities and its nodes.
pub struct TaffyLayoutResource {
    tree: TaffyTree<()>,
    /// Entity (by its 64-bit encoding) to raw node identifier.
    entity_to_node: HashMap<u64, u64>,
    /// Raw node identifier to entity.
    node_to_entity: HashMap<u64, Entity>,
}

impl TaffyLayoutResource {
    /// Entity encoding to raw node identifier.
    pub closed spec fn entity_nodes(self) -> Map<u64, u64> {
        self.entity_to_node@
    }

    /// Raw node identifier to entity.
    pub closed spec fn node_entities(self) -> Map<u64, Entity> {
        self.node_to_entity@
    }

    /// Raw identifiers of the nodes of the layout tree.
    pub closed spec fn tree_nodes(self) -> Set<u64> {
        taffy_node_ids(self.tree)
    }

    /// Every node the mapping names is a node of the tree, and no two
    /// entities are mapped to the same node.
    pub open spec fn nodes_live(self) -> bool {
        &&& forall|k: u64| #[trigger]
            self.entity_nodes().contains_key(k) ==> self.tree_nodes().contains(
                self.entity_nodes()[k],
            )
        &&& forall|n: u64| #[trigger]
            self.node_entities().contains_key(n) ==> self.tree_nodes().contains(n)
        &&& forall|k1: u64, k2: u64|
            #![trigger self.entity_nodes()[k1], self.entity_nodes()[k2]]
            self.entity_nodes().contains_key(k1) && self.entity_nodes().contains_key(k2)
                && self.entity_nodes()[k1] == self.entity_nodes()[k2] ==> k1 == k2
    }

    /// The two directions of the mapping are inverse to each other.
    pub open spec fn consistent(self) -> bool {
        &&& forall|k: u64| #[trigger]
            self.entity_nodes().contains_key(k) ==> self.node_entities().contains_key(
                self.entity_nodes()[k],
            ) && entity_to_bits(self.node_entities()[self.entity_nodes()[k]]) == k
        &&& forall|n: u64| #[trigger]
            self.node_entities().contains_key(n) ==> self.entity_nodes().contains_key(
                entity_to_bits(self.node_entities()[n]),
            ) && self.entity_nodes()[entity_to_bits(self.node_entities()[n])] == n
    }

    /// Whether `entity` is mapped to a node.
    pub open spec fn maps(self, entity: Entity) -> bool {
        self.entity_nodes().contains_key(entity_to_bits(entity))
    }

    /// An empty tree and an empty mapping.
    pub fn new() -> (r: Self)
        ensures
            r.entity_nodes() == Map::<u64, u64>::empty(),
            r.node_entities() == Map::<u64, Entity>::empty(),
            r.tree_nodes() == Set::<u64>::empty(),
            r.nodes_live(),
            r.consistent(),
    {
        TaffyLayoutResource {
            tree: tree_new(),
            entity_to_node: HashMap::new(),
            node_to_entity: HashMap::new(),
        }
    }

    /// Creates a leaf node with the default style and maps `entity` to it
    /// (both directions); this always succeeds. A mapping that only names
    /// nodes of the tree keeps doing so, and one that was also consistent
    /// stays consistent when `entity` was not mapped yet; mapping an entity a
    /// second time leaves its earlier node mapped back to it.
    pub fn create_node(&mut self, entity: Entity) -> (r: Result<NodeId, TaffyError>)
        ensures
            old(self).nodes_live() ==> final(self).nodes_live(),
            r matches Ok(n) && {
                let raw = node_raw(n);
                &&& !old(self).tree_nodes().contains(raw)
                &&& final(self).tree_nodes() == old(self).tree_nodes().insert(raw)
                &&& final(self).entity_nodes() == old(self).entity_nodes().insert(
                    entity_to_bits(entity),
                    raw,
                )
                &&& final(self).node_entities() == old(self).node_entities().insert(raw, entity)
            },
            old(self).nodes_live() && old(self).consistent() && !old(self).maps(entity)
                ==> final(self).consistent(),
    {
        let ghost before = *old(self);
        let node_id = match tree_new_leaf(&mut self.tree) {
            Ok(n) => n,
            Err(e) => {
                return Err(e);
            },
        };
        let raw = node_to_raw(node_id);
        let key = entity_bits(entity);
        assert(obeys_key_model::<u64>());
        self.entity_to_node.insert(key, raw);
        self.node_to_entity.insert(raw, entity);
        proof {
            if before.nodes_live() {
            assert forall|k: u64| #[trigger]
                self.entity_nodes().contains_key(k) implies self.tree_nodes().contains(
                    self.entity_nodes()[k],
                ) by {
                if k != key {
                    assert(before.entity_nodes().contains_key(k));
                }
            }
            assert forall|n: u64| #[trigger]
                self.node_entities().contains_key(n) implies self.tree_nodes().contains(n) by {
                if n != raw {
                    assert(before.node_entities().contains_key(n));
                }
            }
            assert forall|k1: u64, k2: u64|
                #![trigger self.entity_nodes()[k1], self.entity_nodes()[k2]]
                self.entity_nodes().contains_key(k1) && self.entity_nodes().contains_key(k2)
                    && self.entity_nodes()[k1] == self.entity_nodes()[k2] implies k1 == k2 by {
                if k1 != key && k2 != key {
                    assert(before.entity_nodes()[k1] == before.entity_nodes()[k2]);
                } else if k1 != key {
                    assert(before.tree_nodes().contains(before.entity_nodes()[k1]));
                } else if k2 != key {
                    assert(before.tree_nodes().contains(before.entity_nodes()[k2]));
                }
            }
            }
            if before.nodes_live() && before.consistent() && !before.maps(entity) {
                assert forall|k: u64| #[trigger]
                    self.entity_nodes().contains_key(k) implies self.node_entities().contains_key(
                        self.entity_nodes()[k],
                    ) && entity_to_bits(self.node_entities()[self.entity_nodes()[k]]) == k by {
                    if k != key {
                        assert(before.entity_nodes().contains_key(k));
                        assert(before.tree_nodes().contains(before.entity_nodes()[k]));
                    }
                }
                assert forall|n: u64| #[trigger]
                    self.node_entities().contains_key(n) implies self.entity_nodes().contains_key(
                        entity_to_bits(self.node_entities()[n]),
                    ) && self.entity_nodes()[entity_to_bits(self.node_entities()[n])] == n by {
                    if n != raw {
                        assert(before.node_entities().contains_key(n));
                    }
                }
            }
        }
        Ok(node_id)
    }

    /// Removes the node mapped to `entity`, if any, from the tree and from
    /// both directions of the mapping. The node must still be in the tree
    /// (removing a node the tree no longer holds panics in `taffy`).
    pub fn remove_node(&mut self, entity: Entity) -> (r: Result<(), TaffyError>)
        requires
            old(self).maps(entity) ==> old(self).tree_nodes().contains(
                old(self).entity_nodes()[entity_to_bits(entity)],
            ),
        ensures
            r is Ok,
            old(self).nodes_live() ==> final(self).nodes_live(),
            !final(self).maps(entity),
            !old(self).maps(entity) ==> final(self).entity_nodes() == old(self).entity_nodes()
                && final(self).node_entities() == old(self).node_entities()
                && final(self).tree_nodes() == old(self).tree_nodes(),
            old(self).maps(entity) ==> {
                let raw = old(self).entity_nodes()[entity_to_bits(entity)];
                &&& final(self).entity_nodes() == old(self).entity_nodes().remove(entity_to_bits(entity))
                &&& final(self).node_entities() == old(self).node_entities().remove(raw)
                &&& final(self).tree_nodes() == old(self).tree_nodes().remove(raw)
            },
            old(self).consistent() ==> final(self).consistent(),
    {
        let ghost before = *old(self);
        let key = entity_bits(entity);
        assert(obeys_key_model::<u64>());
        if let Some(raw) = self.entity_to_node.remove(&key) {
            assert(before.entity_nodes().contains_key(key));
            self.node_to_entity.remove(&raw);
            let node = node_from_raw(raw);
            match tree_remove(&mut self.tree, node) {
                Ok(_) => {},
                Err(e) => {
                    return Err(e);
                },
            }
            proof {
                if before.nodes_live() {
                    assert forall|k: u64| #[trigger]
                        self.entity_nodes().contains_key(k) implies self.tree_nodes().contains(
                            self.entity_nodes()[k],
                        ) by {
                        assert(before.entity_nodes().contains_key(k));
                        assert(before.entity_nodes()[k] != raw);
                    }
                    assert forall|n: u64| #[trigger]
                        self.node_entities().contains_key(n) implies self.tree_nodes().contains(n) by {
                        assert(before.node_entities().contains_key(n));
                    }
                    assert forall|k1: u64, k2: u64|
                        #![trigger self.entity_nodes()[k1], self.entity_nodes()[k2]]
                        self.entity_nodes().contains_key(k1) && self.entity_nodes().contains_key(k2)
                            && self.entity_nodes()[k1] == self.entity_nodes()[k2] implies k1 == k2 by {
                        assert(before.entity_nodes()[k1] == before.entity_nodes()[k2]);
                    }
                }
                if before.consistent() {
                    assert(before.node_entities().contains_key(raw));
                    assert(entity_to_bits(before.node_entities()[raw]) == key);
                    assert forall|k: u64| #[trigger]
                        self.entity_nodes().contains_key(k) implies self.node_entities().contains_key(
                            self.entity_nodes()[k],
                        ) && entity_to_bits(self.node_entities()[self.entity_nodes()[k]]) == k by {
                        assert(before.entity_nodes().contains_key(k));
                        assert(entity_to_bits(before.node_entities()[before.entity_nodes()[k]]) == k);
                        assert(before.entity_nodes()[k] != raw);
                    }
                    assert forall|n: u64| #[trigger]
                        self.node_entities().contains_key(n) implies self.entity_nodes().contains_key(
                            entity_to_bits(self.node_entities()[n]),
                        ) && self.entity_nodes()[entity_to_bits(self.node_entities()[n])] == n by {
                        assert(before.node_entities().contains_key(n));
                        assert(n != raw);
                        let b = entity_to_bits(before.node_entities()[n]);
                        assert(before.entity_nodes().contains_key(b));
                        if b == key {
                            assert(before.entity_nodes()[b] == n);
                        }
                    }
                }
            }
        } else {
            assert(self.entity_nodes() =~= before.entity_nodes());
            assert(self.node_entities() == before.node_entities());
            assert(self.tree_nodes() == before.tree_nodes());
        }
        Ok(())
    }

    /// The node mapped to `entity`, if any.
    pub fn get_node(&self, entity: Entity) -> (r: Option<NodeId>)
        ensures
            self.maps(entity) <==> r is Some,
            r matches Some(n) ==> node_raw(n) == self.entity_nodes()[entity_to_bits(entity)],
            self.maps(entity) ==> forall|m: NodeId| #[trigger]
                node_raw(m) == self.entity_nodes()[entity_to_bits(entity)] ==> r == Some(m),
            self.consistent() ==> (r matches Some(n) ==> self.node_entities().contains_key(
                node_raw(n),
            ) && self.node_entities()[node_raw(n)] == entity),
    {
        let key = entity_bits(entity);
        assert(obeys_key_model::<u64>());
        match self.entity_to_node.get(&key) {
            Some(raw) => Some(node_from_raw(*raw)),
            None => None,
        }
    }

    /// The entity mapped to `node_id`, if any.
    pub fn get_entity(&self, node_id: NodeId) -> (r: Option<Entity>)
        ensures
            self.node_entities().contains_key(node_raw(node_id)) <==> r is Some,
            r matches Some(e) ==> e == self.node_entities()[node_raw(node_id)],
    {
        let raw = node_to_raw(node_id);
        assert(obeys_key_model::<u64>());
        match self.node_to_entity.get(&raw) {
            Some(e) => Some(*e),
            None => None,
        }
    }

    /// The check that the mapping's debug builds make: both directions hold
    /// the same number of entries, and every entity's node maps back to that
    /// entity.
    pub open spec fn mapping_checks(self) -> bool {
        &&& self.entity_nodes().len() == self.node_entities().len()
        &&& forall|k: u64| #[trigger]
            self.entity_nodes().contains_key(k) ==> self.node_entities().contains_key(
                self.entity_nodes()[k],
            ) && entity_to_bits(self.node_entities()[self.entity_nodes()[k]]) == k
    }

    /// Whether the mapping passes its consistency check (equal sizes, and
    /// every entity's node maps back to that entity).
    pub fn verify_mapping_consistency(&self) -> (ok: bool)
        ensures
            ok == self.mapping_checks(),
    {
        assert(obeys_key_model::<u64>());
        if self.entity_to_node.len() != self.node_to_entity.len() {
            return false;
        }
        let ghost pairs = self.entity_to_node.iter().remaining();
        for item in it: self.entity_to_node.iter()
            invariant
                obeys_key_model::<u64>(),
                it.seq() == pairs,
                pairs.len() == self.entity_nodes().dom().len(),
                forall|i: int|
                    #![trigger pairs[i]]
                    0 <= i < pairs.len() ==> self.entity_nodes().contains_key(*pairs[i].0)
                        && self.entity_nodes()[*pairs[i].0] == *pairs[i].1,
                forall|k: u64| #[trigger]
                    self.entity_nodes().contains_key(k) ==> pairs.contains(
                        (&k, &self.entity_nodes()[k]),
                    ),
                forall|i: int|
                    #![trigger pairs[i]]
                    0 <= i < it.index() ==> self.node_entities().contains_key(*pairs[i].1)
                        && entity_to_bits(self.node_entities()[*pairs[i].1]) == *pairs[i].0,
        {
            let (key, raw) = item;
            match self.node_to_entity.get(raw) {
                Some(e) => {
                    if entity_bits(*e) != *key {
                        return false;
                    }
                },
                None => {
                    return false;
                },
            }
        }
        proof {
            assert forall|k: u64| #[trigger]
                self.entity_nodes().contains_key(k) implies self.node_entities().contains_key(
                    self.entity_nodes()[k],
                ) && entity_to_bits(self.node_entities()[self.entity_nodes()[k]]) == k by {
                let i = choose|i: int| 0 <= i < pairs.len() && pairs[i] == (&k, &self.entity_nodes()[k]);
                assert(pairs[i] == (&k, &self.entity_nodes()[k]));
            }
        }
        true
    }

    /// The layout tree, for changes that do not add or remove nodes (styles,
    /// children, layout computation); the mapping is left as it is.
    pub fn taffy_mut(&mut self) -> (t: &mut TaffyTree<()>)
        ensures
            taffy_node_ids(*t) == old(self).tree_nodes(),
            final(self).tree_nodes() == taffy_node_ids(*final(t)),
            final(self).entity_nodes() == old(self).entity_nodes(),
            final(self).node_entities() == old(self).node_entities(),
    {
        &mut self.tree
    }

    /// The layout tree.
    pub fn taffy(&self) -> (t: &TaffyTree<()>)
        ensures
            taffy_node_ids(*t) == self.tree_nodes(),
    {
        &self.tree
    }
}

impl Default for TaffyLayoutResource {
    fn default() -> (r: Self)
        ensures
            r.entity_nodes() == Map::<u64, u64>::empty(),
            r.node_entities() == Map::<u64, Entity>::empty(),
            r.tree_nodes() == Set::<u64>::empty(),
            r.nodes_live(),
            r.consistent(),
    {
        Self::new()
    }
}

} // verus!
