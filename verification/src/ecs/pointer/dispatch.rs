//! The order in which a routed event visits the entities of its path.
//!
//! An event raised on a `sender` entity travels along the path
//! `sender → … → root` twice: first in the tunnel phase, from the root down
//! to the sender, then in the bubble phase, from the sender up to the root.
//! A handler that reports the event as handled stops the travel, and so does
//! an entity of the path that no longer exists.

use crate::outside::{entity_count, entity_to_bits, parent_of, world_entity_count, world_parents};
use bevy_ecs::entity::Entity;
use bevy_ecs::world::World;
use vstd::prelude::*;

verus! {

/// The parent of `e` in `world`, if it has one.
pub open spec fn parent_in(world: World, e: Entity) -> Option<Entity> {
    if world_parents(world).contains_key(entity_to_bits(e)) {
        Some(world_parents(world)[entity_to_bits(e)])
    } else {
        None
    }
}

/// `path` starts at `start` and follows parent links: each entity after the
/// first is the parent of the one before it.
pub open spec fn follows_parents(world: World, start: Entity, path: Seq<Entity>) -> bool {
    &&& path.len() >= 1
    &&& path[0] == start
    &&& forall|i: int| 0 <= i < path.len() - 1 ==> parent_in(world, #[trigger] path[i]) == Some(path[i + 1])
}

/// `chain` is the whole parent chain of `start` in a hierarchy without
/// cycles: it follows parent links from `start`, names no entity twice, and
/// ends at a root (an entity without parent).
pub open spec fn acyclic_root_chain(world: World, start: Entity, chain: Seq<Entity>) -> bool {
    &&& follows_parents(world, start, chain)
    &&& chain.no_duplicates()
    &&& parent_in(world, chain.last()) is None
}

/// The propagation path of an event raised on `start`: `start`, its parent,
/// its grandparent, and so on up to the root (an entity without parent).
///
/// On a hierarchy without cycles the path is the whole chain up to the
/// root. The walk takes at most as many steps as the world has entities; a
/// path that ends before a root (only on a cyclic hierarchy) has exactly
/// one more entry than the world has entities.
pub fn build_bubble_path(world: &World, start: Entity) -> (path: Vec<Entity>)
    ensures
        follows_parents(*world, start, path@),
        parent_in(*world, path@.last()) is None || path@.len() == world_entity_count(*world) + 1,
        path@.len() <= world_entity_count(*world) + 1,
        forall|chain: Seq<Entity>| #[trigger] acyclic_root_chain(*world, start, chain) ==> path@ == chain,
{
    let bound = entity_count(world);
    let mut path: Vec<Entity> = Vec::new();
    path.push(start);
    let mut current = start;
    let mut steps: u32 = 0;
    let mut at_root = false;
    while steps < bound && !at_root
        invariant
            follows_parents(*world, start, path@),
            path@.last() == current,
            path@.len() == steps + 1,
            steps <= bound,
            bound == world_entity_count(*world),
            at_root ==> parent_in(*world, current) is None,
        decreases bound - steps + (if at_root { 0int } else { 1int }),
    {
        match parent_of(world, current) {
            Some(parent) => {
                path.push(parent);
                current = parent;
                steps = steps + 1;
            },
            None => {
                at_root = true;
            },
        }
    }
    proof {
        assert forall|chain: Seq<Entity>| #[trigger] acyclic_root_chain(*world, start, chain) implies path@ == chain by {
            lemma_acyclic_chain_is_short(*world, start, chain);
            lemma_bubble_path_is_parent_chain(*world, start, path@, chain);
        }
    }
    path
}

/// A parent chain that names no entity twice has at most one more entry
/// than there are entities with a parent link.
proof fn lemma_acyclic_chain_is_short(world: World, start: Entity, chain: Seq<Entity>)
    requires
        follows_parents(world, start, chain),
        chain.no_duplicates(),
        world_parents(world).dom().finite(),
    ensures
        chain.len() <= world_parents(world).dom().len() + 1,
{
    let keys = chain.drop_last().map_values(|e: Entity| entity_to_bits(e));
    assert forall|i: int, j: int| 0 <= i < keys.len() && 0 <= j < keys.len() && i != j implies keys[i] != keys[j] by {
        assert(parent_in(world, chain[i]) == Some(chain[i + 1]));
        assert(parent_in(world, chain[j]) == Some(chain[j + 1]));
        if keys[i] == keys[j] {
            assert(chain[i + 1] == chain[j + 1]);
        }
    }
    assert(keys.no_duplicates());
    keys.unique_seq_to_set();
    assert forall|k: u64| keys.to_set().contains(k) implies world_parents(world).dom().contains(k) by {
        let i = choose|i: int| 0 <= i < keys.len() && keys[i] == k;
        assert(parent_in(world, chain[i]) == Some(chain[i + 1]));
    }
    vstd::set_lib::lemma_len_subset(keys.to_set(), world_parents(world).dom());
}

/// On a hierarchy where the parent chain of `start` reaches a root within
/// as many steps as the world has entities (any hierarchy without cycles),
/// the path that [`build_bubble_path`] returns is exactly that chain: from
/// `start` up to the root, nothing cut off and nothing added.
pub proof fn lemma_bubble_path_is_parent_chain(
    world: World,
    start: Entity,
    path: Seq<Entity>,
    chain: Seq<Entity>,
)
    requires
        follows_parents(world, start, path),
        parent_in(world, path.last()) is None || path.len() == world_entity_count(world) + 1,
        follows_parents(world, start, chain),
        parent_in(world, chain.last()) is None,
        chain.len() <= world_entity_count(world) + 1,
    ensures
        path == chain,
{
    let m = if path.len() <= chain.len() { path.len() } else { chain.len() };
    assert forall|i: int| 0 <= i < m implies path[i] == chain[i] by {
        lemma_chains_agree(world, start, path, chain, i);
    }
    if path.len() < chain.len() {
        assert(parent_in(world, chain[path.len() - 1]) == Some(chain[path.len() as int]));
        assert(path.last() == chain[path.len() - 1]);
    } else if chain.len() < path.len() {
        assert(parent_in(world, path[chain.len() - 1]) == Some(path[chain.len() as int]));
        assert(chain.last() == path[chain.len() - 1]);
    }
    assert(path =~= chain);
}

/// Two paths that follow parent links from the same entity agree on their
/// common length.
proof fn lemma_chains_agree(world: World, start: Entity, a: Seq<Entity>, b: Seq<Entity>, i: int)
    requires
        follows_parents(world, start, a),
        follows_parents(world, start, b),
        0 <= i < a.len(),
        i < b.len(),
    ensures
        a[i] == b[i],
    decreases i,
{
    if i > 0 {
        lemma_chains_agree(world, start, a, b, i - 1);
        assert(parent_in(world, a[i - 1]) == Some(a[i]));
        assert(parent_in(world, b[i - 1]) == Some(b[i]));
    }
}

/// An event together with the phase in which it is delivered.
#[derive(Clone, Debug)]
pub enum Phase<T> {
    /// Root to sender (preview handlers).
    Tunnel(T),
    /// Sender to root (ordinary handlers).
    Bubble(T),
}

impl<T> Phase<T> {
    /// The event, whatever the phase.
    pub fn value(&self) -> (v: &T)
        ensures
            v == (match self {
                Phase::Tunnel(x) => x,
                Phase::Bubble(x) => x,
            }),
    {
        match self {
            Phase::Tunnel(v) => v,
            Phase::Bubble(v) => v,
        }
    }

    /// Whether this is the tunnel phase.
    pub fn is_tunnel(&self) -> (b: bool)
        ensures
            b == (self is Tunnel),
    {
        match self {
            Phase::Tunnel(_) => true,
            Phase::Bubble(_) => false,
        }
    }

    /// Whether this is the bubble phase.
    pub fn is_bubble(&self) -> (b: bool)
        ensures
            b == (self is Bubble),
    {
        match self {
            Phase::Tunnel(_) => false,
            Phase::Bubble(_) => true,
        }
    }
}

/// The two propagation phases, without an event.
#[derive(Debug, Clone, Copy, PartialEq, Eq, Structural)]
pub enum PhaseKind {
    Tunnel,
    Bubble,
}

/// What happened at one visited entity.
#[derive(Debug, Clone, Copy, PartialEq, Eq, Structural)]
pub enum VisitOutcome {
    /// The entity no longer exists: the dispatch ends quietly.
    Missing,
    /// The entity has no handler, or its handler left the event unhandled.
    Continue,
    /// The entity's handler reported the event as handled.
    Handled,
}

/// The `step`-th visit of a dispatch over a path of `path_len` entities:
/// the tunnel phase visits indices `path_len - 1` down to `0`, the bubble
/// phase then visits `0` up to `path_len - 1`.
pub open spec fn visit_at(path_len: nat, step: nat) -> (PhaseKind, int) {
    if step < path_len {
        (PhaseKind::Tunnel, path_len - 1 - step)
    } else {
        (PhaseKind::Bubble, step - path_len)
    }
}

/// Each entity of the path is visited once in each phase: the tunnel phase
/// reaches the entity at index `i` at step `path_len - 1 - i` (root first),
/// the bubble phase at step `path_len + i` (sender first), and all tunnel
/// visits come before all bubble visits.
pub proof fn lemma_visit_order(path_len: nat, i: nat)
    requires
        i < path_len,
    ensures
        visit_at(path_len, (path_len - 1 - i) as nat) == (PhaseKind::Tunnel, i as int),
        visit_at(path_len, path_len + i) == (PhaseKind::Bubble, i as int),
        (path_len - 1 - i) < path_len <= path_len + i,
{
}

/// Walks the visits of one dispatch. The caller looks the current entity
/// up, runs its handler, and reports the outcome with [`DispatchCursor::advance`].
#[derive(Debug, Clone, Copy, PartialEq, Eq, Structural)]
pub struct DispatchCursor {
    /// Length of the path (sender first, root last).
    pub path_len: usize,
    /// Number of visits made so far.
    pub step: usize,
    /// The dispatch has ended (path exhausted, handled, or entity missing).
    pub finished: bool,
}

impl DispatchCursor {
    /// Whether the cursor describes a valid position on its path.
    pub open spec fn wf(self) -> bool {
        &&& self.path_len <= usize::MAX / 2
        &&& self.step <= 2 * self.path_len
        &&& (self.step == 2 * self.path_len ==> self.finished)
    }

    /// The start of a dispatch over a path of `path_len` entities.
    pub fn new(path_len: usize) -> (c: Self)
        requires
            path_len <= usize::MAX / 2,
        ensures
            c.wf(),
            c.path_len == path_len,
            c.step == 0,
            c.finished == (path_len == 0),
    {
        DispatchCursor { path_len, step: 0, finished: path_len == 0 }
    }

    /// The phase and path index of the next visit, or `None` once the
    /// dispatch has ended.
    pub fn current(&self) -> (v: Option<(PhaseKind, usize)>)
        requires
            self.wf(),
        ensures
            self.finished ==> v is None,
            !self.finished ==> (v matches Some((k, i)) && (k, i as int) == visit_at(
                self.path_len as nat,
                self.step as nat,
            ) && i < self.path_len),
    {
        if self.finished {
            None
        } else if self.step < self.path_len {
            Some((PhaseKind::Tunnel, self.path_len - 1 - self.step))
        } else {
            Some((PhaseKind::Bubble, self.step - self.path_len))
        }
    }

    /// Records the outcome of the current visit: a missing entity or a
    /// handled event ends the dispatch, otherwise the next visit follows.
    pub fn advance(&mut self, outcome: VisitOutcome)
        requires
            old(self).wf(),
            !old(self).finished,
        ensures
            final(self).wf(),
            final(self).path_len == old(self).path_len,
            final(self).step == old(self).step + 1,
            final(self).finished == (outcome != VisitOutcome::Continue || final(self).step == 2
                * final(self).path_len),
    {
        self.step = self.step + 1;
        self.finished = match outcome {
            VisitOutcome::Continue => self.step == 2 * self.path_len,
            _ => true,
        };
    }
}

} // verus!
