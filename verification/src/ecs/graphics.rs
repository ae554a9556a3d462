//! Graphics resource bookkeeping that does not touch the device: when an
//! entity's resources must be (re)initialised, and which frame asked for a
//! surface redraw.

use vstd::prelude::*;

verus! {

/// Marks an entity whose graphics resources are created by the graphics
/// systems, and tracks re-initialisation requests by generation numbers: a
/// request opens a new generation, and initialisation catches up with it.
#[derive(Debug, Clone, Copy, PartialEq, Eq, Structural)]
pub struct HasGraphicsResources {
    requested_generation: u32,
    initialized_generation: u32,
}

impl HasGraphicsResources {
    /// Generation of the latest initialisation request.
    pub closed spec fn requested(self) -> u32 {
        self.requested_generation
    }

    /// Generation that the resources were last initialised for.
    pub closed spec fn initialized(self) -> u32 {
        self.initialized_generation
    }

    /// State after an initialisation request.
    pub closed spec fn after_request(self) -> Self {
        if self.requested_generation == self.initialized_generation {
            HasGraphicsResources {
                requested_generation: if self.requested_generation == u32::MAX {
                    0
                } else {
                    (self.requested_generation + 1) as u32
                },
                ..self
            }
        } else {
            self
        }
    }

    /// State after the resources are initialised.
    pub closed spec fn after_mark(self) -> Self {
        HasGraphicsResources { initialized_generation: self.requested_generation, ..self }
    }

    /// Whether a requested initialisation has not been completed.
    pub open spec fn pending(self) -> bool {
        self.requested() != self.initialized()
    }

    /// Whether the resources must be (re)initialised.
    pub fn needs_init(&self) -> (b: bool)
        ensures
            b == self.pending(),
    {
        self.requested_generation != self.initialized_generation
    }

    /// Requests a (re)initialisation. A request while one is pending joins
    /// it; otherwise a new generation is opened (wrapping at `u32::MAX`).
    pub fn request_init(&mut self)
        ensures
            *final(self) == old(self).after_request(),
            final(self).pending(),
            final(self).initialized() == old(self).initialized(),
            old(self).pending() ==> final(self).requested() == old(self).requested(),
            !old(self).pending() ==> final(self).requested() == (if old(self).requested() == u32::MAX {
                0
            } else {
                old(self).requested() + 1
            }),
    {
        if self.requested_generation == self.initialized_generation {
            self.requested_generation = self.requested_generation.wrapping_add(1);
        }
    }

    /// Records that the resources were initialised for the latest request.
    pub fn mark_initialized(&mut self)
        ensures
            *final(self) == old(self).after_mark(),
            !final(self).pending(),
            final(self).requested() == old(self).requested(),
            final(self).initialized() == old(self).requested(),
    {
        self.initialized_generation = self.requested_generation;
    }

    /// Marks the initialisation complete when it is pending and the window
    /// graphics, visual and surface of the entity are all valid; returns
    /// whether it did.
    pub fn complete_if_ready(&mut self, window_valid: bool, visual_valid: bool, surface_valid: bool) -> (done: bool)
        ensures
            done == (old(self).pending() && window_valid && visual_valid && surface_valid),
            done ==> !final(self).pending() && final(self).requested() == old(self).requested(),
            !done ==> *final(self) == *old(self),
    {
        if self.needs_init() && window_valid && visual_valid && surface_valid {
            self.mark_initialized();
            true
        } else {
            false
        }
    }
}

impl Default for HasGraphicsResources {
    /// Nothing requested, nothing pending.
    fn default() -> (r: Self)
        ensures
            !r.pending(),
            r.requested() == 0,
            r.initialized() == 0,
    {
        HasGraphicsResources { requested_generation: 0, initialized_generation: 0 }
    }
}

/// A request is never lost: whatever the generation numbers (wrapped or
/// not), a request leaves an initialisation pending, initialising clears it,
/// and a later request makes one pending again; repeated requests before the
/// initialisation are the same as one.
pub proof fn lemma_request_cycle(r: HasGraphicsResources)
    ensures
        r.after_request().pending(),
        !r.after_mark().pending(),
        !r.after_request().after_mark().pending(),
        r.after_request().after_mark().after_request().pending(),
        r.after_request().after_request() == r.after_request(),
{
}

/// Asks for a redraw of an entity's surface, stamped with the frame that
/// asked.
#[derive(Debug, Clone, Copy, PartialEq, Eq, Structural)]
pub struct SurfaceGraphicsDirty {
    /// The frame in which the redraw was requested.
    pub requested_frame: u64,
}

impl SurfaceGraphicsDirty {
    /// Asks for another redraw (the frame stamp advances, wrapping at
    /// `u64::MAX`), so that the change is seen.
    pub fn request_redraw(&mut self)
        ensures
            final(self).requested_frame == (if old(self).requested_frame == u64::MAX {
                0
            } else {
                old(self).requested_frame + 1
            }),
    {
        self.requested_frame = self.requested_frame.wrapping_add(1);
    }
}

/// What to do with an entity's surface when its arrangement or drawing
/// commands changed.
#[derive(Debug, Clone, Copy, PartialEq, Eq, Structural)]
pub enum SurfacePlan {
    /// The arrangement gives no drawable size: nothing is done.
    Skip,
    /// The surface exists with the right size: nothing is done.
    Keep,
    /// No valid surface: one is created with this size.
    Create { width: u32, height: u32 },
    /// The surface has another size: it is recreated with this one.
    Resize { width: u32, height: u32 },
}

/// The surface decision for a required size (`None` when the arrangement
/// has no positive extent) and the current surface.
pub fn plan_surface(size: Option<(u32, u32)>, surface_valid: bool, surface_size: (u32, u32)) -> (p: SurfacePlan)
    ensures
        p == (match size {
            None => SurfacePlan::Skip,
            Some((w, h)) => if surface_valid && surface_size == (w, h) {
                SurfacePlan::Keep
            } else if !surface_valid {
                SurfacePlan::Create { width: w, height: h }
            } else {
                SurfacePlan::Resize { width: w, height: h }
            },
        }),
{
    match size {
        None => SurfacePlan::Skip,
        Some((w, h)) => {
            if surface_valid && surface_size.0 == w && surface_size.1 == h {
                SurfacePlan::Keep
            } else if !surface_valid {
                SurfacePlan::Create { width: w, height: h }
            } else {
                SurfacePlan::Resize { width: w, height: h }
            }
        },
    }
}

/// `order` lists the indices of `depths` so that shallower entries come
/// first (parents before their children), entries of equal depth keeping
/// their original order: a stable sort of the indices by depth.
pub open spec fn is_depth_order(depths: Seq<usize>, order: Seq<usize>) -> bool {
    &&& order.len() == depths.len()
    &&& order.no_duplicates()
    &&& forall|k: int| 0 <= k < order.len() ==> #[trigger] order[k] < depths.len()
    &&& depth_sorted(depths, order)
}

/// Along `order`, depths do not decrease, and entries of equal depth keep
/// the order of their indices.
pub open spec fn depth_sorted(depths: Seq<usize>, order: Seq<usize>) -> bool {
    &&& forall|a: int, b: int|
        0 <= a < b < order.len() ==> depths[#[trigger] order[a] as int] <= depths[#[trigger] order[b] as int]
    &&& forall|a: int, b: int|
        0 <= a < b < order.len() && depths[#[trigger] order[a] as int] == depths[#[trigger] order[b] as int]
            ==> order[a] < order[b]
}

/// The order in which visuals waiting to be attached to their parents are
/// processed, given the depth of each in the entity hierarchy: by depth,
/// parents first, equal depths in the order they were collected.
pub fn hierarchy_sync_order(depths: &Vec<usize>) -> (order: Vec<usize>)
    ensures
        is_depth_order(depths@, order@),
{
    let n = depths.len();
    let mut order: Vec<usize> = Vec::new();
    let mut i: usize = 0;
    while i < n
        invariant
            n == depths.len(),
            i <= n,
            order.len() == i,
            order@.no_duplicates(),
            forall|k: int| 0 <= k < order.len() ==> #[trigger] order@[k] < i,
            depth_sorted(depths@, order@),
        decreases n - i,
    {
        let d = depths[i];
        let mut p: usize = 0;
        while p < order.len() && depths[order[p]] <= d
            invariant
                n == depths.len(),
                i < n,
                p <= order.len(),
                forall|k: int| 0 <= k < order.len() ==> #[trigger] order@[k] < i,
                forall|k: int| 0 <= k < p ==> depths@[#[trigger] order@[k] as int] <= d,
            decreases order.len() - p,
        {
            p = p + 1;
        }
        let ghost old_order = order@;
        proof {
            assert forall|k: int| p <= k < old_order.len() implies depths@[#[trigger] old_order[k] as int] > d by {
                assert(depths@[old_order[p as int] as int] > d);
                if k > p {
                    assert(depths@[old_order[p as int] as int] <= depths@[old_order[k] as int]);
                }
            }
        }
        order.insert(p, i);
        proof {
            let new_order = order@;
            assert(new_order == old_order.insert(p as int, i));
            assert forall|k: int| 0 <= k < new_order.len() implies #[trigger] new_order[k] < i + 1 by {
                if k < p {
                    assert(new_order[k] == old_order[k]);
                } else if k > p {
                    assert(new_order[k] == old_order[k - 1]);
                }
            }
            assert forall|a: int, b: int| 0 <= a < new_order.len() && 0 <= b < new_order.len() && a != b
                implies new_order[a] != new_order[b] by {
                if a != p && b != p {
                    let oa = if a < p { a } else { a - 1 };
                    let ob = if b < p { b } else { b - 1 };
                    assert(new_order[a] == old_order[oa]);
                    assert(new_order[b] == old_order[ob]);
                } else if a == p {
                    let ob = if b < p { b } else { b - 1 };
                    assert(new_order[b] == old_order[ob]);
                    assert(old_order[ob] < i);
                } else {
                    let oa = if a < p { a } else { a - 1 };
                    assert(new_order[a] == old_order[oa]);
                    assert(old_order[oa] < i);
                }
            }
            assert forall|a: int, b: int| 0 <= a < b < new_order.len() implies
                depths@[#[trigger] new_order[a] as int] <= depths@[#[trigger] new_order[b] as int]
                && (depths@[new_order[a] as int] == depths@[new_order[b] as int] ==> new_order[a] < new_order[b]) by {
                let oa = if a < p { a } else { a - 1 };
                let ob = if b < p { b } else { b - 1 };
                if a != p && b != p {
                    assert(new_order[a] == old_order[oa]);
                    assert(new_order[b] == old_order[ob]);
                    assert(oa < ob);
                } else if a == p {
                    assert(new_order[a] == i);
                    assert(new_order[b] == old_order[ob]);
                    assert(depths@[old_order[ob] as int] > d);
                } else {
                    assert(new_order[b] == i);
                    assert(new_order[a] == old_order[oa]);
                    assert(depths@[old_order[oa] as int] <= d);
                    assert(old_order[oa] < i);
                }
            }
        }
        i = i + 1;
    }
    order
}

impl Default for SurfaceGraphicsDirty {
    /// Requested in frame 0.
    fn default() -> (d: Self)
        ensures
            d.requested_frame == 0,
    {
        SurfaceGraphicsDirty { requested_frame: 0 }
    }
}

} // verus!
