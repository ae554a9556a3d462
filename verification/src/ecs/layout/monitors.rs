//! Reconciling the monitor entities with a fresh monitor enumeration after
//! the display configuration changed. Monitors are matched by their handle:
//! a known handle updates its entity, an unknown one adds an entity, and
//! the entities whose handle is no longer enumerated are removed.

use vstd::prelude::*;

verus! {

/// The last index at which `h` occurs in `s`, or `-1`.
pub open spec fn last_index_of(s: Seq<isize>, h: isize) -> int
    decreases s.len(),
{
    if s.len() == 0 {
        -1
    } else if s.last() == h {
        s.len() - 1
    } else {
        last_index_of(s.drop_last(), h)
    }
}

/// Whether `j` is the first position of `s[j]` in `s`.
pub open spec fn first_occurrence(s: Seq<isize>, j: int) -> bool {
    forall|k: int| 0 <= k < j ==> s[k] != s[j]
}

/// Whether `i` is the last position of `s[i]` in `s`.
pub open spec fn last_occurrence(s: Seq<isize>, i: int) -> bool {
    forall|k: int| i < k < s.len() ==> s[k] != s[i]
}

/// What happens to the enumerated monitor at position `j`: the first
/// enumerated monitor with a known handle updates the entity that handle was
/// last recorded for; any other is added.
pub open spec fn decision_for(existing: Seq<isize>, incoming: Seq<isize>, j: int) -> Option<usize> {
    if first_occurrence(incoming, j) && existing.contains(incoming[j]) {
        Some(last_index_of(existing, incoming[j]) as usize)
    } else {
        None
    }
}

/// Whether the existing monitor at position `i` is removed: it is the last
/// record of its handle and that handle is no longer enumerated.
pub open spec fn removed_at(existing: Seq<isize>, incoming: Seq<isize>, i: int) -> bool {
    last_occurrence(existing, i) && !incoming.contains(existing[i])
}

/// The result of a reconciliation.
#[derive(Debug, Clone, PartialEq, Eq)]
pub struct MonitorPlan {
    /// For each enumerated monitor, in order: `Some(i)` to update the
    /// existing monitor at index `i`, `None` to add a new monitor.
    pub decisions: Vec<Option<usize>>,
    /// Indices of the existing monitors to remove, in increasing order.
    pub removed: Vec<usize>,
}

proof fn lemma_last_index_of(s: Seq<isize>, h: isize)
    ensures
        -1 <= last_index_of(s, h) < s.len(),
        s.contains(h) <==> last_index_of(s, h) >= 0,
        last_index_of(s, h) >= 0 ==> s[last_index_of(s, h)] == h,
        forall|k: int| last_index_of(s, h) < k < s.len() ==> s[k] != h,
    decreases s.len(),
{
    if s.len() > 0 {
        lemma_last_index_of(s.drop_last(), h);
        if s.last() != h {
            assert forall|k: int| last_index_of(s, h) < k < s.len() implies s[k] != h by {
                if k < s.len() - 1 {
                    assert(s[k] == s.drop_last()[k]);
                }
            }
            if s.contains(h) {
                let w = choose|w: int| 0 <= w < s.len() && s[w] == h;
                assert(s.drop_last()[w] == h);
            }
            if s.drop_last().contains(h) {
                let w = choose|w: int| 0 <= w < s.drop_last().len() && s.drop_last()[w] == h;
                assert(s[w] == h);
            }
        } else {
            assert(s[s.len() - 1] == h);
        }
    }
}

/// Every existing monitor that is the last record of its handle is either
/// updated by exactly one enumerated monitor or removed, never both; the
/// other existing records are left alone.
pub proof fn lemma_plan_partitions(existing: Seq<isize>, incoming: Seq<isize>, i: int)
    requires
        0 <= i < existing.len(),
        existing.len() <= usize::MAX,
    ensures
        last_occurrence(existing, i) ==> (removed_at(existing, incoming, i) <==> !exists|j: int|
            0 <= j < incoming.len() && #[trigger] decision_for(existing, incoming, j) == Some(
                i as usize,
            )),
        last_occurrence(existing, i) && incoming.contains(existing[i]) ==> exists|j: int|
            0 <= j < incoming.len() && #[trigger] decision_for(existing, incoming, j) == Some(
                i as usize,
            ),
        forall|j1: int, j2: int|
            0 <= j1 < incoming.len() && 0 <= j2 < incoming.len() && #[trigger] decision_for(
                existing,
                incoming,
                j1,
            ) == Some(i as usize) && #[trigger] decision_for(existing, incoming, j2) == Some(
                i as usize,
            ) ==> j1 == j2,
        !last_occurrence(existing, i) ==> !removed_at(existing, incoming, i) && !exists|j: int|
            0 <= j < incoming.len() && #[trigger] decision_for(existing, incoming, j) == Some(
                i as usize,
            ),
{
    lemma_last_index_of(existing, existing[i]);
    if last_occurrence(existing, i) {
        assert(last_index_of(existing, existing[i]) == i);
        if incoming.contains(existing[i]) {
            let w = choose|w: int| 0 <= w < incoming.len() && incoming[w] == existing[i];
            let first = first_index(incoming, existing[i], w);
            assert(existing.contains(incoming[first]));
            assert(decision_for(existing, incoming, first) == Some(i as usize));
        } else {
            assert forall|j: int| 0 <= j < incoming.len() implies decision_for(existing, incoming, j) != Some(i as usize) by {
                if decision_for(existing, incoming, j) == Some(i as usize) {
                    lemma_last_index_of(existing, incoming[j]);
                    assert(existing[i] == incoming[j]);
                }
            }
        }
    } else {
        let k = choose|k: int| i < k < existing.len() && existing[k] == existing[i];
        assert forall|j: int| 0 <= j < incoming.len() implies decision_for(existing, incoming, j) != Some(i as usize) by {
            if decision_for(existing, incoming, j) == Some(i as usize) {
                lemma_last_index_of(existing, incoming[j]);
                assert(existing[i] == incoming[j]);
            }
        }
    }
    assert forall|j1: int, j2: int|
        0 <= j1 < incoming.len() && 0 <= j2 < incoming.len() && #[trigger] decision_for(
            existing,
            incoming,
            j1,
        ) == Some(i as usize) && #[trigger] decision_for(existing, incoming, j2) == Some(
            i as usize,
        ) implies j1 == j2 by {
        lemma_last_index_of(existing, incoming[j1]);
        lemma_last_index_of(existing, incoming[j2]);
        assert(incoming[j1] == existing[i] && incoming[j2] == existing[i]);
    }
}

/// The first position, at or before `w`, of the value `s` holds at `w`.
proof fn first_index(s: Seq<isize>, h: isize, w: int) -> (f: int)
    requires
        0 <= w < s.len(),
        s[w] == h,
    ensures
        0 <= f <= w,
        s[f] == h,
        first_occurrence(s, f),
    decreases w,
{
    if exists|k: int| 0 <= k < w && s[k] == h {
        let k = choose|k: int| 0 <= k < w && s[k] == h;
        first_index(s, h, k)
    } else {
        w
    }
}

/// The last index of `h` in `s`, searching from the end.
fn find_last(s: &Vec<isize>, h: isize) -> (r: Option<usize>)
    ensures
        r is None <==> !s@.contains(h),
        r matches Some(i) ==> i == last_index_of(s@, h),
{
    proof {
        lemma_last_index_of(s@, h);
    }
    let mut k = s.len();
    while k > 0
        invariant
            k <= s.len(),
            forall|m: int| k <= m < s.len() ==> s@[m] != h,
            -1 <= last_index_of(s@, h) < s@.len(),
            s@.contains(h) <==> last_index_of(s@, h) >= 0,
            last_index_of(s@, h) >= 0 ==> s@[last_index_of(s@, h)] == h,
            forall|m: int| last_index_of(s@, h) < m < s@.len() ==> s@[m] != h,
        decreases k,
    {
        k = k - 1;
        if s[k] == h {
            return Some(k);
        }
    }
    None
}

/// Whether `h` occurs in `s` before position `end`.
fn occurs_before(s: &Vec<isize>, h: isize, end: usize) -> (r: bool)
    requires
        end <= s.len(),
    ensures
        r == exists|k: int| 0 <= k < end && s@[k] == h,
{
    let mut k: usize = 0;
    while k < end
        invariant
            k <= end <= s.len(),
            forall|m: int| 0 <= m < k ==> s@[m] != h,
        decreases end - k,
    {
        if s[k] == h {
            return true;
        }
        k = k + 1;
    }
    false
}

/// Whether `h` occurs in `s` after position `start`.
fn occurs_after(s: &Vec<isize>, h: isize, start: usize) -> (r: bool)
    requires
        start < s.len(),
    ensures
        r == exists|k: int| start < k < s.len() && s@[k] == h,
{
    let mut k: usize = start + 1;
    while k < s.len()
        invariant
            start < k <= s.len(),
            forall|m: int| start < m < k ==> s@[m] != h,
        decreases s.len() - k,
    {
        if s[k] == h {
            return true;
        }
        k = k + 1;
    }
    false
}

/// Matches the enumerated monitor handles (`incoming`) against those of the
/// existing monitor entities (`existing`).
pub fn plan_monitor_changes(existing: &Vec<isize>, incoming: &Vec<isize>) -> (plan: MonitorPlan)
    ensures
        plan.decisions@.len() == incoming@.len(),
        forall|j: int| 0 <= j < incoming@.len() ==> plan.decisions@[j] == decision_for(existing@, incoming@, j),
        forall|a: int, b: int| 0 <= a < b < plan.removed@.len() ==> plan.removed@[a] < plan.removed@[b],
        forall|k: int| 0 <= k < plan.removed@.len() ==> plan.removed@[k] < existing@.len() && removed_at(existing@, incoming@, plan.removed@[k] as int),
        forall|i: int| 0 <= i < existing@.len() && removed_at(existing@, incoming@, i) ==> plan.removed@.contains(i as usize),
{
    let mut decisions: Vec<Option<usize>> = Vec::new();
    let mut j: usize = 0;
    while j < incoming.len()
        invariant
            j <= incoming.len(),
            decisions@.len() == j,
            forall|t: int| 0 <= t < j ==> decisions@[t] == decision_for(existing@, incoming@, t),
        decreases incoming.len() - j,
    {
        let h = incoming[j];
        let seen = occurs_before(incoming, h, j);
        let d = if seen {
            None
        } else {
            find_last(existing, h)
        };
        proof {
            assert(first_occurrence(incoming@, j as int) == !seen);
        }
        decisions.push(d);
        j = j + 1;
    }

    let mut removed: Vec<usize> = Vec::new();
    let mut i: usize = 0;
    while i < existing.len()
        invariant
            i <= existing.len(),
            forall|a: int, b: int| 0 <= a < b < removed@.len() ==> removed@[a] < removed@[b],
            forall|k: int| 0 <= k < removed@.len() ==> removed@[k] < i && removed_at(existing@, incoming@, removed@[k] as int),
            forall|t: int| 0 <= t < i && removed_at(existing@, incoming@, t) ==> removed@.contains(t as usize),
        decreases existing.len() - i,
    {
        let h = existing[i];
        let later = occurs_after(existing, h, i);
        let kept = occurs_before(incoming, h, incoming.len());
        proof {
            assert(last_occurrence(existing@, i as int) == !later);
            assert(incoming@.contains(h) == kept) by {
                if kept {
                    let w = choose|w: int| 0 <= w < incoming.len() && incoming@[w] == h;
                    assert(incoming@[w] == h);
                }
            }
        }
        let ghost prev = removed@;
        if !later && !kept {
            removed.push(i);
            proof {
                assert(removed@[removed@.len() - 1] == i);
            }
        }
        proof {
            assert forall|t: int| 0 <= t < i + 1 && removed_at(existing@, incoming@, t) implies removed@.contains(t as usize) by {
                if t == i {
                    assert(removed@[removed@.len() - 1] == i);
                } else {
                    assert(prev.contains(t as usize));
                    let w = choose|w: int| 0 <= w < prev.len() && prev[w] == t as usize;
                    assert(removed@[w] == prev[w]);
                }
            }
        }
        i = i + 1;
    }
    MonitorPlan { decisions, removed }
}

} // verus!
