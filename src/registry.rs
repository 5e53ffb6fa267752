//! The set of monitor indices that this process has handed out.

use std::collections::HashSet;
use vstd::prelude::*;

verus! {

broadcast use vstd::std_specs::hash::group_hash_axioms;

/// `i` is the smallest index that `s` does not hold.
pub open spec fn is_lowest_free(s: Set<u32>, i: u32) -> bool {
    &&& !s.contains(i)
    &&& forall|j: u32| j < i ==> s.contains(j)
}

/// The indices below `c`.
pub open spec fn indices_below(c: int) -> Set<u32> {
    Set::new(|j: u32| j < c)
}

/// Monitor indices currently in use. Each index is held at most once; callers
/// that share a registry between threads keep it behind one lock for each
/// compound operation.
pub struct MonitorIndexRegistry {
    indices: HashSet<u32>,
}

impl View for MonitorIndexRegistry {
    type V = Set<u32>;

    closed spec fn view(&self) -> Set<u32> {
        self.indices@
    }
}

impl MonitorIndexRegistry {
    pub open spec fn wf(&self) -> bool {
        self@.finite()
    }

    pub fn new() -> (r: Self)
        ensures
            r.wf(),
            r@ == Set::<u32>::empty(),
    {
        MonitorIndexRegistry { indices: HashSet::new() }
    }

    pub fn is_empty(&self) -> (r: bool)
        ensures
            r == self@.is_empty(),
    {
        self.indices.is_empty()
    }

    pub fn contains(&self, index: u32) -> (r: bool)
        ensures
            r == self@.contains(index),
    {
        self.indices.contains(&index)
    }

    pub fn len(&self) -> (r: usize)
        requires
            self.wf(),
        ensures
            r == self@.len(),
    {
        self.indices.len()
    }

    /// Records `index` as in use; recording one already held changes nothing.
    pub fn insert(&mut self, index: u32)
        requires
            old(self).wf(),
        ensures
            final(self).wf(),
            final(self)@ == old(self)@.insert(index),
    {
        self.indices.insert(index);
    }

    /// Returns `index` to the free pool; removing one not held changes nothing.
    pub fn remove(&mut self, index: u32)
        requires
            old(self).wf(),
        ensures
            final(self).wf(),
            final(self)@ == old(self)@.remove(index),
    {
        self.indices.remove(&index);
    }
}

proof fn lemma_indices_below_len(c: u32)
    ensures
        indices_below(c as int).finite(),
        indices_below(c as int).len() == c,
    decreases c,
{
    if c == 0 {
        assert(indices_below(c as int) =~= Set::<u32>::empty());
    } else {
        let p = (c - 1) as u32;
        lemma_indices_below_len(p);
        assert(indices_below(c as int) =~= indices_below(p as int).insert(p));
    }
}

/// A finite set that holds every index below `c` has at least `c` members.
proof fn lemma_prefix_fits(s: Set<u32>, c: u32)
    requires
        s.finite(),
        forall|j: u32| j < c ==> s.contains(j),
    ensures
        c <= s.len(),
{
    lemma_indices_below_len(c);
    vstd::set_lib::lemma_len_subset(indices_below(c as int), s);
}

/// Hands out the smallest index not in use and records it, in one step, so
/// that no two calls on one registry can return the same index.
pub fn generate_monitor_index(registry: &mut MonitorIndexRegistry) -> (r: u32)
    requires
        old(registry).wf(),
        old(registry)@.len() < u32::MAX,
    ensures
        final(registry).wf(),
        is_lowest_free(old(registry)@, r),
        final(registry)@ == old(registry)@.insert(r),
{
    let mut candidate: u32 = 0;
    while registry.contains(candidate)
        invariant
            registry.wf(),
            registry@.len() < u32::MAX,
            forall|j: u32| j < candidate ==> registry@.contains(j),
            candidate <= registry@.len(),
        decreases registry@.len() - candidate,
    {
        proof {
            assert forall|j: u32| j < candidate + 1 implies registry@.contains(j) by {
                if j < candidate {
                }
            }
            lemma_prefix_fits(registry@, (candidate + 1) as u32);
        }
        candidate += 1;
    }
    registry.insert(candidate);
    candidate
}

/// The registry after the indices `handed` were allocated, in order, from
/// `start`.
pub open spec fn allocated(start: Set<u32>, handed: Seq<u32>) -> Set<u32>
    decreases handed.len(),
{
    if handed.len() == 0 {
        start
    } else {
        allocated(start, handed.drop_last()).insert(handed.last())
    }
}

/// Each index of `handed` was the lowest free one when it was allocated.
pub open spec fn each_lowest_free(start: Set<u32>, handed: Seq<u32>) -> bool {
    forall|k: int|
        0 <= k < handed.len() ==> is_lowest_free(
            allocated(start, handed.take(k)),
            #[trigger] handed[k],
        )
}

proof fn lemma_allocated_holds_earlier(start: Set<u32>, handed: Seq<u32>, k: int)
    requires
        0 <= k <= handed.len(),
    ensures
        forall|i: int| 0 <= i < k ==> allocated(start, handed.take(k)).contains(#[trigger] handed[i]),
    decreases k,
{
    if k > 0 {
        lemma_allocated_holds_earlier(start, handed, k - 1);
        assert(handed.take(k).drop_last() =~= handed.take(k - 1));
    }
}

/// Allocations one after another, each of the lowest free index, never hand
/// out an index twice, nor one that was in use at the start.
pub proof fn lemma_allocations_unique(start: Set<u32>, handed: Seq<u32>)
    requires
        each_lowest_free(start, handed),
    ensures
        handed.no_duplicates(),
        forall|k: int| 0 <= k < handed.len() ==> !start.contains(#[trigger] handed[k]),
{
    assert forall|i: int, j: int|
        0 <= i < handed.len() && 0 <= j < handed.len() && i != j implies handed[i] != handed[j] by {
        let later = if i < j { j } else { i };
        lemma_allocated_holds_earlier(start, handed, later);
        assert(is_lowest_free(allocated(start, handed.take(later)), handed[later]));
    }
    assert forall|k: int| 0 <= k < handed.len() implies !start.contains(#[trigger] handed[k]) by {
        lemma_start_kept(start, handed.take(k));
        assert(is_lowest_free(allocated(start, handed.take(k)), handed[k]));
    }
}

proof fn lemma_start_kept(start: Set<u32>, handed: Seq<u32>)
    ensures
        start.subset_of(allocated(start, handed)),
    decreases handed.len(),
{
    if handed.len() > 0 {
        lemma_start_kept(start, handed.drop_last());
    }
}

proof fn lemma_from_empty_prefix(handed: Seq<u32>, k: int)
    requires
        each_lowest_free(Set::empty(), handed),
        0 <= k <= handed.len(),
    ensures
        allocated(Set::empty(), handed.take(k)) == indices_below(k),
        forall|i: int| 0 <= i < k ==> handed[i] == i,
    decreases k,
{
    if k == 0 {
        assert(handed.take(0).len() == 0);
        assert(indices_below(0) =~= Set::<u32>::empty());
    } else {
        lemma_from_empty_prefix(handed, k - 1);
        let before = allocated(Set::empty(), handed.take(k - 1));
        let h = handed[k - 1];
        assert(is_lowest_free(before, h));
        assert(h == k - 1) by {
            if h > k - 1 {
                let p = (k - 1) as u32;
                assert(p < h);
                assert(before.contains(p));
            }
        }
        let taken = handed.take(k);
        assert(taken.drop_last() =~= handed.take(k - 1));
        assert(allocated(Set::empty(), taken) == before.insert(h));
        assert(indices_below(k) =~= indices_below(k - 1).insert(h));
    }
}

/// From an empty registry, allocations one after another hand out 0, 1, 2 and
/// so on.
pub proof fn lemma_allocations_from_empty(handed: Seq<u32>)
    requires
        each_lowest_free(Set::empty(), handed),
    ensures
        forall|k: int| 0 <= k < handed.len() ==> handed[k] == k,
{
    lemma_from_empty_prefix(handed, handed.len() as int);
}

/// An index that is released is allocated again next when every index below
/// it is in use: indices are reused, not counted up.
pub proof fn lemma_release_then_reuse(s: Set<u32>, i: u32, r: u32)
    requires
        forall|j: u32| j < i ==> s.contains(j),
        is_lowest_free(s.remove(i), r),
    ensures
        r == i,
{
    if r > i {
        assert(s.remove(i).contains(i));
    }
    if r < i {
        assert(s.contains(r));
    }
}

} // verus!
