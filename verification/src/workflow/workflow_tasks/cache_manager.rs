//! The run cache: which runs are kept in memory, and which one goes when
//! there are too many.

use vstd::prelude::*;

verus! {

/// How many runs a worker keeps cached.
#[derive(Copy, Clone, Debug, PartialEq, Eq, Structural)]
pub enum WorkflowCachingPolicy {
    /// Keep up to this many runs, evicting the least recently used.
    Sticky { max_cached_workflows: usize },
    /// Keep nothing: every run is evicted after each workflow task.
    NonSticky,
}

impl WorkflowCachingPolicy {
    /// The number of runs the policy lets the cache hold.
    pub open spec fn spec_capacity(self) -> usize {
        match self {
            WorkflowCachingPolicy::Sticky { max_cached_workflows } => max_cached_workflows,
            WorkflowCachingPolicy::NonSticky => 0,
        }
    }

    #[verifier::when_used_as_spec(spec_capacity)]
    pub fn capacity(self) -> (r: usize)
        ensures
            r == self.spec_capacity(),
    {
        match self {
            WorkflowCachingPolicy::Sticky { max_cached_workflows } => max_cached_workflows,
            WorkflowCachingPolicy::NonSticky => 0,
        }
    }
}

/// The cache `cache` after `run_id` has been made its most recently used entry;
/// unchanged if `run_id` is not cached.
pub open spec fn after_touch(cache: Seq<Seq<char>>, run_id: Seq<char>) -> Seq<Seq<char>> {
    if cache.contains(run_id) {
        cache.remove(cache.index_of(run_id)).push(run_id)
    } else {
        cache
    }
}

/// The cache `cache` without `run_id`.
pub open spec fn after_remove(cache: Seq<Seq<char>>, run_id: Seq<char>) -> Seq<Seq<char>> {
    if cache.contains(run_id) {
        cache.remove(cache.index_of(run_id))
    } else {
        cache
    }
}

/// The run that has to be evicted when `run_id` is inserted into `cache`,
/// which may hold `capacity` runs: the run itself if nothing may be held,
/// none if the run is cached or there is room, else the least recently used.
pub open spec fn insert_evicts(cache: Seq<Seq<char>>, capacity: int, run_id: Seq<char>) -> Option<
    Seq<char>,
> {
    if capacity == 0 {
        Some(run_id)
    } else if cache.contains(run_id) || cache.len() < capacity {
        None
    } else {
        Some(cache[0])
    }
}

/// The cache `cache`, which may hold `capacity` runs, after `run_id` has
/// been inserted.
pub open spec fn after_insert(cache: Seq<Seq<char>>, capacity: int, run_id: Seq<char>) -> Seq<
    Seq<char>,
> {
    if capacity == 0 {
        cache
    } else if cache.contains(run_id) {
        after_touch(cache, run_id)
    } else if cache.len() < capacity {
        cache.push(run_id)
    } else {
        cache.drop_first().push(run_id)
    }
}

/// The characters of an optional string.
pub open spec fn opt_chars(s: Option<String>) -> Option<Seq<char>> {
    match s {
        Some(s) => Some(s@),
        None => None,
    }
}

/// Bounded set of run ids in order of use, least recently used first.
pub struct WorkflowCacheManager {
    cap: usize,
    order: Vec<String>,
}

impl View for WorkflowCacheManager {
    type V = Seq<Seq<char>>;

    /// The cached run ids, least recently used first.
    closed spec fn view(&self) -> Seq<Seq<char>> {
        Seq::new(self.order@.len(), |i: int| self.order@[i]@)
    }
}

impl WorkflowCacheManager {
    /// The most runs the cache may hold.
    pub closed spec fn spec_capacity(&self) -> usize {
        self.cap
    }

    /// No run is cached twice and the cache is within its capacity.
    pub open spec fn wf(&self) -> bool {
        &&& self@.no_duplicates()
        &&& self@.len() <= self.spec_capacity()
    }

    pub fn new(policy: WorkflowCachingPolicy) -> (r: Self)
        ensures
            r.wf(),
            r@.len() == 0,
            r.spec_capacity() == policy.spec_capacity(),
    {
        WorkflowCacheManager { cap: policy.capacity(), order: Vec::new() }
    }

    #[verifier::when_used_as_spec(spec_capacity)]
    pub fn capacity(&self) -> (r: usize)
        ensures
            r == self.spec_capacity(),
    {
        self.cap
    }

    /// Number of cached runs.
    pub fn len(&self) -> (r: usize)
        ensures
            r == self@.len(),
    {
        self.order.len()
    }

    fn find(&self, run_id: &String) -> (r: Option<usize>)
        ensures
            r matches Some(i) ==> i < self@.len() && self@[i as int] == run_id@,
            r is None ==> !self@.contains(run_id@),
    {
        let mut i: usize = 0;
        while i < self.order.len()
            invariant
                i <= self.order.len(),
                forall|j: int| 0 <= j < i ==> self@[j] != run_id@,
            decreases self.order.len() - i,
        {
            if self.order[i] == *run_id {
                return Some(i);
            }
            i += 1;
        }
        None
    }

    /// Moves the entry at `i` to the most recently used end.
    fn promote(&mut self, i: usize)
        requires
            old(self).wf(),
            i < old(self)@.len(),
        ensures
            final(self).wf(),
            final(self).spec_capacity() == old(self).spec_capacity(),
            final(self)@ == old(self)@.remove(i as int).push(old(self)@[i as int]),
    {
        let ghost before = self@;
        let id = self.order.remove(i);
        self.order.push(id);
        proof {
            assert(self@ =~= before.remove(i as int).push(before[i as int]));
            lemma_promote_distinct(before, i as int);
        }
    }

    /// Records a use of `run_id`, admitting it if it is new.
    ///
    /// A cached run becomes the most recently used and nothing is returned. A
    /// new run is added as the most recently used; if the cache was full, the
    /// least recently used run leaves the cache and is returned. A cache of
    /// capacity zero admits nothing and returns the run itself.
    pub fn insert(&mut self, run_id: &String) -> (r: Option<String>)
        requires
            old(self).wf(),
        ensures
            final(self).wf(),
            final(self).spec_capacity() == old(self).spec_capacity(),
            final(self)@ == after_insert(old(self)@, old(self).spec_capacity() as int, run_id@),
            opt_chars(r) == insert_evicts(old(self)@, old(self).spec_capacity() as int, run_id@),
            old(self).spec_capacity() == 0 ==> r is Some,
    {
        if self.cap == 0 {
            return Some(run_id.clone());
        }
        let ghost before = self@;
        match self.find(run_id) {
            Some(i) => {
                proof {
                    lemma_index_of_distinct(before, i as int);
                }
                self.promote(i);
                None
            },
            None => {
                let evicted = if self.order.len() == self.cap {
                    let lru = self.order.remove(0);
                    proof {
                        assert(self@ =~= before.drop_first());
                        lemma_drop_first_distinct(before);
                    }
                    Some(lru)
                } else {
                    None
                };
                let ghost mid = self@;
                self.order.push(run_id.clone());
                proof {
                    assert(self@ =~= mid.push(run_id@));
                    assert(!mid.contains(run_id@)) by {
                        if mid.contains(run_id@) {
                            let k = choose|k: int| 0 <= k < mid.len() && mid[k] == run_id@;
                            if mid.len() == before.len() {
                                assert(before[k] == run_id@);
                            } else {
                                assert(before[k + 1] == run_id@);
                            }
                        }
                    }
                    lemma_push_distinct(mid, run_id@);
                }
                evicted
            },
        }
    }

    /// Makes `run_id` the most recently used. Does nothing if it is not cached.
    pub fn touch(&mut self, run_id: &String)
        requires
            old(self).wf(),
        ensures
            final(self).wf(),
            final(self).spec_capacity() == old(self).spec_capacity(),
            final(self)@ == after_touch(old(self)@, run_id@),
    {
        match self.find(run_id) {
            Some(i) => {
                proof {
                    lemma_index_of_distinct(self@, i as int);
                }
                self.promote(i);
            },
            None => {},
        }
    }

    /// Drops `run_id` from the cache and says whether it was there; if it
    /// was, whoever waits for capacity should be woken.
    pub fn remove(&mut self, run_id: &String) -> (removed: bool)
        requires
            old(self).wf(),
        ensures
            final(self).wf(),
            final(self).spec_capacity() == old(self).spec_capacity(),
            removed == old(self)@.contains(run_id@),
            !final(self)@.contains(run_id@),
            final(self)@ == after_remove(old(self)@, run_id@),
    {
        match self.find(run_id) {
            Some(i) => {
                let ghost before = self@;
                proof {
                    lemma_index_of_distinct(before, i as int);
                }
                let _ = self.order.remove(i);
                proof {
                    assert(self@ =~= before.remove(i as int));
                    lemma_remove_distinct(before, i as int);
                }
                true
            },
            None => false,
        }
    }

    /// Whether a caller must wait for room: the cache is full and
    /// `predicate_holds`, the caller's own reason not to wait, is false.
    pub fn wait_for_capacity(&self, predicate_holds: bool) -> (must_wait: bool)
        ensures
            must_wait == !(self@.len() < self.spec_capacity() || predicate_holds),
    {
        !(self.order.len() < self.cap || predicate_holds)
    }
}

/// Inserting a run keeps the cache within its capacity and free of
/// duplicates.
pub proof fn lemma_insert_within_capacity(cache: Seq<Seq<char>>, capacity: int, run_id: Seq<char>)
    requires
        cache.no_duplicates(),
        cache.len() <= capacity,
    ensures
        after_insert(cache, capacity, run_id).no_duplicates(),
        after_insert(cache, capacity, run_id).len() <= capacity,
        capacity > 0 ==> after_insert(cache, capacity, run_id).last() == run_id,
{
    if capacity == 0 {
    } else if cache.contains(run_id) {
        let i = cache.index_of(run_id);
        lemma_promote_distinct(cache, i);
    } else if cache.len() < capacity {
        lemma_push_distinct(cache, run_id);
    } else {
        lemma_drop_first_distinct(cache);
        let rest = cache.drop_first();
        if rest.contains(run_id) {
            let k = choose|k: int| 0 <= k < rest.len() && rest[k] == run_id;
            assert(cache[k + 1] == run_id);
        }
        lemma_push_distinct(rest, run_id);
    }
}

/// A cache that keeps nothing answers every insert with the run itself.
pub proof fn lemma_non_sticky_always_evicts(cache: Seq<Seq<char>>, run_id: Seq<char>)
    ensures
        insert_evicts(cache, WorkflowCachingPolicy::NonSticky.spec_capacity() as int, run_id)
            == Some(run_id),
        after_insert(cache, WorkflowCachingPolicy::NonSticky.spec_capacity() as int, run_id)
            == cache,
{
}

/// In a sequence without duplicates, an element's index is where it stands.
pub proof fn lemma_index_of_distinct(s: Seq<Seq<char>>, i: int)
    requires
        s.no_duplicates(),
        0 <= i < s.len(),
    ensures
        s.contains(s[i]),
        s.index_of(s[i]) == i,
{
    assert(s.contains(s[i]));
    let k = s.index_of(s[i]);
    assert(0 <= k < s.len() && s[k] == s[i]);
}

/// Removing an element keeps a sequence free of duplicates and free of the
/// element removed.
pub proof fn lemma_remove_distinct(s: Seq<Seq<char>>, i: int)
    requires
        s.no_duplicates(),
        0 <= i < s.len(),
    ensures
        s.remove(i).no_duplicates(),
        !s.remove(i).contains(s[i]),
{
    let t = s.remove(i);
    assert forall|a: int, b: int| 0 <= a < t.len() && 0 <= b < t.len() && a != b implies t[a]
        != t[b] by {
        let a0 = if a < i { a } else { a + 1 };
        let b0 = if b < i { b } else { b + 1 };
        assert(t[a] == s[a0] && t[b] == s[b0]);
    }
    if t.contains(s[i]) {
        let k = choose|k: int| 0 <= k < t.len() && t[k] == s[i];
        let k0 = if k < i { k } else { k + 1 };
        assert(t[k] == s[k0]);
    }
}

/// Dropping the first element keeps a sequence free of duplicates.
pub proof fn lemma_drop_first_distinct(s: Seq<Seq<char>>)
    requires
        s.no_duplicates(),
        s.len() > 0,
    ensures
        s.drop_first().no_duplicates(),
{
    assert(s.drop_first() =~= s.remove(0));
    lemma_remove_distinct(s, 0);
}

/// Appending an element that is not yet there keeps a sequence free of
/// duplicates.
pub proof fn lemma_push_distinct(s: Seq<Seq<char>>, x: Seq<char>)
    requires
        s.no_duplicates(),
        !s.contains(x),
    ensures
        s.push(x).no_duplicates(),
{
    let t = s.push(x);
    assert forall|a: int, b: int| 0 <= a < t.len() && 0 <= b < t.len() && a != b implies t[a]
        != t[b] by {
        if a < s.len() {
            assert(s.contains(s[a]));
        }
        if b < s.len() {
            assert(s.contains(s[b]));
        }
    }
}

/// Moving an element to the end keeps a sequence free of duplicates.
pub proof fn lemma_promote_distinct(s: Seq<Seq<char>>, i: int)
    requires
        s.no_duplicates(),
        0 <= i < s.len(),
    ensures
        s.remove(i).push(s[i]).no_duplicates(),
        s.remove(i).push(s[i]).len() == s.len(),
{
    lemma_remove_distinct(s, i);
    lemma_push_distinct(s.remove(i), s[i]);
}

} // verus!
