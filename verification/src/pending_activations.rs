//! The queue of runs that owe the language host an activation.

use crate::protos::{EvictionReason, RemoveFromCache};
use vstd::prelude::*;

verus! {

/// A notice that a run needs an activation, and possibly an eviction.
#[derive(Clone, Debug, PartialEq, Eq)]
pub struct PendingActInfo {
    pub run_id: String,
    /// Set when the run is to be evicted once its other work is done.
    pub needs_eviction: Option<RemoveFromCache>,
}

/// First-in first-out queue of pending activations, at most one per run.
pub struct PendingActivations {
    queue: Vec<PendingActInfo>,
}

/// No two entries of `q` are for the same run.
pub open spec fn distinct_runs(q: Seq<PendingActInfo>) -> bool {
    forall|i: int, j: int|
        0 <= i < j < q.len() ==> (#[trigger] q[i]).run_id@ != (#[trigger] q[j]).run_id@
}

/// Position of the entry for `run_id` in `q`, or `q.len()` if there is none.
pub open spec fn position_of(q: Seq<PendingActInfo>, run_id: Seq<char>) -> int
    decreases q.len(),
{
    if q.len() == 0 {
        0
    } else if q[0].run_id@ == run_id {
        0
    } else {
        1 + position_of(q.drop_first(), run_id)
    }
}

/// `q` holds an entry for `run_id`.
pub open spec fn has_entry(q: Seq<PendingActInfo>, run_id: Seq<char>) -> bool {
    exists|i: int| 0 <= i < q.len() && (#[trigger] q[i]).run_id@ == run_id
}

/// `q` holds an entry that asks for an eviction.
pub open spec fn any_eviction(q: Seq<PendingActInfo>) -> bool {
    exists|i: int| 0 <= i < q.len() && (#[trigger] q[i]).needs_eviction is Some
}

/// `post` is `pre` after a notice that `run_id` needs an activation: a run
/// that has an entry keeps it, a run that has none gets a plain one at the
/// back.
pub open spec fn activation_noted(
    pre: Seq<PendingActInfo>,
    post: Seq<PendingActInfo>,
    run_id: Seq<char>,
) -> bool {
    if has_entry(pre, run_id) {
        post == pre
    } else {
        &&& post.len() == pre.len() + 1
        &&& post.drop_last() == pre
        &&& post.last().run_id@ == run_id
        &&& post.last().needs_eviction is None
    }
}

/// `post` is `pre` after a notice that `run_id` is to be evicted: the run's
/// entry, added at the back if there was none, asks for an eviction with the
/// given message and reason, and every other entry is as it was.
pub open spec fn eviction_noted(
    pre: Seq<PendingActInfo>,
    post: Seq<PendingActInfo>,
    run_id: Seq<char>,
    message: Seq<char>,
    reason: EvictionReason,
) -> bool {
    let p = position_of(pre, run_id);
    &&& post.len() == (if p < pre.len() {
        pre.len()
    } else {
        pre.len() + 1
    })
    &&& forall|j: int| 0 <= j < pre.len() && j != p ==> #[trigger] post[j] == pre[j]
    &&& post[p].run_id@ == run_id
    &&& post[p].needs_eviction is Some
    &&& post[p].needs_eviction.unwrap().message@ == message
    &&& post[p].needs_eviction.unwrap().reason == reason
}

/// `post` is `pre` without the entry for `run_id`.
pub open spec fn entry_removed(
    pre: Seq<PendingActInfo>,
    post: Seq<PendingActInfo>,
    run_id: Seq<char>,
) -> bool {
    if has_entry(pre, run_id) {
        post == pre.remove(position_of(pre, run_id))
    } else {
        post == pre
    }
}

/// `position_of` finds the first entry for the run, if there is one.
pub proof fn lemma_position_of(q: Seq<PendingActInfo>, run_id: Seq<char>)
    ensures
        0 <= position_of(q, run_id) <= q.len(),
        position_of(q, run_id) < q.len() ==> q[position_of(q, run_id)].run_id@ == run_id,
        forall|j: int| 0 <= j < position_of(q, run_id) ==> (#[trigger] q[j]).run_id@ != run_id,
        has_entry(q, run_id) <==> position_of(q, run_id) < q.len(),
    decreases q.len(),
{
    if q.len() == 0 {
    } else if q[0].run_id@ == run_id {
    } else {
        let rest = q.drop_first();
        lemma_position_of(rest, run_id);
        let p = position_of(rest, run_id);
        assert forall|j: int| 0 <= j < 1 + p implies (#[trigger] q[j]).run_id@ != run_id by {
            if j > 0 {
                assert(q[j] == rest[j - 1]);
            }
        }
        if p < rest.len() {
            assert(q[1 + p] == rest[p]);
        }
        if has_entry(q, run_id) {
            let i = choose|i: int| 0 <= i < q.len() && (#[trigger] q[i]).run_id@ == run_id;
            assert(rest[i - 1] == q[i]);
        }
    }
}

impl View for PendingActivations {
    type V = Seq<PendingActInfo>;

    closed spec fn view(&self) -> Seq<PendingActInfo> {
        self.queue@
    }
}

impl PendingActivations {
    /// The queue holds at most one entry per run.
    pub open spec fn wf(&self) -> bool {
        distinct_runs(self@)
    }

    pub fn new() -> (r: Self)
        ensures
            r@.len() == 0,
            r.wf(),
    {
        PendingActivations { queue: Vec::new() }
    }

    /// Index of the entry for `run_id`, if any.
    fn find(&self, run_id: &String) -> (r: Option<usize>)
        ensures
            r matches Some(i) ==> i == position_of(self@, run_id@) && i < self@.len(),
            r is None ==> position_of(self@, run_id@) == self@.len(),
    {
        proof {
            lemma_position_of(self@, run_id@);
        }
        let mut i: usize = 0;
        while i < self.queue.len()
            invariant
                i <= self.queue.len(),
                forall|j: int| 0 <= j < i ==> (#[trigger] self.queue@[j]).run_id@ != run_id@,
                0 <= position_of(self@, run_id@) <= self@.len(),
                position_of(self@, run_id@) < self@.len() ==> self@[position_of(
                    self@,
                    run_id@,
                )].run_id@ == run_id@,
                forall|j: int|
                    0 <= j < position_of(self@, run_id@) ==> (#[trigger] self@[j]).run_id@
                        != run_id@,
            decreases self.queue.len() - i,
        {
            if self.queue[i].run_id == *run_id {
                return Some(i);
            }
            i += 1;
        }
        None
    }

    /// Number of queued entries.
    pub fn len(&self) -> (r: usize)
        ensures
            r == self@.len(),
    {
        self.queue.len()
    }

    /// Records that `run_id` needs an activation. A run that already has an
    /// entry keeps it unchanged.
    pub fn notify_needs_activation(&mut self, run_id: &String)
        requires
            old(self).wf(),
        ensures
            final(self).wf(),
            activation_noted(old(self)@, final(self)@, run_id@),
    {
        proof {
            lemma_position_of(self@, run_id@);
        }
        match self.find(run_id) {
            Some(_) => {},
            None => {
                let ghost before = self@;
                self.queue.push(PendingActInfo { run_id: run_id.clone(), needs_eviction: None });
                proof {
                    let after = self@;
                    assert(after.drop_last() =~= before);
                    assert(after[after.len() - 1].run_id@ == run_id@);
                    lemma_push_entry(before, after);
                }
            },
        }
    }

    /// Records that `run_id` is to be evicted. The run's entry, made if there
    /// is none, carries the given message and reason afterwards, so notifying
    /// twice with the same arguments is the same as notifying once.
    pub fn notify_needs_eviction(&mut self, run_id: &String, message: String, reason: EvictionReason)
        requires
            old(self).wf(),
        ensures
            final(self).wf(),
            eviction_noted(old(self)@, final(self)@, run_id@, message@, reason),
    {
        proof {
            lemma_position_of(self@, run_id@);
        }
        let ghost before = self@;
        let job = RemoveFromCache { message, reason };
        match self.find(run_id) {
            Some(i) => {
                self.queue[i].needs_eviction = Some(job);
                proof {
                    lemma_replace_entry(before, self@, i as int);
                }
            },
            None => {
                self.queue.push(PendingActInfo { run_id: run_id.clone(), needs_eviction: Some(job) });
                proof {
                    let after = self@;
                    assert(after.drop_last() =~= before);
                    assert(after[after.len() - 1].run_id@ == run_id@);
                    lemma_push_entry(before, after);
                    assert forall|j: int| 0 <= j < before.len() implies #[trigger] after[j]
                        == before[j] by {
                        assert(after.drop_last()[j] == after[j]);
                    }
                }
            },
        }
    }

    /// Removes and returns the first entry whose run satisfies `pred`.
    /// Entries before it stay queued, in order.
    pub fn pop_first_matching<F: Fn(&String) -> bool>(&mut self, pred: F) -> (r: Option<
        PendingActInfo,
    >)
        requires
            old(self).wf(),
            forall|s: &String| call_requires(pred, (s,)),
        ensures
            final(self).wf(),
            r is None ==> final(self)@ == old(self)@ && forall|j: int|
                0 <= j < old(self)@.len() ==> call_ensures(
                    pred,
                    (&(#[trigger] old(self)@[j]).run_id,),
                    false,
                ),
            r matches Some(e) ==> exists|idx: int|
                0 <= idx < old(self)@.len() && e == old(self)@[idx] && final(self)@
                    == old(self)@.remove(idx) && call_ensures(
                    pred,
                    (&old(self)@[idx].run_id,),
                    true,
                ) && forall|j: int|
                    0 <= j < idx ==> call_ensures(
                        pred,
                        (&(#[trigger] old(self)@[j]).run_id,),
                        false,
                    ),
    {
        let mut i: usize = 0;
        while i < self.queue.len()
            invariant
                i <= self.queue.len(),
                self@ == old(self)@,
                self.wf(),
                forall|s: &String| call_requires(pred, (s,)),
                forall|j: int|
                    0 <= j < i ==> call_ensures(
                        pred,
                        (&(#[trigger] old(self)@[j]).run_id,),
                        false,
                    ),
            decreases self.queue.len() - i,
        {
            if pred(&self.queue[i].run_id) {
                let ghost before = self@;
                let e = self.queue.remove(i);
                proof {
                    lemma_remove_entry(before, self@, i as int);
                }
                return Some(e);
            }
            i += 1;
        }
        None
    }

    /// Whether `run_id` has an entry in the queue.
    pub fn has_pending(&self, run_id: &String) -> (r: bool)
        ensures
            r == has_entry(self@, run_id@),
    {
        proof {
            lemma_position_of(self@, run_id@);
        }
        self.find(run_id).is_some()
    }

    /// Whether any queued entry asks for an eviction.
    pub fn is_some_eviction(&self) -> (r: bool)
        ensures
            r == any_eviction(self@),
    {
        let mut i: usize = 0;
        while i < self.queue.len()
            invariant
                i <= self.queue.len(),
                forall|j: int| 0 <= j < i ==> (#[trigger] self@[j]).needs_eviction is None,
            decreases self.queue.len() - i,
        {
            if self.queue[i].needs_eviction.is_some() {
                return true;
            }
            i += 1;
        }
        false
    }

    /// Drops the entry for `run_id`, if there is one.
    pub fn remove_all_with_run_id(&mut self, run_id: &String)
        requires
            old(self).wf(),
        ensures
            final(self).wf(),
            entry_removed(old(self)@, final(self)@, run_id@),
    {
        proof {
            lemma_position_of(self@, run_id@);
        }
        match self.find(run_id) {
            Some(i) => {
                let ghost before = self@;
                let _ = self.queue.remove(i);
                proof {
                    lemma_remove_entry(before, self@, i as int);
                }
            },
            None => {},
        }
    }
}

/// What a notice that a run is to be evicted does to the queue as a whole.
pub proof fn lemma_eviction_noted(
    pre: Seq<PendingActInfo>,
    post: Seq<PendingActInfo>,
    run_id: Seq<char>,
    message: Seq<char>,
    reason: EvictionReason,
)
    requires
        distinct_runs(pre),
        eviction_noted(pre, post, run_id, message, reason),
    ensures
        distinct_runs(post),
        has_entry(post, run_id),
        position_of(post, run_id) == position_of(pre, run_id),
        forall|other: Seq<char>|
            other != run_id ==> (has_entry(post, other) <==> has_entry(pre, other)),
        any_eviction(post),
{
    lemma_position_of(pre, run_id);
    let p = position_of(pre, run_id);
    if p < pre.len() {
        assert(post =~= pre.update(p, post[p]));
        lemma_replace_entry(pre, post, p);
    } else {
        assert(post.drop_last() =~= pre);
        lemma_push_entry(pre, post);
    }
    assert(post[p].needs_eviction is Some);
    lemma_position_of(post, run_id);
}

/// Noting an eviction twice with the same message and reason leaves the
/// queue as noting it once does.
pub proof fn lemma_eviction_noted_twice(
    pre: Seq<PendingActInfo>,
    mid: Seq<PendingActInfo>,
    post: Seq<PendingActInfo>,
    run_id: Seq<char>,
    message: Seq<char>,
    reason: EvictionReason,
)
    requires
        distinct_runs(pre),
        eviction_noted(pre, mid, run_id, message, reason),
        eviction_noted(mid, post, run_id, message, reason),
    ensures
        eviction_noted(pre, post, run_id, message, reason),
        post.len() == mid.len(),
        forall|j: int|
            0 <= j < mid.len() && j != position_of(pre, run_id) ==> #[trigger] post[j] == mid[j],
{
    lemma_eviction_noted(pre, mid, run_id, message, reason);
    lemma_position_of(pre, run_id);
    lemma_position_of(mid, run_id);
}

/// Appending an entry for a run that has none keeps the runs distinct and
/// changes no other run's membership.
pub proof fn lemma_push_entry(before: Seq<PendingActInfo>, after: Seq<PendingActInfo>)
    requires
        distinct_runs(before),
        after.len() == before.len() + 1,
        after.drop_last() == before,
        !has_entry(before, after.last().run_id@),
    ensures
        distinct_runs(after),
        has_entry(after, after.last().run_id@),
        position_of(after, after.last().run_id@) == before.len(),
        forall|other: Seq<char>|
            other != after.last().run_id@ ==> (has_entry(after, other) <==> has_entry(
                before,
                other,
            )),
        forall|other: Seq<char>|
            other != after.last().run_id@ ==> position_of(after, other) == (if has_entry(
                before,
                other,
            ) {
                position_of(before, other)
            } else {
                after.len() as int
            }),
        any_eviction(after) <==> (any_eviction(before) || after.last().needs_eviction is Some),
{
    let rid = after.last().run_id@;
    let n = before.len() as int;
    assert forall|j: int| 0 <= j < n implies after[j] == before[j] by {
        assert(after.drop_last()[j] == after[j]);
    }
    assert forall|i: int, j: int| 0 <= i < j < after.len() implies (#[trigger] after[i]).run_id@
        != (#[trigger] after[j]).run_id@ by {
        if j == n {
            assert(before[i].run_id@ != rid);
        }
    }
    assert(after[n].run_id@ == rid);
    lemma_position_of(after, rid);
    assert(position_of(after, rid) == n) by {
        let p = position_of(after, rid);
        if p < n {
            assert(before[p].run_id@ == rid);
        }
    }
    assert forall|other: Seq<char>| other != rid implies (has_entry(after, other) <==> has_entry(
        before,
        other,
    )) by {
        if has_entry(after, other) {
            let i = choose|i: int| 0 <= i < after.len() && (#[trigger] after[i]).run_id@ == other;
            assert(before[i].run_id@ == other);
        }
        if has_entry(before, other) {
            let i = choose|i: int|
                0 <= i < before.len() && (#[trigger] before[i]).run_id@ == other;
            assert(after[i].run_id@ == other);
        }
    }
    assert forall|other: Seq<char>| other != rid implies position_of(after, other) == (
    if has_entry(before, other) {
        position_of(before, other)
    } else {
        after.len() as int
    }) by {
        lemma_position_of(after, other);
        lemma_position_of(before, other);
        let pa = position_of(after, other);
        let pb = position_of(before, other);
        if has_entry(before, other) {
            assert(after[pb].run_id@ == other);
            if pa < pb {
                assert(before[pa].run_id@ == other);
            }
        }
    }
    if any_eviction(after) {
        let i = choose|i: int| 0 <= i < after.len() && (#[trigger] after[i]).needs_eviction is Some;
        if i < n {
            assert(before[i].needs_eviction is Some);
        }
    }
    if any_eviction(before) {
        let i = choose|i: int|
            0 <= i < before.len() && (#[trigger] before[i]).needs_eviction is Some;
        assert(after[i].needs_eviction is Some);
    }
    if after.last().needs_eviction is Some {
        assert(after[n].needs_eviction is Some);
    }
}

/// Replacing an entry by another for the same run keeps the runs distinct,
/// every position and every run's membership.
pub proof fn lemma_replace_entry(before: Seq<PendingActInfo>, after: Seq<PendingActInfo>, i: int)
    requires
        distinct_runs(before),
        0 <= i < before.len(),
        after == before.update(i, after[i]),
        after[i].run_id@ == before[i].run_id@,
    ensures
        distinct_runs(after),
        forall|other: Seq<char>| has_entry(after, other) <==> has_entry(before, other),
        forall|other: Seq<char>| position_of(after, other) == position_of(before, other),
{
    assert forall|a: int, b: int| 0 <= a < b < after.len() implies (#[trigger] after[a]).run_id@
        != (#[trigger] after[b]).run_id@ by {
        assert(after[a].run_id@ == before[a].run_id@);
        assert(after[b].run_id@ == before[b].run_id@);
    }
    assert forall|other: Seq<char>| has_entry(after, other) <==> has_entry(before, other) by {
        if has_entry(after, other) {
            let k = choose|k: int| 0 <= k < after.len() && (#[trigger] after[k]).run_id@ == other;
            assert(before[k].run_id@ == other);
        }
        if has_entry(before, other) {
            let k = choose|k: int|
                0 <= k < before.len() && (#[trigger] before[k]).run_id@ == other;
            assert(after[k].run_id@ == other);
        }
    }
    assert forall|other: Seq<char>| position_of(after, other) == position_of(before, other) by {
        lemma_position_of(after, other);
        lemma_position_of(before, other);
        let pa = position_of(after, other);
        let pb = position_of(before, other);
        if pa < pb {
            assert(before[pa].run_id@ == after[pa].run_id@);
        }
        if pb < pa {
            assert(after[pb].run_id@ == before[pb].run_id@);
        }
    }
}

/// Removing the entry at `i` keeps the runs distinct, removes that run from
/// the queue and changes no other run's membership.
pub proof fn lemma_remove_entry(before: Seq<PendingActInfo>, after: Seq<PendingActInfo>, i: int)
    requires
        distinct_runs(before),
        0 <= i < before.len(),
        after == before.remove(i),
    ensures
        distinct_runs(after),
        has_entry(before, before[i].run_id@),
        !has_entry(after, before[i].run_id@),
        forall|other: Seq<char>|
            other != before[i].run_id@ ==> (has_entry(after, other) <==> has_entry(before, other)),
        forall|other: Seq<char>| has_entry(after, other) ==> has_entry(before, other),
{
    let rid = before[i].run_id@;
    assert forall|a: int, b: int| 0 <= a < b < after.len() implies (#[trigger] after[a]).run_id@
        != (#[trigger] after[b]).run_id@ by {
        let a0 = if a < i { a } else { a + 1 };
        let b0 = if b < i { b } else { b + 1 };
        assert(after[a] == before[a0]);
        assert(after[b] == before[b0]);
    }
    if has_entry(after, rid) {
        let k = choose|k: int| 0 <= k < after.len() && (#[trigger] after[k]).run_id@ == rid;
        let k0 = if k < i { k } else { k + 1 };
        assert(after[k] == before[k0]);
        if k0 < i {
            assert(before[k0].run_id@ != before[i].run_id@);
        } else {
            assert(before[i].run_id@ != before[k0].run_id@);
        }
    }
    assert forall|other: Seq<char>| has_entry(after, other) implies has_entry(before, other) by {
        let k = choose|k: int| 0 <= k < after.len() && (#[trigger] after[k]).run_id@ == other;
        let k0 = if k < i { k } else { k + 1 };
        assert(after[k] == before[k0]);
        assert(before[k0].run_id@ == other);
    }
    assert forall|other: Seq<char>| other != rid && has_entry(before, other) implies has_entry(
        after,
        other,
    ) by {
        let k = choose|k: int| 0 <= k < before.len() && (#[trigger] before[k]).run_id@ == other;
        let k1 = if k < i { k } else { k - 1 };
        assert(after[k1] == before[k]);
        assert(after[k1].run_id@ == other);
    }
}

} // verus!
