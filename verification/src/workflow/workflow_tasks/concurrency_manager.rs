//! Per-run bookkeeping: which runs have state machines, and for each the
//! outstanding workflow task, the outstanding activation and the buffered
//! poll response, if any.

use crate::keyed::{
    by_key, distinct_keys, lemma_by_key_at, lemma_by_key_push, lemma_by_key_remove,
    lemma_by_key_update,
};
use crate::protosext::ValidPollWFTQResponse;
use crate::protos::QueryWorkflow;
use crate::workflow::workflow_tasks::{OutstandingActivation, OutstandingTask, WorkflowMissingError};
use vstd::prelude::*;

verus! {

/// What is tracked for one run.
pub struct ManagedRun {
    pub run_id: String,
    /// The workflow task being worked on, if any.
    pub wft: Option<OutstandingTask>,
    /// The activation the language host has not answered yet, if any.
    pub activation: Option<OutstandingActivation>,
    /// A poll response that arrived while the run was busy.
    pub buffered_resp: Option<ValidPollWFTQResponse>,
}

impl ManagedRun {
    /// The run has an outstanding workflow task or activation.
    pub open spec fn has_outstanding_work(&self) -> bool {
        self.wft is Some || self.activation is Some
    }
}

/// The run id of what is tracked for a run.
pub open spec fn run_key() -> spec_fn(ManagedRun) -> Seq<char> {
    |run: ManagedRun| run.run_id@
}

/// The outstanding task of `run_id` in `m`, if the run is known and has one.
pub open spec fn task_of(m: Map<Seq<char>, ManagedRun>, run_id: Seq<char>) -> Option<
    OutstandingTask,
> {
    if m.contains_key(run_id) {
        m[run_id].wft
    } else {
        None
    }
}

/// The outstanding activation of `run_id` in `m`, if the run is known and has one.
pub open spec fn activation_of(m: Map<Seq<char>, ManagedRun>, run_id: Seq<char>) -> Option<
    OutstandingActivation,
> {
    if m.contains_key(run_id) {
        m[run_id].activation
    } else {
        None
    }
}

/// `run_id` is known in `m` and has an outstanding workflow task or
/// activation.
pub open spec fn is_busy(m: Map<Seq<char>, ManagedRun>, run_id: Seq<char>) -> bool {
    m.contains_key(run_id) && m[run_id].has_outstanding_work()
}

/// The buffered poll response of `run_id` in `m`, if the run is known and has one.
pub open spec fn buffered_of(m: Map<Seq<char>, ManagedRun>, run_id: Seq<char>) -> Option<
    ValidPollWFTQResponse,
> {
    if m.contains_key(run_id) {
        m[run_id].buffered_resp
    } else {
        None
    }
}

/// Some run of `m` has an outstanding activation that carries an eviction.
pub open spec fn any_outstanding_eviction(m: Map<Seq<char>, ManagedRun>) -> bool {
    exists|k: Seq<char>|
        m.contains_key(k) && (#[trigger] m[k]).activation is Some
            && m[k].activation.unwrap().has_eviction()
}

/// The runs `m` with `task` as the outstanding task of `run_id`.
pub open spec fn with_wft(
    m: Map<Seq<char>, ManagedRun>,
    run_id: Seq<char>,
    task: OutstandingTask,
) -> Map<Seq<char>, ManagedRun> {
    m.insert(run_id, ManagedRun { wft: Some(task), ..m[run_id] })
}

/// The runs `m` with no outstanding task for `run_id`.
pub open spec fn without_wft(m: Map<Seq<char>, ManagedRun>, run_id: Seq<char>) -> Map<
    Seq<char>,
    ManagedRun,
> {
    if task_of(m, run_id) is Some {
        m.insert(run_id, ManagedRun { wft: None, ..m[run_id] })
    } else {
        m
    }
}

/// A workflow task that is inserted and then completed as reported leaves
/// the run without an outstanding task, whatever it had before.
pub proof fn lemma_insert_then_complete(
    m: Map<Seq<char>, ManagedRun>,
    run_id: Seq<char>,
    task: OutstandingTask,
)
    requires
        m.contains_key(run_id),
    ensures
        task_of(with_wft(m, run_id, task), run_id) == Some(task),
        task_of(without_wft(with_wft(m, run_id, task), run_id), run_id) is None,
        without_wft(with_wft(m, run_id, task), run_id) == m.insert(
            run_id,
            ManagedRun { wft: None, ..m[run_id] },
        ),
{
    assert(without_wft(with_wft(m, run_id, task), run_id) =~= m.insert(
        run_id,
        ManagedRun { wft: None, ..m[run_id] },
    ));
}

/// The ids of the runs of `m` that have an outstanding workflow task.
pub open spec fn runs_with_task(m: Map<Seq<char>, ManagedRun>) -> Set<Seq<char>> {
    m.dom().filter(|k: Seq<char>| m[k].wft is Some)
}

/// The number of entries of `runs` that have an outstanding workflow task.
pub open spec fn count_with_task(runs: Seq<ManagedRun>) -> nat
    decreases runs.len(),
{
    if runs.len() == 0 {
        0
    } else {
        count_with_task(runs.drop_last()) + (if runs.last().wft is Some {
            1nat
        } else {
            0nat
        })
    }
}

/// Counting the entries with a task counts the runs with a task.
pub proof fn lemma_count_with_task(runs: Seq<ManagedRun>)
    requires
        distinct_keys(runs, run_key()),
    ensures
        runs_with_task(by_key(runs, run_key())).finite(),
        runs_with_task(by_key(runs, run_key())).len() == count_with_task(runs),
        count_with_task(runs) <= runs.len(),
    decreases runs.len(),
{
    let m = by_key(runs, run_key());
    if runs.len() == 0 {
        assert(runs_with_task(m) =~= Set::<Seq<char>>::empty());
    } else {
        let init = runs.drop_last();
        let last = runs.last();
        assert forall|a: int, b: int| 0 <= a < b < init.len() implies run_key()(
            #[trigger] init[a],
        ) != run_key()(#[trigger] init[b]) by {
            assert(init[a] == runs[a] && init[b] == runs[b]);
        }
        lemma_count_with_task(init);
        let mi = by_key(init, run_key());
        if mi.contains_key(last.run_id@) {
            let j = choose|j: int|
                0 <= j < init.len() && run_key()(#[trigger] init[j]) == last.run_id@;
            assert(init[j] == runs[j]);
            assert(run_key()(runs[j]) != run_key()(runs[runs.len() - 1]));
        }
        assert(init.push(last) =~= runs);
        lemma_by_key_push(init, run_key(), last);
        assert(m == mi.insert(last.run_id@, last));
        if last.wft is Some {
            assert(runs_with_task(m) =~= runs_with_task(mi).insert(last.run_id@));
        } else {
            assert(runs_with_task(m) =~= runs_with_task(mi));
        }
    }
}

/// Tracks every run that has state machines.
pub struct WorkflowConcurrencyManager {
    runs: Vec<ManagedRun>,
}

impl View for WorkflowConcurrencyManager {
    type V = Map<Seq<char>, ManagedRun>;

    /// What is tracked for each known run, by run id.
    closed spec fn view(&self) -> Map<Seq<char>, ManagedRun> {
        by_key(self.runs@, run_key())
    }
}

impl WorkflowConcurrencyManager {
    /// The runs are stored once each.
    pub closed spec fn inv(&self) -> bool {
        &&& distinct_keys(self.runs@, run_key())
        &&& self@.dom().finite()
        &&& self@.dom().len() == self.runs@.len()
    }

    /// Every run is filed under its own id, and there are finitely many.
    pub open spec fn wf(&self) -> bool {
        &&& self.inv()
        &&& self@.dom().finite()
        &&& forall|k: Seq<char>| self@.contains_key(k) ==> (#[trigger] self@[k]).run_id@ == k
    }

    proof fn lemma_wf(&self)
        requires
            self.inv(),
        ensures
            self.wf(),
    {
        assert forall|k: Seq<char>| self@.contains_key(k) implies (#[trigger] self@[k]).run_id@
            == k by {
            let j = choose|j: int|
                0 <= j < self.runs@.len() && (#[trigger] self.runs@[j]).run_id@ == k;
            lemma_by_key_at(self.runs@, run_key(), j);
        }
    }

    pub fn new() -> (r: Self)
        ensures
            r.wf(),
            r@ == (Map::<Seq<char>, ManagedRun>::empty()),
    {
        let r = WorkflowConcurrencyManager { runs: Vec::new() };
        proof {
            assert(r@ =~= Map::<Seq<char>, ManagedRun>::empty());
            r.lemma_wf();
        }
        r
    }

    fn find(&self, run_id: &String) -> (r: Option<usize>)
        requires
            self.wf(),
        ensures
            r matches Some(i) ==> i < self.runs@.len() && self.runs@[i as int].run_id@ == run_id@
                && self@.contains_key(run_id@) && self@[run_id@] == self.runs@[i as int],
            r is None ==> !self@.contains_key(run_id@),
    {
        let mut i: usize = 0;
        while i < self.runs.len()
            invariant
                i <= self.runs.len(),
                self.wf(),
                forall|j: int| 0 <= j < i ==> (#[trigger] self.runs@[j]).run_id@ != run_id@,
            decreases self.runs.len() - i,
        {
            if self.runs[i].run_id == *run_id {
                proof {
                    lemma_by_key_at(self.runs@, run_key(), i as int);
                }
                return Some(i);
            }
            i += 1;
        }
        None
    }

    /// Whether the run is known.
    pub fn run_exists(&self, run_id: &String) -> (r: bool)
        requires
            self.wf(),
        ensures
            r == self@.contains_key(run_id@),
    {
        self.find(run_id).is_some()
    }

    /// Number of known runs.
    pub fn cached_workflows(&self) -> (r: usize)
        requires
            self.wf(),
        ensures
            r == self@.dom().len(),
    {
        self.runs.len()
    }

    /// Number of runs that have an outstanding workflow task.
    pub fn outstanding_wft(&self) -> (r: usize)
        requires
            self.wf(),
        ensures
            r == runs_with_task(self@).len(),
    {
        let mut count: usize = 0;
        let mut i: usize = 0;
        proof {
            assert(self.runs@.take(0) =~= Seq::<ManagedRun>::empty());
        }
        while i < self.runs.len()
            invariant
                i <= self.runs.len(),
                count == count_with_task(self.runs@.take(i as int)),
                count <= i,
            decreases self.runs.len() - i,
        {
            proof {
                assert(self.runs@.take(i + 1).drop_last() =~= self.runs@.take(i as int));
            }
            if self.runs[i].wft.is_some() {
                count += 1;
            }
            i += 1;
        }
        proof {
            assert(self.runs@.take(i as int) =~= self.runs@);
            lemma_count_with_task(self.runs@);
        }
        count
    }

    /// The run's outstanding workflow task, if it is known and has one.
    pub fn get_task(&self, run_id: &String) -> (r: Option<&OutstandingTask>)
        requires
            self.wf(),
        ensures
            r matches Some(t) ==> task_of(self@, run_id@) == Some(*t),
            r is None ==> task_of(self@, run_id@) is None,
    {
        match self.find(run_id) {
            Some(i) => self.runs[i].wft.as_ref(),
            None => None,
        }
    }

    /// The run's outstanding activation, if it is known and has one.
    pub fn get_activation(&self, run_id: &String) -> (r: Option<OutstandingActivation>)
        requires
            self.wf(),
        ensures
            r == activation_of(self@, run_id@),
    {
        match self.find(run_id) {
            Some(i) => self.runs[i].activation,
            None => None,
        }
    }

    /// Whether the run has a buffered poll response.
    pub fn has_buffered_poll(&self, run_id: &String) -> (r: bool)
        requires
            self.wf(),
        ensures
            r == buffered_of(self@, run_id@).is_some(),
    {
        match self.find(run_id) {
            Some(i) => self.runs[i].buffered_resp.is_some(),
            None => false,
        }
    }

    /// Whether some run has an outstanding activation that carries an eviction.
    pub fn are_outstanding_evictions(&self) -> (r: bool)
        requires
            self.wf(),
        ensures
            r == any_outstanding_eviction(self@),
    {
        let mut i: usize = 0;
        while i < self.runs.len()
            invariant
                i <= self.runs.len(),
                self.wf(),
                forall|j: int|
                    0 <= j < i ==> !((#[trigger] self.runs@[j]).activation is Some
                        && self.runs@[j].activation.unwrap().has_eviction()),
            decreases self.runs.len() - i,
        {
            let evicting = match self.runs[i].activation {
                Some(a) => a.has_eviction(),
                None => false,
            };
            if evicting {
                proof {
                    lemma_by_key_at(self.runs@, run_key(), i as int);
                    let k = self.runs@[i as int].run_id@;
                    assert(self@.contains_key(k) && self@[k].activation is Some);
                }
                return true;
            }
            i += 1;
        }
        proof {
            if any_outstanding_eviction(self@) {
                let k = choose|k: Seq<char>|
                    self@.contains_key(k) && (#[trigger] self@[k]).activation is Some
                        && self@[k].activation.unwrap().has_eviction();
                let j = choose|j: int|
                    0 <= j < self.runs@.len() && (#[trigger] self.runs@[j]).run_id@ == k;
                lemma_by_key_at(self.runs@, run_key(), j);
            }
        }
        false
    }

    /// Starts tracking `run_id` if it is not tracked yet; a run that is
    /// tracked keeps what it has. Returns whether the run is new.
    pub fn create_or_update(&mut self, run_id: &String) -> (created: bool)
        requires
            old(self).wf(),
        ensures
            final(self).wf(),
            created == !old(self)@.contains_key(run_id@),
            !created ==> final(self)@ == old(self)@,
            created ==> final(self)@.dom() == old(self)@.dom().insert(run_id@) && forall|
                k: Seq<char>,
            |
                old(self)@.contains_key(k) ==> final(self)@[k] == old(self)@[k],
            created ==> final(self)@[run_id@].wft is None && final(self)@[run_id@].activation
                is None && final(self)@[run_id@].buffered_resp is None,
    {
        match self.find(run_id) {
            Some(_) => false,
            None => {
                let e = ManagedRun {
                    run_id: run_id.clone(),
                    wft: None,
                    activation: None,
                    buffered_resp: None,
                };
                proof {
                    lemma_by_key_push(self.runs@, run_key(), e);
                }
                self.runs.push(e);
                proof {
                    assert(self@.dom() =~= old(self)@.dom().insert(run_id@));
                    self.lemma_wf();
                }
                true
            },
        }
    }

    /// Records `task` as the run's outstanding workflow task, in place of any
    /// it had. Fails, changing nothing, if the run is unknown.
    pub fn insert_wft(&mut self, run_id: &String, task: OutstandingTask) -> (r: Result<
        (),
        WorkflowMissingError,
    >)
        requires
            old(self).wf(),
        ensures
            final(self).wf(),
            r is Ok <==> old(self)@.contains_key(run_id@),
            r is Ok ==> final(self)@ == with_wft(old(self)@, run_id@, task),
            r matches Err(e) ==> e.run_id@ == run_id@ && final(self)@ == old(self)@,
    {
        match self.find(run_id) {
            Some(i) => {
                proof {
                    lemma_by_key_update(self.runs@, run_key(),
                        i as int,
                        ManagedRun { wft: Some(task), ..self.runs@[i as int] },
                    );
                }
                self.runs[i].wft = Some(task);
                proof {
                    assert(self@.dom() =~= old(self)@.dom());
                    self.lemma_wf();
                }
                Ok(())
            },
            None => Err(WorkflowMissingError { run_id: run_id.clone() }),
        }
    }

    /// Marks the run's workflow task complete, if it should be: the task is
    /// removed and returned when it was reported to the server or the state
    /// machines have seen the run's final event. Otherwise nothing changes.
    pub fn complete_wft(&mut self, run_id: &String, reported: bool, saw_final_event: bool) -> (r:
        Option<OutstandingTask>)
        requires
            old(self).wf(),
        ensures
            final(self).wf(),
            reported || saw_final_event ==> r == task_of(old(self)@, run_id@) && final(self)@
                == without_wft(old(self)@, run_id@),
            !(reported || saw_final_event) ==> r is None && final(self)@ == old(self)@,
            reported || saw_final_event ==> task_of(final(self)@, run_id@) is None,
    {
        if !reported && !saw_final_event {
            return None;
        }
        match self.find(run_id) {
            Some(i) => {
                proof {
                    lemma_by_key_update(self.runs@, run_key(),
                        i as int,
                        ManagedRun { wft: None, ..self.runs@[i as int] },
                    );
                }
                let r = self.runs[i].wft.take();
                proof {
                    assert(self@.dom() =~= old(self)@.dom());
                    self.lemma_wf();
                    if r is None {
                        assert(self@ =~= old(self)@);
                    }
                }
                r
            },
            None => None,
        }
    }

    /// Records `activation` as the run's outstanding activation and returns
    /// the one it replaces, if any. Fails, changing nothing, if the run is
    /// unknown.
    pub fn insert_activation(&mut self, run_id: &String, activation: OutstandingActivation) -> (r:
        Result<Option<OutstandingActivation>, WorkflowMissingError>)
        requires
            old(self).wf(),
        ensures
            final(self).wf(),
            r is Ok <==> old(self)@.contains_key(run_id@),
            r matches Ok(previous) ==> previous == old(self)@[run_id@].activation && final(self)@
                == old(self)@.insert(
                run_id@,
                ManagedRun { activation: Some(activation), ..old(self)@[run_id@] },
            ),
            r matches Err(e) ==> e.run_id@ == run_id@ && final(self)@ == old(self)@,
    {
        match self.find(run_id) {
            Some(i) => {
                proof {
                    lemma_by_key_update(self.runs@, run_key(),
                        i as int,
                        ManagedRun { activation: Some(activation), ..self.runs@[i as int] },
                    );
                }
                let previous = self.runs[i].activation;
                self.runs[i].activation = Some(activation);
                proof {
                    assert(self@.dom() =~= old(self)@.dom());
                    self.lemma_wf();
                }
                Ok(previous)
            },
            None => Err(WorkflowMissingError { run_id: run_id.clone() }),
        }
    }

    /// Forgets the run's outstanding activation and returns it.
    pub fn delete_activation(&mut self, run_id: &String) -> (r: Option<OutstandingActivation>)
        requires
            old(self).wf(),
        ensures
            final(self).wf(),
            r == activation_of(old(self)@, run_id@),
            old(self)@.contains_key(run_id@) ==> final(self)@ == old(self)@.insert(
                run_id@,
                ManagedRun { activation: None, ..old(self)@[run_id@] },
            ),
            !old(self)@.contains_key(run_id@) ==> final(self)@ == old(self)@,
            activation_of(final(self)@, run_id@) is None,
    {
        match self.find(run_id) {
            Some(i) => {
                proof {
                    lemma_by_key_update(self.runs@, run_key(),
                        i as int,
                        ManagedRun { activation: None, ..self.runs@[i as int] },
                    );
                }
                let r = self.runs[i].activation;
                self.runs[i].activation = None;
                proof {
                    assert(self@.dom() =~= old(self)@.dom());
                    self.lemma_wf();
                }
                r
            },
            None => None,
        }
    }

    /// Keeps `work` back if its run is busy.
    ///
    /// If the run is known and has an outstanding task or activation, `work`
    /// goes into the run's buffer slot and nothing is returned: the caller
    /// must not apply it now. Otherwise `work` comes back unchanged. The
    /// server sends at most one task per run at a time, so the slot of a busy
    /// run must be free.
    pub fn buffer_resp_if_outstanding_work(&mut self, work: ValidPollWFTQResponse) -> (r: Option<
        ValidPollWFTQResponse,
    >)
        requires
            old(self).wf(),
            is_busy(old(self)@, work.workflow_execution.run_id@) ==> buffered_of(
                old(self)@,
                work.workflow_execution.run_id@,
            ) is None,
        ensures
            final(self).wf(),
            r is None <==> is_busy(old(self)@, work.workflow_execution.run_id@),
            r is None ==> final(self)@ == old(self)@.insert(
                work.workflow_execution.run_id@,
                ManagedRun {
                    buffered_resp: Some(work),
                    ..old(self)@[work.workflow_execution.run_id@]
                },
            ),
            r matches Some(w) ==> w == work && final(self)@ == old(self)@,
    {
        match self.find(&work.workflow_execution.run_id) {
            Some(i) => {
                if self.runs[i].wft.is_some() || self.runs[i].activation.is_some() {
                    proof {
                        lemma_by_key_update(self.runs@, run_key(),
                            i as int,
                            ManagedRun { buffered_resp: Some(work), ..self.runs@[i as int] },
                        );
                    }
                    self.runs[i].buffered_resp = Some(work);
                    proof {
                        assert(self@.dom() =~= old(self)@.dom());
                        self.lemma_wf();
                    }
                    None
                } else {
                    Some(work)
                }
            },
            None => Some(work),
        }
    }

    /// Takes the run's buffered poll response out of its slot.
    pub fn take_buffered_poll(&mut self, run_id: &String) -> (r: Option<ValidPollWFTQResponse>)
        requires
            old(self).wf(),
        ensures
            final(self).wf(),
            r == buffered_of(old(self)@, run_id@),
            r is Some ==> final(self)@ == old(self)@.insert(
                run_id@,
                ManagedRun { buffered_resp: None, ..old(self)@[run_id@] },
            ),
            r is None ==> final(self)@ == old(self)@,
            buffered_of(final(self)@, run_id@) is None,
    {
        match self.find(run_id) {
            Some(i) => {
                proof {
                    lemma_by_key_update(self.runs@, run_key(),
                        i as int,
                        ManagedRun { buffered_resp: None, ..self.runs@[i as int] },
                    );
                }
                let r = self.runs[i].buffered_resp.take();
                proof {
                    assert(self@.dom() =~= old(self)@.dom());
                    self.lemma_wf();
                    if r is None {
                        assert(self@ =~= old(self)@);
                    }
                }
                r
            },
            None => None,
        }
    }

    /// Takes the queries that wait for the end of replay out of the run's
    /// outstanding task, leaving it with none.
    pub fn take_pending_queries(&mut self, run_id: &String) -> (r: Vec<QueryWorkflow>)
        requires
            old(self).wf(),
        ensures
            final(self).wf(),
            final(self)@.dom() == old(self)@.dom(),
            forall|k: Seq<char>|
                k != run_id@ && old(self)@.contains_key(k) ==> final(self)@[k] == old(self)@[k],
            task_of(old(self)@, run_id@) is None ==> r@.len() == 0 && final(self)@ == old(self)@,
            task_of(old(self)@, run_id@) matches Some(t) ==> r == t.pending_queries && ({
                let after = final(self)@[run_id@];
                let before = old(self)@[run_id@];
                &&& after.run_id == before.run_id
                &&& after.activation == before.activation
                &&& after.buffered_resp == before.buffered_resp
                &&& after.wft is Some
                &&& after.wft.unwrap().info == t.info
                &&& after.wft.unwrap().start_time == t.start_time
                &&& after.wft.unwrap().pending_queries@.len() == 0
            }),
    {
        match self.find(run_id) {
            Some(i) => {
                match self.runs[i].wft.take() {
                    Some(task) => {
                        let OutstandingTask { info, pending_queries, start_time } = task;
                        let emptied = OutstandingTask {
                            info,
                            pending_queries: Vec::new(),
                            start_time,
                        };
                        proof {
                            lemma_by_key_update(old(self).runs@, run_key(),
                                i as int,
                                ManagedRun { wft: Some(emptied), ..old(self).runs@[i as int] },
                            );
                        }
                        self.runs[i].wft = Some(emptied);
                        proof {
                            assert(self.runs@ =~= old(self).runs@.update(
                                i as int,
                                ManagedRun { wft: Some(emptied), ..old(self).runs@[i as int] },
                            ));
                            assert(self@.dom() =~= old(self)@.dom());
                            self.lemma_wf();
                        }
                        pending_queries
                    },
                    None => {
                        proof {
                            assert(self.runs@ =~= old(self).runs@);
                        }
                        Vec::new()
                    },
                }
            },
            None => Vec::new(),
        }
    }

    /// Stops tracking the run and returns the poll response that was
    /// buffered for it, if any.
    pub fn evict(&mut self, run_id: &String) -> (r: Option<ValidPollWFTQResponse>)
        requires
            old(self).wf(),
        ensures
            final(self).wf(),
            r == buffered_of(old(self)@, run_id@),
            final(self)@ == old(self)@.remove(run_id@),
    {
        match self.find(run_id) {
            Some(i) => {
                proof {
                    lemma_by_key_remove(self.runs@, run_key(), i as int);
                }
                let e = self.runs.remove(i);
                proof {
                    assert(self@.dom() =~= old(self)@.dom().remove(run_id@));
                    self.lemma_wf();
                }
                e.buffered_resp
            },
            None => {
                proof {
                    assert(self@ =~= old(self)@.remove(run_id@));
                }
                None
            },
        }
    }
}

} // verus!
