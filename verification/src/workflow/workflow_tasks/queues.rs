//! The lock-free queues the task manager keeps: activations that answer
//! legacy queries, and poll responses that are ready to be applied.

use crate::protos::WorkflowActivation;
use crate::protosext::ValidPollWFTQResponse;
use crossbeam::queue::SegQueue;
use vstd::prelude::*;

verus! {

/// `crossbeam::queue::SegQueue`, an unbounded queue. Nothing is known of a
/// queue but what the functions below say.
#[verifier::external_type_specification]
#[verifier::external_body]
#[verifier::reject_recursive_types(T)]
pub struct ExSegQueue<T>(SegQueue<T>);

/// The activations held by a queue, oldest first.
pub uninterp spec fn queued_activations(q: SegQueue<WorkflowActivation>) -> Seq<WorkflowActivation>;

/// The poll responses held by a queue, oldest first.
pub uninterp spec fn queued_polls(q: SegQueue<ValidPollWFTQResponse>) -> Seq<
    ValidPollWFTQResponse,
>;

/// `SegQueue::new`: a new queue holds nothing.
#[verifier::external_body]
pub(crate) fn new_activation_queue() -> (q: SegQueue<WorkflowActivation>)
    ensures
        queued_activations(q).len() == 0,
{
    SegQueue::new()
}

/// `SegQueue::push`: the item goes to the back of the queue, behind
/// everything that is in it.
#[verifier::external_body]
pub(crate) fn push_activation(q: &mut SegQueue<WorkflowActivation>, item: WorkflowActivation)
    ensures
        queued_activations(*final(q)) == queued_activations(*old(q)).push(item),
{
    q.push(item)
}

/// `SegQueue::pop`: takes the item at the front of the queue, the one that
/// has been in it longest; an empty queue gives nothing and stays empty.
#[verifier::external_body]
pub(crate) fn pop_activation(q: &mut SegQueue<WorkflowActivation>) -> (r: Option<
    WorkflowActivation,
>)
    ensures
        queued_activations(*old(q)).len() == 0 ==> r is None && queued_activations(*final(q))
            == queued_activations(*old(q)),
        queued_activations(*old(q)).len() > 0 ==> r == Some(queued_activations(*old(q))[0])
            && queued_activations(*final(q)) == queued_activations(*old(q)).drop_first(),
{
    q.pop()
}

/// `SegQueue::new`: a new queue holds nothing.
#[verifier::external_body]
pub(crate) fn new_poll_queue() -> (q: SegQueue<ValidPollWFTQResponse>)
    ensures
        queued_polls(q).len() == 0,
{
    SegQueue::new()
}

/// `SegQueue::push`: the item goes to the back of the queue, behind
/// everything that is in it.
#[verifier::external_body]
pub(crate) fn push_poll(q: &mut SegQueue<ValidPollWFTQResponse>, item: ValidPollWFTQResponse)
    ensures
        queued_polls(*final(q)) == queued_polls(*old(q)).push(item),
{
    q.push(item)
}

/// `SegQueue::pop`: takes the item at the front of the queue, the one that
/// has been in it longest; an empty queue gives nothing and stays empty.
#[verifier::external_body]
pub(crate) fn pop_poll(q: &mut SegQueue<ValidPollWFTQResponse>) -> (r: Option<
    ValidPollWFTQResponse,
>)
    ensures
        queued_polls(*old(q)).len() == 0 ==> r is None && queued_polls(*final(q)) == queued_polls(
            *old(q),
        ),
        queued_polls(*old(q)).len() > 0 ==> r == Some(queued_polls(*old(q))[0]) && queued_polls(
            *final(q),
        ) == queued_polls(*old(q)).drop_first(),
{
    q.pop()
}

} // verus!
