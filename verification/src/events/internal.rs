//! The decisions of the internal event scheduler.
//!
//! The scheduler is one loop over the requests of the consensus core. For
//! each request it decides what is to be done on its behalf: a signature
//! check on a task of its own, a timer, an event that is sent at once, or a
//! rebuild of the node's API surface.
//! The loop, the tasks and the timers belong to the node's executor. What
//! is decided here is which task a request leads to and whether the loop
//! goes on.

use futures::sync::mpsc::{Receiver, Sender};
use vstd::prelude::*;
use crate::messages::Message;
use super::{Delay, InternalEvent, InternalRequest, TimeoutRequest, Timestamp};

verus! {

/// The two ends that the scheduler works between: requests come in, events
/// go out.
pub struct InternalPart {
    /// Where the events go.
    pub internal_tx: Sender<InternalEvent>,
    /// Where the requests come from.
    pub internal_requests_rx: Receiver<InternalRequest>,
}

/// What the loop starts on behalf of one request.
#[derive(Debug, PartialEq, Eq)]
pub enum Task {
    /// Check the signature of the raw message on a task of its own, apart
    /// from the loop, and report the message if it passes.
    VerifyMessage(Vec<u8>),
    /// Wait for the delay, then send the event.
    EmitAfter(Delay, InternalEvent),
    /// Send the event at once.
    Emit(InternalEvent),
    /// Rebuild the API surface of the node's services.
    RestartApi,
}

/// The answer to one request.
#[derive(Debug, PartialEq, Eq)]
pub struct Step {
    /// The task to start, if there is one.
    pub task: Option<Task>,
    /// Whether the loop ends with this request.
    pub terminate: bool,
}

/// One turn of the loop: whether the receiver of the events was gone when
/// the request was taken up, the request, and the time at that moment.
pub struct Turn {
    pub output_closed: bool,
    pub request: InternalRequest,
    pub now: Timestamp,
}

impl InternalPart {
    /// The answer to `request`, taken up at the time `now`.
    ///
    /// When the receiver of the events is gone, nothing is started and the
    /// loop ends: what would be sent could not be seen. Otherwise a raw
    /// message is checked on a task of its own; a timeout fires after the
    /// time that is left until its deadline, at once when the deadline has
    /// passed; a jump to a round and a shutdown are sent on as events at
    /// once; a request to rebuild the API surface is carried out by the node
    /// and leads to no event. A shutdown request ends the loop once it is
    /// sent on.
    pub open spec fn spec_decide(output_closed: bool, request: InternalRequest, now: Timestamp) -> Step {
        if output_closed {
            Step { task: None, terminate: true }
        } else {
            match request {
                InternalRequest::VerifyMessage(raw) => Step { task: Some(Task::VerifyMessage(raw)), terminate: false },
                InternalRequest::Timeout(TimeoutRequest(deadline, timeout)) => Step {
                    task: Some(Task::EmitAfter(deadline.spec_delay_from(now), InternalEvent::Timeout(timeout))),
                    terminate: false,
                },
                InternalRequest::JumpToRound(height, round) => Step {
                    task: Some(Task::Emit(InternalEvent::JumpToRound(height, round))),
                    terminate: false,
                },
                InternalRequest::Shutdown => Step { task: Some(Task::Emit(InternalEvent::Shutdown)), terminate: true },
                InternalRequest::RestartApi => Step { task: Some(Task::RestartApi), terminate: false },
            }
        }
    }

    /// Decides what one request leads to. `output_closed` says whether the
    /// receiver of the events was gone when the request was taken up.
    pub fn decide(output_closed: bool, request: InternalRequest, now: Timestamp) -> (step: Step)
        ensures
            step == Self::spec_decide(output_closed, request, now),
            output_closed ==> step.task is None && step.terminate,
            !output_closed ==> step.task is Some && (step.terminate <==> request is Shutdown),
            request matches InternalRequest::Timeout(TimeoutRequest(deadline, timeout)) ==> (!output_closed
                && deadline.0 <= now.0 ==> step.task == Some(
                Task::EmitAfter(Delay(0), InternalEvent::Timeout(timeout)),
            )),
    {
        if output_closed {
            return Step { task: None, terminate: true };
        }
        match request {
            InternalRequest::VerifyMessage(raw) => Step { task: Some(Task::VerifyMessage(raw)), terminate: false },
            InternalRequest::Timeout(TimeoutRequest(deadline, timeout)) => {
                let delay = deadline.delay_from(now);
                Step { task: Some(Task::EmitAfter(delay, InternalEvent::timeout(timeout))), terminate: false }
            },
            InternalRequest::JumpToRound(height, round) => Step {
                task: Some(Task::Emit(InternalEvent::jump_to_round(height, round))),
                terminate: false,
            },
            InternalRequest::Shutdown => Step { task: Some(Task::Emit(InternalEvent::shutdown())), terminate: true },
            InternalRequest::RestartApi => Step { task: Some(Task::RestartApi), terminate: false },
        }
    }

    /// Takes up one request: looks whether the receiver of the events is
    /// still there and decides what the request leads to.
    pub fn handle_request(internal_tx: &Sender<InternalEvent>, request: InternalRequest, now: Timestamp) -> (step:
        Step)
        ensures
            step == Self::spec_decide(true, request, now) || step == Self::spec_decide(false, request, now),
    {
        let output_closed = internal_tx.is_closed();
        Self::decide(output_closed, request, now)
    }

    /// What is reported of a raw message once its signature was checked:
    /// the message if it passed, and nothing at all if it did not.
    pub fn verify_message(checked: Option<Message>) -> (event: Option<InternalEvent>)
        ensures
            event == match checked {
                Some(message) => Some(InternalEvent::MessageVerified(message)),
                None => None::<InternalEvent>,
            },
    {
        match checked {
            Some(message) => Some(InternalEvent::message_verified(message)),
            None => None,
        }
    }

    /// Whether the loop goes on after a step that said `terminate` and whose
    /// task, if it had one, was handed to the executor. A task that the
    /// executor did not take is lost, and the loop goes on as if it had been
    /// taken.
    pub fn goes_on(terminate: bool, task_accepted: bool) -> (running: bool)
        ensures
            running == !terminate,
    {
        !terminate
    }

    /// The tasks that the loop starts when it runs through `turns`, in the
    /// order in which it starts them.
    pub open spec fn tasks_of(turns: Seq<Turn>) -> Seq<Task>
        decreases turns.len(),
    {
        if turns.len() == 0 {
            Seq::<Task>::empty()
        } else {
            let step = Self::spec_decide(turns[0].output_closed, turns[0].request, turns[0].now);
            let started = match step.task {
                Some(task) => seq![task],
                None => Seq::<Task>::empty(),
            };
            if step.terminate {
                started
            } else {
                started + Self::tasks_of(turns.drop_first())
            }
        }
    }

    /// Once the receiver of the events is gone, the loop starts nothing
    /// more, however many requests wait.
    pub proof fn lemma_closed_output_ends_the_loop(turns: Seq<Turn>)
        requires
            turns.len() > 0,
            turns[0].output_closed,
        ensures
            Self::tasks_of(turns) == Seq::<Task>::empty(),
    {
    }

    /// A request leads to one task at most, and the tasks come in the
    /// order of the requests: the loop starts no more tasks than it was
    /// given requests.
    pub proof fn lemma_one_task_per_request(turns: Seq<Turn>)
        ensures
            Self::tasks_of(turns).len() <= turns.len(),
        decreases turns.len(),
    {
        if turns.len() > 0 {
            Self::lemma_one_task_per_request(turns.drop_first());
        }
    }

    /// Nothing that comes behind a shutdown request is taken up.
    pub proof fn lemma_shutdown_ends_the_loop(turns: Seq<Turn>)
        requires
            turns.len() > 0,
            !turns[0].output_closed,
            turns[0].request is Shutdown,
        ensures
            Self::tasks_of(turns) == seq![Task::Emit(InternalEvent::Shutdown)],
    {
    }
}

} // verus!
