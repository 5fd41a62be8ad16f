//! The worker: a consumer that repeatedly pulls the next message off the
//! queue channel and either runs the unit of work it carries or stops.
//!
//! Dequeueing is serialized across workers (at most one holds the receive
//! guard at a time), so the messages a worker sees come off the queue in
//! global send order. The functions here verify the worker's decision
//! logic and its loop over the channel model; the thread that hosts the
//! loop, and the invocation of the opaque work item itself, live outside
//! the library.

use vstd::prelude::*;

use crate::channel::Channel;
use crate::message::Message;

verus! {

/// One worker as the pool's bookkeeping sees it: its ordinal, and whether
/// the handle to its thread is still held. The handle is given up exactly
/// when the worker is joined, so each thread is joined at most once.
#[derive(Clone, Copy, Debug, PartialEq, Eq, Structural)]
pub struct Worker {
    pub id: usize,
    pub handle_present: bool,
}

/// A worker's phase: waiting to dequeue, running a unit of work, or
/// stopped for good.
#[derive(Clone, Copy, Debug, PartialEq, Eq, Structural)]
pub enum WorkerPhase {
    Waiting,
    Executing,
    Stopped,
}

/// What a worker does with a dequeued message: run the work with the
/// given submission ordinal, or stop.
#[derive(Clone, Copy, Debug, PartialEq, Eq, Structural)]
pub enum WorkerAction {
    Run(usize),
    Stop,
}

/// The action a message calls for.
pub open spec fn action_of(m: Message) -> WorkerAction {
    match m {
        Message::NewJob(id) => WorkerAction::Run(id),
        Message::Terminate => WorkerAction::Stop,
    }
}

/// Decide what a waiting worker does with the message it pulled: work
/// messages are run, the stop signal stops the worker. Nothing else.
pub fn worker_step(m: Message) -> (a: WorkerAction)
    ensures
        a == action_of(m),
{
    match m {
        Message::NewJob(id) => WorkerAction::Run(id),
        Message::Terminate => WorkerAction::Stop,
    }
}

/// A waiting worker observes a message: work moves it to `Executing`,
/// the stop signal to `Stopped`. No other transition leaves `Waiting`.
pub fn observe_message(phase: WorkerPhase, m: Message) -> (next: WorkerPhase)
    requires
        phase is Waiting,
    ensures
        m is NewJob ==> next is Executing,
        m is Terminate ==> next is Stopped,
{
    match m {
        Message::NewJob(_) => WorkerPhase::Executing,
        Message::Terminate => WorkerPhase::Stopped,
    }
}

/// An executing worker finishes its unit of work and waits again. This
/// is the only transition out of `Executing`: a worker never stops in
/// the middle of a unit of work.
pub fn finish_job(phase: WorkerPhase) -> (next: WorkerPhase)
    requires
        phase is Executing,
    ensures
        next is Waiting,
{
    WorkerPhase::Waiting
}

/// The submission ordinals a single consumer runs, given the queue it
/// drains: the work messages before the first stop signal, in queue
/// order, each exactly once.
pub open spec fn executed_jobs(q: Seq<Message>) -> Seq<usize>
    decreases q.len(),
{
    if q.len() == 0 {
        Seq::empty()
    } else if q[0] is Terminate {
        Seq::empty()
    } else {
        seq![q[0].job_id()] + executed_jobs(q.drop_first())
    }
}

/// What is left on the queue once that consumer has stopped: everything
/// behind the first stop signal (nothing, if the queue ran dry first).
pub open spec fn rest_after_run(q: Seq<Message>) -> Seq<Message>
    decreases q.len(),
{
    if q.len() == 0 {
        Seq::empty()
    } else if q[0] is Terminate {
        q.drop_first()
    } else {
        rest_after_run(q.drop_first())
    }
}

/// One worker's whole life over the channel model: pull the next message,
/// run work messages to completion in dequeue order, stop at the first
/// stop signal (or when the queue runs dry, standing in for a blocked
/// wait). Returns the ordinals of the work it ran, in execution order.
pub fn run_worker(c: &mut Channel) -> (executed: Vec<usize>)
    ensures
        executed@ == executed_jobs(old(c).queue@),
        final(c).queue@ == rest_after_run(old(c).queue@),
        final(c).receiver_attached == old(c).receiver_attached,
{
    let ghost q0 = c.queue@;
    let mut executed: Vec<usize> = Vec::new();
    let mut phase = WorkerPhase::Waiting;
    loop
        invariant
            q0 == old(c).queue@,
            phase is Waiting,
            executed@ + executed_jobs(c.queue@) == executed_jobs(q0),
            rest_after_run(c.queue@) == rest_after_run(q0),
            c.receiver_attached == old(c).receiver_attached,
        decreases c.queue@.len(),
    {
        let ghost prev_q = c.queue@;
        let ghost prev_ex = executed@;
        let next = c.recv();
        match next {
            None => {
                proof {
                    assert(prev_ex + executed_jobs(prev_q) =~= prev_ex);
                }
                return executed;
            },
            Some(m) => {
                phase = observe_message(phase, m);
                match worker_step(m) {
                    WorkerAction::Run(id) => {
                        executed.push(id);
                        proof {
                            assert(executed@ =~= prev_ex + seq![id]);
                            assert(executed_jobs(prev_q) =~= seq![id] + executed_jobs(
                                c.queue@,
                            ));
                            assert(executed@ + executed_jobs(c.queue@) =~= prev_ex
                                + executed_jobs(prev_q));
                        }
                        phase = finish_job(phase);
                    },
                    WorkerAction::Stop => {
                        proof {
                            assert(prev_ex + executed_jobs(prev_q) =~= prev_ex);
                        }
                        return executed;
                    },
                }
            },
        }
    }
}

} // verus!
