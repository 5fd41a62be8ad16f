//! The pool: it owns the channel's send side and the workers, accepts
//! units of work, and orchestrates the two-phase graceful shutdown.
//!
//! Shutdown first enqueues exactly one stop signal per worker — behind
//! everything already submitted, since the channel is FIFO — and then
//! joins every worker, each at most once. The laws at the bottom state
//! the consequences: pending work is drained before any worker stops,
//! a single worker runs work in submission order, and shutdown is
//! idempotent on worker state.

use vstd::prelude::*;

use crate::channel::Channel;
use crate::message::Message;
use crate::pool_error::PoolError;
use crate::worker::Worker;
use crate::worker::executed_jobs;

verus! {

/// The queue contents that shutdown appends: `n` stop signals.
pub open spec fn stop_signals(n: nat) -> Seq<Message> {
    Seq::new(n, |i: int| Message::Terminate)
}

/// Worker bookkeeping after every worker has been joined: each handle
/// given up, ordinals kept.
pub open spec fn all_joined(ws: Seq<Worker>) -> Seq<Worker> {
    ws.map_values(|w: Worker| Worker { id: w.id, handle_present: false })
}

/// Whether a queue fragment consists of work messages only.
pub open spec fn all_jobs(q: Seq<Message>) -> bool {
    forall|k: int| 0 <= k < q.len() ==> (#[trigger] q[k]) is NewJob
}

/// The submission ordinals of a fragment of work messages, in order.
pub open spec fn job_ids(jobs: Seq<Message>) -> Seq<usize> {
    jobs.map_values(|m: Message| m.job_id())
}

/// The pool: the channel (its send side is the pool's; the receive side
/// is shared by the workers), the worker bookkeeping, and the count of
/// work submitted so far, which is the next submission ordinal.
pub struct PoolState {
    pub channel: Channel,
    pub workers: Vec<Worker>,
    pub submitted: usize,
}

impl PoolState {
    /// Create a pool with `size` workers. A size of zero is a
    /// configuration error, refused before any worker exists; any
    /// positive size yields a pool of exactly that many workers, all
    /// running, with an empty queue and an attached receive side.
    pub fn new(size: usize) -> (r: Result<PoolState, PoolError>)
        ensures
            size == 0 <==> (r matches Err(e) && e == PoolError::ZeroSize),
            size > 0 ==> (r matches Ok(p) && {
                &&& p.workers@.len() == size
                &&& forall|i: int|
                    0 <= i < size ==> (#[trigger] p.workers@[i]) == (Worker {
                        id: i as usize,
                        handle_present: true,
                    })
                &&& p.channel.queue@ == Seq::<Message>::empty()
                &&& p.channel.receiver_attached
                &&& p.submitted == 0
            }),
    {
        if size == 0 {
            return Err(PoolError::ZeroSize);
        }
        let channel = Channel::new();
        let mut workers: Vec<Worker> = Vec::new();
        let mut id: usize = 0;
        while id < size
            invariant
                id <= size,
                workers@.len() == id,
                forall|i: int|
                    0 <= i < id ==> (#[trigger] workers@[i]) == (Worker {
                        id: i as usize,
                        handle_present: true,
                    }),
            decreases size - id,
        {
            workers.push(Worker { id, handle_present: true });
            id = id + 1;
        }
        Ok(PoolState { channel, workers, submitted: 0 })
    }

    /// Submit one unit of work: it gets the next ordinal and is enqueued
    /// behind everything sent earlier. Never blocks on worker
    /// availability (the queue is unbounded). Fails, leaving the pool
    /// unchanged, exactly when the receive side is gone — submission
    /// after shutdown.
    pub fn submit(&mut self) -> (r: Result<usize, PoolError>)
        requires
            old(self).submitted < usize::MAX,
        ensures
            final(self).workers@ == old(self).workers@,
            final(self).channel.receiver_attached == old(self).channel.receiver_attached,
            old(self).channel.receiver_attached ==> {
                &&& r == Ok::<usize, PoolError>(old(self).submitted)
                &&& final(self).channel.queue@ == old(self).channel.queue@.push(
                    Message::NewJob(old(self).submitted),
                )
                &&& final(self).submitted == old(self).submitted + 1
            },
            !old(self).channel.receiver_attached ==> {
                &&& r == Err::<usize, PoolError>(PoolError::Disconnected)
                &&& final(self).channel.queue@ == old(self).channel.queue@
                &&& final(self).submitted == old(self).submitted
            },
    {
        let id = self.submitted;
        match self.channel.send(Message::NewJob(id)) {
            Ok(()) => {
                self.submitted = id + 1;
                Ok(id)
            },
            Err(e) => Err(e),
        }
    }

    /// First phase of shutdown: enqueue exactly one stop signal per
    /// worker. The channel is FIFO, so every signal lands behind every
    /// unit of work submitted before this call. Does nothing if the
    /// receive side is already gone.
    pub fn begin_shutdown(&mut self)
        ensures
            final(self).workers@ == old(self).workers@,
            final(self).submitted == old(self).submitted,
            final(self).channel.receiver_attached == old(self).channel.receiver_attached,
            old(self).channel.receiver_attached ==> final(self).channel.queue@ == old(
                self,
            ).channel.queue@ + stop_signals(old(self).workers@.len() as nat),
            !old(self).channel.receiver_attached ==> final(self).channel.queue@ == old(
                self,
            ).channel.queue@,
    {
        if !self.channel.receiver_attached {
            return ;
        }
        let n = self.workers.len();
        let ghost q0 = self.channel.queue@;
        let mut i: usize = 0;
        while i < n
            invariant
                i <= n,
                q0 == old(self).channel.queue@,
                self.workers@ == old(self).workers@,
                self.submitted == old(self).submitted,
                self.channel.receiver_attached,
                self.channel.queue@ == q0 + stop_signals(i as nat),
            decreases n - i,
        {
            let ghost prev = self.channel.queue@;
            let _sent = self.channel.send(Message::Terminate);
            i = i + 1;
            proof {
                assert(prev.push(Message::Terminate) =~= q0 + stop_signals(i as nat));
            }
        }
    }

    /// Join one worker: the first join takes the handle (and, outside
    /// the model, waits for the thread to finish); a later join finds no
    /// handle and does nothing, so no thread is ever joined twice.
    /// Returns whether this call took the handle.
    pub fn join_worker(&mut self, i: usize) -> (joined_now: bool)
        requires
            i < old(self).workers@.len(),
        ensures
            final(self).channel == old(self).channel,
            final(self).submitted == old(self).submitted,
            final(self).workers@.len() == old(self).workers@.len(),
            final(self).workers@[i as int] == (Worker {
                id: old(self).workers@[i as int].id,
                handle_present: false,
            }),
            forall|j: int|
                0 <= j < old(self).workers@.len() && j != i ==> final(self).workers@[j] == old(
                    self,
                ).workers@[j],
            joined_now == old(self).workers@[i as int].handle_present,
    {
        let w = self.workers[i];
        if w.handle_present {
            self.workers.set(i, Worker { id: w.id, handle_present: false });
            true
        } else {
            false
        }
    }

    /// The whole shutdown protocol: enqueue one stop signal per worker,
    /// join every worker in index order (each at most once), and give up
    /// the receive side, after which every submission is refused. After
    /// it returns, no worker handle is held — every worker has ended.
    /// Calling it again changes nothing (see
    /// [`lemma_shutdown_idempotent`]).
    pub fn shutdown(&mut self)
        ensures
            final(self).submitted == old(self).submitted,
            final(self).workers@ == all_joined(old(self).workers@),
            !final(self).channel.receiver_attached,
            old(self).channel.receiver_attached ==> final(self).channel.queue@ == old(
                self,
            ).channel.queue@ + stop_signals(old(self).workers@.len() as nat),
            !old(self).channel.receiver_attached ==> final(self).channel.queue@ == old(
                self,
            ).channel.queue@,
    {
        self.begin_shutdown();
        let ghost ch1 = self.channel;
        let n = self.workers.len();
        let mut i: usize = 0;
        while i < n
            invariant
                i <= n,
                n == self.workers@.len(),
                self.channel == ch1,
                self.submitted == old(self).submitted,
                self.workers@.len() == old(self).workers@.len(),
                forall|j: int|
                    0 <= j < i ==> (#[trigger] self.workers@[j]) == (Worker {
                        id: old(self).workers@[j].id,
                        handle_present: false,
                    }),
                forall|j: int|
                    i <= j < n ==> (#[trigger] self.workers@[j]) == old(self).workers@[j],
            decreases n - i,
        {
            let _joined = self.join_worker(i);
            i = i + 1;
        }
        proof {
            assert(self.workers@ =~= all_joined(old(self).workers@));
        }
        self.channel.close_receiver();
    }
}

/// Law: on the queue as shutdown leaves it — the work submitted before
/// shutdown, followed by the stop signals — every work message stands
/// strictly before every stop signal. With FIFO delivery this is why
/// every unit of work submitted before shutdown is delivered to some
/// worker before any worker can observe a stop signal.
pub proof fn lemma_jobs_precede_stop_signals(jobs: Seq<Message>, n: nat, i: int, j: int)
    requires
        all_jobs(jobs),
        0 <= i < jobs.len() + n,
        0 <= j < jobs.len() + n,
        (jobs + stop_signals(n))[i] is NewJob,
        (jobs + stop_signals(n))[j] is Terminate,
    ensures
        i < j,
{
    let q = jobs + stop_signals(n);
    if i >= jobs.len() {
        assert(q[i] == stop_signals(n)[i - jobs.len()]);
        assert(q[i] is Terminate);
    }
    if j < jobs.len() {
        assert(q[j] == jobs[j]);
        assert(q[j] is NewJob);
    }
}

/// Law: a consumer that drains a queue of work messages followed by
/// anything that opens with a stop signal runs exactly the submitted
/// units of work — each exactly once, in submission order — before it
/// acts on the stop signal.
pub proof fn lemma_drain_runs_all_jobs(jobs: Seq<Message>, rest: Seq<Message>)
    requires
        all_jobs(jobs),
        rest.len() > 0 ==> rest[0] is Terminate,
    ensures
        executed_jobs(jobs + rest) == job_ids(jobs),
    decreases jobs.len(),
{
    if jobs.len() == 0 {
        assert(jobs + rest =~= rest);
        assert(executed_jobs(rest) =~= Seq::<usize>::empty());
        assert(job_ids(jobs) =~= Seq::<usize>::empty());
    } else {
        let tail = jobs.drop_first();
        assert((jobs + rest)[0] == jobs[0]);
        assert((jobs + rest).drop_first() =~= tail + rest);
        lemma_drain_runs_all_jobs(tail, rest);
        assert(executed_jobs(jobs + rest) =~= seq![jobs[0].job_id()] + executed_jobs(tail + rest));
        assert(job_ids(jobs) =~= seq![jobs[0].job_id()] + job_ids(tail));
    }
}

/// Law (shutdown drains pending work): with the queue exactly as
/// shutdown leaves it, the work executed before any stop signal is
/// observed is all of the submitted work, each unit exactly once, in
/// submission order.
pub proof fn lemma_shutdown_drains(jobs: Seq<Message>, n: nat)
    requires
        all_jobs(jobs),
    ensures
        executed_jobs(jobs + stop_signals(n)) == job_ids(jobs),
{
    if n > 0 {
        assert(stop_signals(n)[0] is Terminate);
    }
    lemma_drain_runs_all_jobs(jobs, stop_signals(n));
}

/// The queue a pool builds from `k` submissions in a row: work messages
/// carrying the consecutive ordinals `0, 1, ..., k - 1`.
pub open spec fn consecutive_jobs(k: nat) -> Seq<Message> {
    Seq::new(k, |i: int| Message::NewJob(i as usize))
}

/// Law (every item exactly once): after `k` submissions and shutdown,
/// the executed sequence has length exactly `k` and the unit of work
/// with ordinal `i` stands at position `i` — every submitted unit runs
/// exactly once, none is lost to a stop signal and none runs twice.
pub proof fn lemma_every_item_exactly_once(k: nat, n: nat)
    requires
        k <= usize::MAX,
    ensures
        ({
            let executed = executed_jobs(consecutive_jobs(k) + stop_signals(n));
            &&& executed.len() == k
            &&& forall|i: int| 0 <= i < k ==> #[trigger] executed[i] == i as usize
        }),
{
    lemma_shutdown_drains(consecutive_jobs(k), n);
}

/// Law (strict serialization for a single worker): one worker runs the
/// whole queue alone and runs each unit of work to completion before
/// dequeuing the next, so the run order is the submission order: of two
/// units submitted in order, the earlier finishes before the later
/// starts. Their positions in the executed sequence are their
/// submission positions.
pub proof fn lemma_single_worker_serializes(jobs: Seq<Message>, n: nat, a: int, b: int)
    requires
        all_jobs(jobs),
        0 <= a < b < jobs.len(),
    ensures
        ({
            let executed = executed_jobs(jobs + stop_signals(n));
            &&& executed.len() == jobs.len()
            &&& executed[a] == jobs[a].job_id()
            &&& executed[b] == jobs[b].job_id()
        }),
{
    lemma_shutdown_drains(jobs, n);
}

/// Law (shutdown is idempotent on worker state): joining every worker a
/// second time changes nothing — every handle is already given up, and
/// ordinals are kept.
pub proof fn lemma_shutdown_idempotent(ws: Seq<Worker>)
    ensures
        all_joined(all_joined(ws)) == all_joined(ws),
{
    assert(all_joined(all_joined(ws)) =~= all_joined(ws));
}

} // verus!
