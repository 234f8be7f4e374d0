//! The per-connection dispatcher: a bounded FIFO submission queue, the one
//! operation that runs at a time, and the in-flight count.

use vstd::prelude::*;
use std::collections::VecDeque;
use crate::bind::Query;
use crate::policy::{handle_result, step_of, Step};

verus! {

/// The capacity of a connection's submission queue.
pub const QUEUE_CAPACITY: usize = 100;

/// An operation submitted to a connection. `owner` is the requester's
/// address; `session` correlates the reply, and `0` marks an unattended
/// operation that no one waits for.
#[derive(Debug)]
pub enum Operation {
    Query(u32, i64, Query),
    /// A statement that returns an affected-row count rather than rows.
    Execute(u32, i64, Query),
    Transaction(u32, i64, Vec<Query>),
    Close,
}

/// Whether an operation is work that the in-flight count tracks.
pub open spec fn is_work(op: Operation) -> bool {
    !(op is Close)
}

/// How many operations of `q` are work.
pub open spec fn pending_work(q: Seq<Operation>) -> nat
    decreases q.len(),
{
    if q.len() == 0 {
        0
    } else {
        pending_work(q.drop_last()) + if is_work(q.last()) { 1nat } else { 0nat }
    }
}

/// The operation that the actor is executing.
#[derive(Debug, Clone, Copy, PartialEq, Eq, Structural)]
pub struct Running {
    pub owner: u32,
    pub session: i64,
    /// The failures of this operation so far.
    pub failed_times: u64,
}

/// Why a submission was refused. Neither error enqueues the operation.
#[derive(Debug, Clone, Copy, PartialEq, Eq, Structural)]
pub enum SubmitError {
    /// The queue already holds `QUEUE_CAPACITY` operations.
    Full,
    /// The actor has stopped serving the queue.
    Closed,
}

/// What the actor is to do next.
#[derive(Debug)]
pub enum Next {
    /// Execute this operation.
    Run(Operation),
    /// An operation is running: nothing else starts before it completes.
    Busy,
    /// The queue is empty.
    Idle,
    /// The actor has stopped.
    Stopped,
}

/// The mathematical state of a connection. `submitted` and `completed`
/// count the work accepted and brought to a terminal outcome.
pub struct ConnectionModel {
    pub queue: Seq<Operation>,
    pub running: Option<Running>,
    pub in_flight: int,
    pub terminated: bool,
    pub submitted: nat,
    pub completed: nat,
}

/// A connection's dispatch state, shared by its submitters and its actor.
pub struct Connection {
    queue: VecDeque<Operation>,
    running: Option<Running>,
    in_flight: i64,
    terminated: bool,
    submitted: Ghost<nat>,
    completed: Ghost<nat>,
}

impl View for Connection {
    type V = ConnectionModel;

    closed spec fn view(&self) -> ConnectionModel {
        ConnectionModel {
            queue: self.queue@,
            running: self.running,
            in_flight: self.in_flight as int,
            terminated: self.terminated,
            submitted: self.submitted@,
            completed: self.completed@,
        }
    }
}

/// The invariant of a connection: the queue is within its capacity, and the
/// in-flight count is the work submitted and not yet completed, which is the
/// work in the queue and the running operation.
pub open spec fn model_wf(m: ConnectionModel) -> bool {
    &&& m.queue.len() <= QUEUE_CAPACITY
    &&& m.in_flight == m.submitted - m.completed
    &&& m.in_flight == pending_work(m.queue) + if m.running is Some { 1int } else { 0int }
}

/// The outcome of a submission.
pub open spec fn submit_outcome(m: ConnectionModel) -> Result<(), SubmitError> {
    if m.terminated {
        Err(SubmitError::Closed)
    } else if m.queue.len() >= QUEUE_CAPACITY {
        Err(SubmitError::Full)
    } else {
        Ok(())
    }
}

/// The state after a submission of `op`: an accepted operation joins the
/// back of the queue, and work adds one to the in-flight count.
pub open spec fn after_submit(m: ConnectionModel, op: Operation) -> ConnectionModel {
    if submit_outcome(m) is Ok {
        let w: nat = if is_work(op) { 1 } else { 0 };
        ConnectionModel {
            queue: m.queue.push(op),
            running: m.running,
            in_flight: m.in_flight + w,
            terminated: m.terminated,
            submitted: m.submitted + w,
            completed: m.completed,
        }
    } else {
        m
    }
}

/// What the actor is told to do next: nothing while stopped or while an
/// operation runs, else the front of the queue.
pub open spec fn next_outcome(m: ConnectionModel) -> Next {
    if m.terminated {
        Next::Stopped
    } else if m.running is Some {
        Next::Busy
    } else if m.queue.len() == 0 {
        Next::Idle
    } else if m.queue[0] is Close {
        Next::Stopped
    } else {
        Next::Run(m.queue[0])
    }
}

/// The header of an operation that starts running.
pub open spec fn running_of(op: Operation) -> Running {
    match op {
        Operation::Query(owner, session, _) => Running { owner, session, failed_times: 0 },
        Operation::Execute(owner, session, _) => Running { owner, session, failed_times: 0 },
        Operation::Transaction(owner, session, _) => Running { owner, session, failed_times: 0 },
        Operation::Close => Running { owner: 0, session: 0, failed_times: 0 },
    }
}

/// The state after the actor asks for its next operation: the front of the
/// queue leaves it; a `Close` stops the actor, other work starts running.
pub open spec fn after_next(m: ConnectionModel) -> ConnectionModel {
    if m.terminated || m.running is Some || m.queue.len() == 0 {
        m
    } else {
        ConnectionModel {
            queue: m.queue.subrange(1, m.queue.len() as int),
            running: if m.queue[0] is Close { None } else { Some(running_of(m.queue[0])) },
            in_flight: m.in_flight,
            terminated: m.queue[0] is Close,
            submitted: m.submitted,
            completed: m.completed,
        }
    }
}

/// The decision after an attempt at the running operation, if one runs.
pub open spec fn outcome_step(m: ConnectionModel, succeeded: bool) -> Option<Step> {
    match m.running {
        Some(run) => Some(step_of(run.failed_times, run.session, succeeded)),
        None => None,
    }
}

/// The state after an attempt at the running operation: a terminal outcome
/// ends it and drops the in-flight count; a retry keeps it running with one
/// more failure counted.
pub open spec fn after_outcome(m: ConnectionModel, succeeded: bool) -> ConnectionModel {
    match m.running {
        Some(run) => {
            let st = step_of(run.failed_times, run.session, succeeded);
            if st.completed {
                ConnectionModel {
                    queue: m.queue,
                    running: None,
                    in_flight: m.in_flight - 1,
                    terminated: m.terminated,
                    submitted: m.submitted,
                    completed: m.completed + 1,
                }
            } else {
                ConnectionModel {
                    queue: m.queue,
                    running: Some(Running { owner: run.owner, session: run.session, failed_times: st.failed_times }),
                    in_flight: m.in_flight,
                    terminated: m.terminated,
                    submitted: m.submitted,
                    completed: m.completed,
                }
            }
        },
        None => m,
    }
}

proof fn lemma_pending_work_front(q: Seq<Operation>)
    requires
        q.len() > 0,
    ensures
        pending_work(q) == pending_work(q.subrange(1, q.len() as int)) + if is_work(q[0]) { 1nat } else { 0nat },
    decreases q.len(),
{
    if q.len() == 1 {
        assert(q.drop_last() =~= Seq::<Operation>::empty());
        assert(q.subrange(1, q.len() as int) =~= Seq::<Operation>::empty());
    } else {
        let r = q.drop_last();
        lemma_pending_work_front(r);
        assert(r.subrange(1, r.len() as int) =~= q.subrange(1, q.len() as int).drop_last());
        assert(q.subrange(1, q.len() as int).last() == q.last());
    }
}

proof fn lemma_pending_work_bound(q: Seq<Operation>)
    ensures
        pending_work(q) <= q.len(),
    decreases q.len(),
{
    if q.len() > 0 {
        lemma_pending_work_bound(q.drop_last());
    }
}

impl Connection {
    /// The invariant of this connection.
    pub open spec fn wf(&self) -> bool {
        model_wf(self@)
    }

    /// A connection with an empty queue and nothing in flight.
    pub fn new() -> (r: Connection)
        ensures
            r.wf(),
            r@.queue.len() == 0,
            r@.running is None,
            r@.in_flight == 0,
            !r@.terminated,
            r@.submitted == 0,
            r@.completed == 0,
    {
        Connection {
            queue: VecDeque::new(),
            running: None,
            in_flight: 0,
            terminated: false,
            submitted: Ghost(0),
            completed: Ghost(0),
        }
    }

    /// Submits `op` without blocking. It is refused with `Closed` once the
    /// actor has stopped, and with `Full` when the queue already holds
    /// `QUEUE_CAPACITY` operations; else it joins the back of the queue and,
    /// unless it is a `Close`, adds one to the in-flight count.
    pub fn submit(&mut self, op: Operation) -> (r: Result<(), SubmitError>)
        requires
            old(self).wf(),
        ensures
            final(self).wf(),
            r == submit_outcome(old(self)@),
            final(self)@ == after_submit(old(self)@, op),
    {
        if self.terminated {
            return Err(SubmitError::Closed);
        }
        if self.queue.len() >= QUEUE_CAPACITY {
            return Err(SubmitError::Full);
        }
        proof {
            lemma_pending_work_bound(self.queue@);
            assert(self.queue@.push(op).drop_last() =~= self.queue@);
        }
        let work = match &op {
            Operation::Close => false,
            _ => true,
        };
        self.queue.push_back(op);
        if work {
            self.in_flight = self.in_flight + 1;
            self.submitted = Ghost(self.submitted@ + 1);
        }
        Ok(())
    }

    /// Hands the actor its next operation: the front of the queue, unless
    /// the actor has stopped, an operation is running, or the queue is
    /// empty. A `Close` at the front stops the actor and leaves the rest of
    /// the queue unserved.
    pub fn next(&mut self) -> (r: Next)
        requires
            old(self).wf(),
        ensures
            final(self).wf(),
            r == next_outcome(old(self)@),
            final(self)@ == after_next(old(self)@),
    {
        if self.terminated {
            return Next::Stopped;
        }
        if self.running.is_some() {
            return Next::Busy;
        }
        proof {
            if self.queue@.len() > 0 {
                lemma_pending_work_front(self.queue@);
            }
        }
        match self.queue.pop_front() {
            None => Next::Idle,
            Some(op) => {
                match op {
                    Operation::Close => {
                        self.terminated = true;
                        Next::Stopped
                    },
                    Operation::Query(owner, session, q) => {
                        self.running = Some(Running { owner, session, failed_times: 0 });
                        Next::Run(Operation::Query(owner, session, q))
                    },
                    Operation::Execute(owner, session, q) => {
                        self.running = Some(Running { owner, session, failed_times: 0 });
                        Next::Run(Operation::Execute(owner, session, q))
                    },
                    Operation::Transaction(owner, session, qs) => {
                        self.running = Some(Running { owner, session, failed_times: 0 });
                        Next::Run(Operation::Transaction(owner, session, qs))
                    },
                }
            },
        }
    }

    /// Records whether the attempt at the running operation succeeded, and
    /// returns the decision of the result-handling policy; `None` when no
    /// operation runs.
    pub fn record_outcome(&mut self, succeeded: bool) -> (r: Option<Step>)
        requires
            old(self).wf(),
        ensures
            final(self).wf(),
            r == outcome_step(old(self)@, succeeded),
            final(self)@ == after_outcome(old(self)@, succeeded),
    {
        match self.running {
            None => None,
            Some(run) => {
                let st = handle_result(run.failed_times, run.session, succeeded);
                if st.completed {
                    self.running = None;
                    self.in_flight = self.in_flight - 1;
                    self.completed = Ghost(self.completed@ + 1);
                } else {
                    self.running = Some(Running { owner: run.owner, session: run.session, failed_times: st.failed_times });
                }
                Some(st)
            },
        }
    }

    /// The work submitted and not yet completed.
    pub fn in_flight(&self) -> (r: i64)
        ensures
            r == self@.in_flight,
    {
        self.in_flight
    }

    /// How many operations wait in the queue.
    pub fn queued(&self) -> (r: usize)
        ensures
            r == self@.queue.len(),
    {
        self.queue.len()
    }

    /// Whether the actor has stopped serving the queue.
    pub fn is_terminated(&self) -> (r: bool)
        ensures
            r == self@.terminated,
    {
        self.terminated
    }

    /// The operation that is running, if any.
    pub fn running(&self) -> (r: Option<Running>)
        ensures
            r == self@.running,
    {
        self.running
    }
}

/// Operations join the queue in the order they are submitted: after `o1`
/// and then `o2` are both accepted, the queue ends with `o1` followed by
/// `o2`.
pub proof fn submissions_keep_order(m: ConnectionModel, o1: Operation, o2: Operation)
    requires
        model_wf(m),
        submit_outcome(m) is Ok,
        submit_outcome(after_submit(m, o1)) is Ok,
    ensures
        after_submit(after_submit(m, o1), o2).queue == m.queue + seq![o1, o2],
{
    assert(after_submit(after_submit(m, o1), o2).queue =~= m.queue + seq![o1, o2]);
}

/// An idle actor starts the oldest queued operation and no other: the front
/// of the queue, which then leaves it.
pub proof fn next_takes_oldest(m: ConnectionModel)
    requires
        model_wf(m),
        !m.terminated,
        m.running is None,
        m.queue.len() > 0,
        !(m.queue[0] is Close),
    ensures
        next_outcome(m) == Next::Run(m.queue[0]),
        after_next(m).queue == m.queue.subrange(1, m.queue.len() as int),
        after_next(m).running == Some(running_of(m.queue[0])),
{
}

/// Operations of one connection never overlap: while one runs, the actor is
/// told it is busy and nothing changes, until an attempt ends the running
/// operation with a terminal outcome.
pub proof fn one_operation_at_a_time(m: ConnectionModel, succeeded: bool)
    requires
        model_wf(m),
        m.running is Some,
    ensures
        !m.terminated ==> next_outcome(m) is Busy,
        after_next(m) == m,
        (after_outcome(m, succeeded).running is None) == outcome_step(m, succeeded).unwrap().completed,
{
}

/// A failed unattended operation (`session == 0`) stays running, with the
/// same owner and session, to be retried; a failed attended operation is
/// never retried; a success is never retried.
pub proof fn retry_only_unattended_failures(m: ConnectionModel, succeeded: bool)
    requires
        model_wf(m),
        m.running is Some,
    ensures
        outcome_step(m, succeeded).unwrap().retry == (!succeeded && m.running.unwrap().session == 0),
        outcome_step(m, succeeded).unwrap().retry ==> {
            &&& after_outcome(m, succeeded).running is Some
            &&& after_outcome(m, succeeded).running.unwrap().owner == m.running.unwrap().owner
            &&& after_outcome(m, succeeded).running.unwrap().session == m.running.unwrap().session
            &&& after_outcome(m, succeeded).queue == m.queue
            &&& after_outcome(m, succeeded).in_flight == m.in_flight
        },
        !outcome_step(m, succeeded).unwrap().retry ==> {
            &&& after_outcome(m, succeeded).running is None
            &&& after_outcome(m, succeeded).in_flight == m.in_flight - 1
        },
{
}

/// Every step keeps the in-flight count equal to the work submitted less
/// the work completed, and never negative.
pub proof fn in_flight_accounting(m: ConnectionModel, op: Operation, succeeded: bool)
    requires
        model_wf(m),
    ensures
        m.in_flight == m.submitted - m.completed,
        m.in_flight >= 0,
        model_wf(after_submit(m, op)),
        model_wf(after_next(m)),
        model_wf(after_outcome(m, succeeded)),
{
    if submit_outcome(m) is Ok {
        assert(m.queue.push(op).drop_last() =~= m.queue);
    }
    if !(m.terminated || m.running is Some || m.queue.len() == 0) {
        lemma_pending_work_front(m.queue);
    }
}

/// A submission to a connection whose queue is full is refused at once,
/// and leaves the connection as it was.
pub proof fn full_queue_refuses(m: ConnectionModel, op: Operation)
    requires
        model_wf(m),
        !m.terminated,
        m.queue.len() == QUEUE_CAPACITY,
    ensures
        submit_outcome(m) == Err::<(), SubmitError>(SubmitError::Full),
        after_submit(m, op) == m,
{
}

/// Of two operations at the front of the queue, the second starts only
/// after the first has reached its terminal outcome: the first starts, the
/// actor is then busy, an attempt that does not end the first keeps it
/// busy, and one that ends it makes the second the next to start.
pub proof fn second_waits_for_first(m: ConnectionModel, succeeded: bool)
    requires
        model_wf(m),
        !m.terminated,
        m.running is None,
        m.queue.len() >= 2,
        !(m.queue[0] is Close),
        !(m.queue[1] is Close),
    ensures
        next_outcome(m) == Next::Run(m.queue[0]),
        next_outcome(after_next(m)) is Busy,
        outcome_step(after_next(m), succeeded).unwrap().completed ==> next_outcome(
            after_outcome(after_next(m), succeeded),
        ) == Next::Run(m.queue[1]),
        !outcome_step(after_next(m), succeeded).unwrap().completed ==> next_outcome(
            after_outcome(after_next(m), succeeded),
        ) is Busy,
{
    assert(after_next(m).queue[0] == m.queue[1]);
}

} // verus!
