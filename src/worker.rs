//! The job queue and the decisions of its single worker.
//!
//! The worker's loop is driven from outside: after each job, and whenever it
//! wakes up, the driver asks [`JobManager::next_action`] what to do, performs
//! the action, and reports a finished job with [`JobManager::finish_job`].
use vstd::prelude::*;

verus! {

/// One unit of background work.
#[derive(Debug)]
pub enum Job {
    /// Download the media behind `url` and import it into the library.
    Download { url: String },
}

impl Job {
    /// The URL of a download job.
    pub open spec fn url_spec(&self) -> Seq<char> {
        match self {
            Job::Download { url } => url@,
        }
    }
}

impl PartialEq for Job {
    /// Jobs are equal when they are of the same kind with equal fields.
    fn eq(&self, other: &Job) -> (r: bool) {
        match (self, other) {
            (Job::Download { url: a }, Job::Download { url: b }) => String::eq(a, b),
        }
    }
}

impl vstd::std_specs::cmp::PartialEqSpecImpl for Job {
    open spec fn obeys_eq_spec() -> bool {
        true
    }

    open spec fn eq_spec(&self, other: &Job) -> bool {
        self.url_spec() == other.url_spec()
    }
}

impl Eq for Job {
}

/// What the worker does next.
#[derive(Debug)]
pub enum WorkerAction {
    /// Run this job to completion, then report it with `finish_job`.
    Start(Job),
    /// Wait until a job is pushed or shutdown is requested.
    Wait,
    /// A job is still running; wait for it to finish.
    Busy,
    /// Leave the loop: shutdown was requested and no job is running.
    Exit,
}

/// The queue of pending jobs, the ongoing flag and the shutdown flag.
pub struct JobManager {
    queue: Vec<Job>,
    ongoing_job: bool,
    shutdown: bool,
}

/// The jobs left after the worker takes jobs from `q` until none is left,
/// in the order it takes them.
pub open spec fn drained(q: Seq<Job>) -> Seq<Job>
    decreases q.len(),
{
    if q.len() == 0 {
        Seq::empty()
    } else {
        seq![q[0]].add(drained(q.drop_first()))
    }
}

/// The queue after each job of `s` has been pushed, in order.
pub open spec fn pushed_all(q: Seq<Job>, s: Seq<Job>) -> Seq<Job>
    decreases s.len(),
{
    if s.len() == 0 {
        q
    } else {
        pushed_all(q.push(s[0]), s.drop_first())
    }
}

/// Jobs come out in the order they went in: starting from the pending jobs
/// `q`, pushing the jobs of `s` one by one and then letting the worker take
/// jobs until none is left yields `q` followed by `s`.
pub proof fn fifo_order(q: Seq<Job>, s: Seq<Job>)
    ensures
        drained(pushed_all(q, s)) == q + s,
    decreases s.len(),
{
    if s.len() == 0 {
        drained_is_order(q);
        assert(q + s =~= q);
    } else {
        fifo_order(q.push(s[0]), s.drop_first());
        assert(q.push(s[0]) + s.drop_first() =~= q + s);
    }
}

proof fn drained_is_order(q: Seq<Job>)
    ensures
        drained(q) == q,
    decreases q.len(),
{
    if q.len() > 0 {
        drained_is_order(q.drop_first());
        assert(seq![q[0]] + q.drop_first() =~= q);
    }
}

impl JobManager {
    /// The pending jobs, oldest first.
    pub closed spec fn pending(&self) -> Seq<Job> {
        self.queue@
    }

    /// Whether a job is being executed.
    pub closed spec fn is_ongoing(&self) -> bool {
        self.ongoing_job
    }

    /// Whether shutdown has been requested.
    pub closed spec fn is_shut_down(&self) -> bool {
        self.shutdown
    }

    /// An empty queue, no job running, no shutdown requested.
    pub fn new() -> (r: Self)
        ensures
            r.pending() == Seq::<Job>::empty(),
            !r.is_ongoing(),
            !r.is_shut_down(),
    {
        JobManager { queue: Vec::new(), ongoing_job: false, shutdown: false }
    }

    /// Number of pending jobs.
    pub fn jobs(&self) -> (r: usize)
        ensures
            r == self.pending().len(),
    {
        self.queue.len()
    }

    /// Whether a job is being executed.
    pub fn ongoing(&self) -> (r: bool)
        ensures
            r == self.is_ongoing(),
    {
        self.ongoing_job
    }

    /// Whether shutdown has been requested.
    pub fn shutdown_requested(&self) -> (r: bool)
        ensures
            r == self.is_shut_down(),
    {
        self.shutdown
    }

    /// Appends `job` at the tail of the queue.
    pub fn push(&mut self, job: Job)
        ensures
            final(self).pending() == old(self).pending().push(job),
            final(self).is_ongoing() == old(self).is_ongoing(),
            final(self).is_shut_down() == old(self).is_shut_down(),
    {
        self.queue.push(job);
    }

    /// Requests shutdown. Once requested it stays requested.
    pub fn request_shutdown(&mut self)
        ensures
            final(self).is_shut_down(),
            final(self).pending() == old(self).pending(),
            final(self).is_ongoing() == old(self).is_ongoing(),
    {
        self.shutdown = true;
    }

    /// One turn of the worker loop. A running job is never interrupted and
    /// never joined by a second one; shutdown is honoured between jobs and
    /// takes precedence over pending jobs, which are then abandoned.
    pub fn next_action(&mut self) -> (r: WorkerAction)
        ensures
            final(self).is_shut_down() == old(self).is_shut_down(),
            old(self).is_shut_down() ==> !(r is Start),
            old(self).is_ongoing() ==> r is Busy && *final(self) == *old(self),
            !old(self).is_ongoing() && old(self).is_shut_down() ==> r is Exit
                && *final(self) == *old(self),
            !old(self).is_ongoing() && !old(self).is_shut_down() && old(self).pending().len()
                == 0 ==> r is Wait && *final(self) == *old(self),
            !old(self).is_ongoing() && !old(self).is_shut_down() && old(self).pending().len()
                > 0 ==> r == WorkerAction::Start(old(self).pending()[0]) && final(self).is_ongoing()
                && final(self).pending() == old(self).pending().drop_first(),
    {
        if self.ongoing_job {
            WorkerAction::Busy
        } else if self.shutdown {
            WorkerAction::Exit
        } else if self.queue.len() == 0 {
            WorkerAction::Wait
        } else {
            let job = self.queue.remove(0);
            self.ongoing_job = true;
            WorkerAction::Start(job)
        }
    }

    /// Records that the running job has completed, successfully or not.
    pub fn finish_job(&mut self)
        ensures
            !final(self).is_ongoing(),
            final(self).pending() == old(self).pending(),
            final(self).is_shut_down() == old(self).is_shut_down(),
    {
        self.ongoing_job = false;
    }
}

} // verus!
