//! The job model and the dispatcher: submission into the job queue, the
//! execution epilogue that routes a completed job, and the bounded
//! fetch-and-collect step of list-producing operations.

use vstd::prelude::*;
use mongodb::bson::Document;
use mongodb::Collection;
use crate::pending::{
    PendingTracker, TrackerView, init_view, spec_note_submitted, spec_should_register,
    spec_mark_unregistered, spec_decrease,
};
use crate::upstream::{new_job_channel, new_result_channel, send_job, send_completed,
    clone_result_sender};

verus! {

/// Opaque reference into the host's callback registry.
pub type LuaReference = i32;

/// One requested unit of work: the target collection handle beside the
/// action-specific parameters. Consumed exactly once by execution.
pub enum Operation {
    InsertOne { collection: Collection<Document>, document: Document },
    InsertMany { collection: Collection<Document>, documents: Vec<Document> },
    Find { collection: Collection<Document>, filter: Document, limit: Option<i64> },
    FindOne { collection: Collection<Document>, filter: Document },
    UpdateOne { collection: Collection<Document>, filter: Document, update: Document, upsert: bool },
    UpdateMany { collection: Collection<Document>, filter: Document, update: Document, upsert: bool },
    DeleteOne { collection: Collection<Document>, filter: Document },
    DeleteMany { collection: Collection<Document>, filter: Document },
    CountDocuments { collection: Collection<Document>, filter: Document },
    Aggregate { collection: Collection<Document>, pipeline: Vec<Document> },
}

/// The outcome of one executed operation, mirroring `Operation` one for one;
/// each variant holds the action's natural result or a string-form error.
pub enum JobResult {
    InsertOne(Result<String, String>),
    InsertMany(Result<Vec<String>, String>),
    Find(Result<Vec<Document>, String>),
    FindOne(Result<Option<Document>, String>),
    UpdateOne(Result<i64, String>),
    UpdateMany(Result<i64, String>),
    DeleteOne(Result<i64, String>),
    DeleteMany(Result<i64, String>),
    CountDocuments(Result<i64, String>),
    Aggregate(Result<Vec<Document>, String>),
}

/// The outcome variant answers the operation variant.
pub open spec fn outcome_matches(op: Operation, r: JobResult) -> bool {
    match op {
        Operation::InsertOne { .. } => r matches JobResult::InsertOne(_),
        Operation::InsertMany { .. } => r matches JobResult::InsertMany(_),
        Operation::Find { .. } => r matches JobResult::Find(_),
        Operation::FindOne { .. } => r matches JobResult::FindOne(_),
        Operation::UpdateOne { .. } => r matches JobResult::UpdateOne(_),
        Operation::UpdateMany { .. } => r matches JobResult::UpdateMany(_),
        Operation::DeleteOne { .. } => r matches JobResult::DeleteOne(_),
        Operation::DeleteMany { .. } => r matches JobResult::DeleteMany(_),
        Operation::CountDocuments { .. } => r matches JobResult::CountDocuments(_),
        Operation::Aggregate { .. } => r matches JobResult::Aggregate(_),
    }
}

/// Executable form of `outcome_matches`, for callers outside the proof that
/// must test the variant pairing before routing a completed job.
pub fn outcome_answers(op: &Operation, r: &JobResult) -> (b: bool)
    ensures
        b == outcome_matches(*op, *r),
{
    match op {
        Operation::InsertOne { .. } => matches!(r, JobResult::InsertOne(_)),
        Operation::InsertMany { .. } => matches!(r, JobResult::InsertMany(_)),
        Operation::Find { .. } => matches!(r, JobResult::Find(_)),
        Operation::FindOne { .. } => matches!(r, JobResult::FindOne(_)),
        Operation::UpdateOne { .. } => matches!(r, JobResult::UpdateOne(_)),
        Operation::UpdateMany { .. } => matches!(r, JobResult::UpdateMany(_)),
        Operation::DeleteOne { .. } => matches!(r, JobResult::DeleteOne(_)),
        Operation::DeleteMany { .. } => matches!(r, JobResult::DeleteMany(_)),
        Operation::CountDocuments { .. } => matches!(r, JobResult::CountDocuments(_)),
        Operation::Aggregate { .. } => matches!(r, JobResult::Aggregate(_)),
    }
}

/// The envelope moved through every queue: one operation, an optional
/// callback handle, and eventually the outcome. `result` stays `None` until
/// execution finishes and is `Some` on every job that reaches the delivery
/// channel.
pub struct Job {
    pub operation: Operation,
    pub callback: Option<LuaReference>,
    pub result: Option<JobResult>,
}

impl Job {
    /// A filled-in `result` answers the operation it came from.
    pub open spec fn wf(self) -> bool {
        self.result matches Some(r) ==> outcome_matches(self.operation, r)
    }

    /// A fresh job around `operation`, not yet executed.
    pub fn new(operation: Operation, callback: Option<LuaReference>) -> (r: Job)
        ensures
            r == (Job { operation, callback, result: None }),
            r.wf(),
    {
        Job { operation, callback, result: None }
    }
}

/// What became of a completed job at the routing step.
pub enum RouteOutcome {
    /// Fire-and-forget: no callback, so the job was dropped, not routed.
    Dropped,
    /// Pushed onto the result delivery channel for the next poll.
    Delivered,
    /// The delivery channel was closed; the job was dropped and its callback
    /// handle stays unreleased (logged by the caller).
    DeliveryFailed,
}

/// The dispatcher context: the pending-work tracker beside the two channel
/// ends the host side owns. One value of this type stands where the original
/// design kept process-wide singletons.
pub struct Dispatcher {
    pub(crate) tracker: PendingTracker,
    pub(crate) job_tx: tokio::sync::mpsc::UnboundedSender<Job>,
    pub(crate) result_tx: std::sync::mpsc::Sender<Job>,
    pub(crate) result_rx: std::sync::mpsc::Receiver<Job>,
}

impl View for Dispatcher {
    type V = TrackerView;

    closed spec fn view(&self) -> TrackerView {
        self.tracker@
    }
}

impl Dispatcher {
    /// The pending counter balances the running totals of callback-bearing
    /// submissions and drains.
    pub open spec fn wf(self) -> bool {
        self@.submitted == self@.drained + self@.pending
    }

    /// A fresh dispatcher and the receiving end of its job queue, which the
    /// caller hands to the worker pool's dispatch loop.
    pub fn new() -> (r: (Dispatcher, tokio::sync::mpsc::UnboundedReceiver<Job>))
        ensures
            r.0@ == init_view(),
            r.0.wf(),
    {
        let (job_tx, job_rx) = new_job_channel();
        let (result_tx, result_rx) = new_result_channel();
        let d = Dispatcher { tracker: PendingTracker::new(), job_tx, result_tx, result_rx };
        (d, job_rx)
    }

    /// Another sender for the result delivery channel, for a worker task.
    pub fn result_sender(&self) -> std::sync::mpsc::Sender<Job> {
        clone_result_sender(&self.result_tx)
    }

    /// The number of callback-bearing jobs still in flight.
    pub fn get_callbacks_pending(&self) -> (r: usize)
        ensures
            r == self@.pending,
    {
        self.tracker.get_callbacks_pending()
    }

    /// Subtracts the callback-bearing jobs drained in one poll cycle.
    pub fn decrease_callbacks_pending(&mut self, count: usize)
        requires
            old(self).wf(),
        ensures
            final(self).wf(),
            final(self)@ == spec_decrease(old(self)@, count as nat),
    {
        self.tracker.decrease_callbacks_pending(count);
    }

    /// Test-and-set registration check: true only for the single call that
    /// moved the hook flag from unregistered to registered.
    pub fn should_register_hook(&mut self) -> (r: bool)
        requires
            old(self).wf(),
        ensures
            final(self).wf(),
            final(self)@ == spec_should_register(old(self)@),
            r == !old(self)@.registered,
    {
        self.tracker.should_register_hook()
    }

    /// Records that the host dropped its poll point.
    pub fn mark_hook_unregistered(&mut self)
        requires
            old(self).wf(),
        ensures
            final(self).wf(),
            final(self)@ == spec_mark_unregistered(old(self)@),
    {
        self.tracker.mark_hook_unregistered();
    }

    /// Hands a job to the runtime through the unbounded job queue. The ghost
    /// half of the result pins what was handed off: the caller's job,
    /// untouched.
    ///
    /// A callback-bearing job is counted in the pending tracker before the
    /// hand-off, so a poll cycle can never observe "no pending work" while
    /// such a job is in flight but not yet queued for delivery. If the queue
    /// refuses the job (its consumer is gone), the count is taken back and
    /// the error is surfaced to the caller, who still owns the callback
    /// handle and must release it.
    pub fn submit_job(&mut self, job: Job) -> (r: (Result<(), String>, Ghost<Job>))
        requires
            old(self).wf(),
            job.callback is Some ==> old(self)@.pending < usize::MAX,
        ensures
            final(self).wf(),
            final(self)@.registered == old(self)@.registered,
            r.0 is Ok && job.callback is Some ==> final(self)@ == spec_note_submitted(old(self)@),
            r.0 is Ok && job.callback is None ==> final(self)@ == old(self)@,
            r.0 is Err ==> final(self)@ == old(self)@,
            r.0 matches Err(m) ==> m@ == "Failed to submit job: channel closed"@,
            r.1@ == job,
    {
        let has_callback = job.callback.is_some();
        if has_callback {
            self.tracker.note_callback_submitted();
        }
        let ghost handed = job;
        if send_job(&self.job_tx, job) {
            (Ok(()), Ghost(handed))
        } else {
            if has_callback {
                self.tracker.forget_callback_submitted();
            }
            (Err("Failed to submit job: channel closed".to_owned()), Ghost(handed))
        }
    }
}

/// Execution epilogue, run once the collaborator has produced `result`:
/// attaches the outcome and routes the job. A job with a callback is pushed
/// onto the result delivery channel; a fire-and-forget job is dropped here
/// and never reaches that channel. The ghost half of the result pins what
/// was handed to the channel: the caller's job, unchanged but for the
/// attached outcome.
pub fn route_completed(
    job: Job,
    result: JobResult,
    result_tx: &std::sync::mpsc::Sender<Job>,
) -> (r: (RouteOutcome, Ghost<Job>))
    requires
        job.result is None,
        outcome_matches(job.operation, result),
    ensures
        r.0 is Dropped <==> job.callback is None,
        !(r.0 is Dropped) ==> r.1@ == (Job {
            operation: job.operation,
            callback: job.callback,
            result: Some(result),
        }),
{
    let completed = Job { operation: job.operation, callback: job.callback, result: Some(result) };
    let ghost sent = completed;
    if completed.callback.is_some() {
        if send_completed(result_tx, completed) {
            (RouteOutcome::Delivered, Ghost(sent))
        } else {
            (RouteOutcome::DeliveryFailed, Ghost(sent))
        }
    } else {
        (RouteOutcome::Dropped, Ghost(sent))
    }
}

/// How many items a bounded fetch-and-collect keeps out of `avail` produced
/// items: all of them without a limit, at most the limit otherwise, and none
/// at all when the limit is zero or negative — collection stops the moment
/// the count taken reaches the limit.
pub open spec fn spec_limited_count(avail: nat, limit: Option<i64>) -> nat {
    match limit {
        None => avail,
        Some(l) => {
            if l <= 0 {
                0
            } else if avail <= l as nat {
                avail
            } else {
                l as nat
            }
        },
    }
}

/// Decision step of the fetch-and-collect loop, consulted before every
/// fetch, the first included: with `collected` items already taken, fetch
/// another?
pub fn continue_fetch(collected: usize, limit: Option<i64>) -> (r: bool)
    ensures
        r == match limit {
            None => true,
            Some(l) => (collected as int) < l,
        },
{
    match limit {
        None => true,
        Some(l) => {
            if l <= 0 {
                false
            } else {
                (collected as u64) < (l as u64)
            }
        },
    }
}

/// Keeps of `items` exactly what a limit-bounded fetch-and-collect would
/// have taken: the prefix whose length `spec_limited_count` gives.
pub fn collect_limited(items: Vec<Document>, limit: Option<i64>) -> (r: Vec<Document>)
    ensures
        r@ == items@.take(spec_limited_count(items@.len(), limit) as int),
{
    let mut kept = items;
    let ghost orig = kept@;
    let n: usize = match limit {
        None => kept.len(),
        Some(l) => {
            if l <= 0 {
                0
            } else if (kept.len() as u64) <= (l as u64) {
                kept.len()
            } else {
                l as usize
            }
        },
    };
    proof {
        assert(n as nat == spec_limited_count(orig.len(), limit));
    }
    kept.truncate(n);
    proof {
        assert(kept@ =~= orig.take(n as int));
    }
    kept
}

} // verus!
