//! The poll/drain entry point: consume every completed job currently queued
//! on the result delivery channel and turn it into a delivery plan — one
//! invocation, with `(error, value)` arguments and one handle release, per
//! callback-bearing job — then update the pending counter and decide whether
//! the poll hook may be dropped.

use vstd::prelude::*;
use mongodb::bson::Document;
use crate::pending::spec_decrease;
use crate::upstream::{try_recv_job, Received};
use crate::worker::{Dispatcher, Job, JobResult, LuaReference};

verus! {

/// The value half of the canonical `(error_or_nil, value_or_nil)` pair a
/// callback is invoked with.
#[derive(Debug, PartialEq)]
pub enum CallbackValue {
    Nil,
    Text(String),
    TextList(Vec<String>),
    Number(i64),
    Doc(Document),
    DocList(Vec<Document>),
}

/// One planned callback invocation: look up `callback` in the host registry,
/// invoke it with `(error, value)`, and release the handle — exactly once,
/// whatever the invocation does.
#[derive(Debug, PartialEq)]
pub struct Delivery {
    pub callback: LuaReference,
    pub error: Option<String>,
    pub value: CallbackValue,
}

/// The error half handed to a callback: the message on failure, nil on
/// success.
pub open spec fn spec_error_of(r: JobResult) -> Option<String> {
    match r {
        JobResult::InsertOne(res) => res.err(),
        JobResult::InsertMany(res) => res.err(),
        JobResult::Find(res) => res.err(),
        JobResult::FindOne(res) => res.err(),
        JobResult::UpdateOne(res) => res.err(),
        JobResult::UpdateMany(res) => res.err(),
        JobResult::DeleteOne(res) => res.err(),
        JobResult::DeleteMany(res) => res.err(),
        JobResult::CountDocuments(res) => res.err(),
        JobResult::Aggregate(res) => res.err(),
    }
}

/// The value half handed to a callback: the action's natural result on
/// success, nil on failure (and nil for a find-one that matched nothing).
pub open spec fn spec_value_of(r: JobResult) -> CallbackValue {
    match r {
        JobResult::InsertOne(res) => match res {
            Ok(id) => CallbackValue::Text(id),
            Err(_) => CallbackValue::Nil,
        },
        JobResult::InsertMany(res) => match res {
            Ok(ids) => CallbackValue::TextList(ids),
            Err(_) => CallbackValue::Nil,
        },
        JobResult::Find(res) => match res {
            Ok(docs) => CallbackValue::DocList(docs),
            Err(_) => CallbackValue::Nil,
        },
        JobResult::FindOne(res) => match res {
            Ok(Some(doc)) => CallbackValue::Doc(doc),
            Ok(None) => CallbackValue::Nil,
            Err(_) => CallbackValue::Nil,
        },
        JobResult::UpdateOne(res) => match res {
            Ok(n) => CallbackValue::Number(n),
            Err(_) => CallbackValue::Nil,
        },
        JobResult::UpdateMany(res) => match res {
            Ok(n) => CallbackValue::Number(n),
            Err(_) => CallbackValue::Nil,
        },
        JobResult::DeleteOne(res) => match res {
            Ok(n) => CallbackValue::Number(n),
            Err(_) => CallbackValue::Nil,
        },
        JobResult::DeleteMany(res) => match res {
            Ok(n) => CallbackValue::Number(n),
            Err(_) => CallbackValue::Nil,
        },
        JobResult::CountDocuments(res) => match res {
            Ok(n) => CallbackValue::Number(n),
            Err(_) => CallbackValue::Nil,
        },
        JobResult::Aggregate(res) => match res {
            Ok(docs) => CallbackValue::DocList(docs),
            Err(_) => CallbackValue::Nil,
        },
    }
}

/// Turns an outcome into the canonical `(error_or_nil, value_or_nil)` pair:
/// success gives `(nil, value)`, failure gives `(message, nil)`.
pub fn callback_args(result: JobResult) -> (r: (Option<String>, CallbackValue))
    ensures
        r.0 == spec_error_of(result),
        r.1 == spec_value_of(result),
{
    match result {
        JobResult::InsertOne(res) => match res {
            Ok(id) => (None, CallbackValue::Text(id)),
            Err(e) => (Some(e), CallbackValue::Nil),
        },
        JobResult::InsertMany(res) => match res {
            Ok(ids) => (None, CallbackValue::TextList(ids)),
            Err(e) => (Some(e), CallbackValue::Nil),
        },
        JobResult::Find(res) => match res {
            Ok(docs) => (None, CallbackValue::DocList(docs)),
            Err(e) => (Some(e), CallbackValue::Nil),
        },
        JobResult::FindOne(res) => match res {
            Ok(Some(doc)) => (None, CallbackValue::Doc(doc)),
            Ok(None) => (None, CallbackValue::Nil),
            Err(e) => (Some(e), CallbackValue::Nil),
        },
        JobResult::UpdateOne(res) => match res {
            Ok(n) => (None, CallbackValue::Number(n)),
            Err(e) => (Some(e), CallbackValue::Nil),
        },
        JobResult::UpdateMany(res) => match res {
            Ok(n) => (None, CallbackValue::Number(n)),
            Err(e) => (Some(e), CallbackValue::Nil),
        },
        JobResult::DeleteOne(res) => match res {
            Ok(n) => (None, CallbackValue::Number(n)),
            Err(e) => (Some(e), CallbackValue::Nil),
        },
        JobResult::DeleteMany(res) => match res {
            Ok(n) => (None, CallbackValue::Number(n)),
            Err(e) => (Some(e), CallbackValue::Nil),
        },
        JobResult::CountDocuments(res) => match res {
            Ok(n) => (None, CallbackValue::Number(n)),
            Err(e) => (Some(e), CallbackValue::Nil),
        },
        JobResult::Aggregate(res) => match res {
            Ok(docs) => (None, CallbackValue::DocList(docs)),
            Err(e) => (Some(e), CallbackValue::Nil),
        },
    }
}

/// `d` is the one delivery owed for drained job `job`: the job's own handle,
/// and the canonical argument pair for its outcome. A job that somehow
/// arrives without an outcome is delivered defensively with a "No result"
/// note in the value slot.
pub open spec fn delivery_matches(job: Job, d: Delivery) -> bool {
    &&& job.callback matches Some(h) && d.callback == h
    &&& match job.result {
        Some(r) => d.error == spec_error_of(r) && d.value == spec_value_of(r),
        None => d.error is None && (d.value matches CallbackValue::Text(t) && t@ == "No result"@),
    }
}

/// `plan` is exactly the deliveries owed for the drained jobs `jobs`, in
/// order: one entry per callback-bearing job, none for a fire-and-forget
/// job.
pub open spec fn spec_plan_matches(jobs: Seq<Job>, plan: Seq<Delivery>) -> bool
    decreases jobs.len(),
{
    if jobs.len() == 0 {
        plan.len() == 0
    } else if jobs.last().callback is Some {
        &&& plan.len() > 0
        &&& delivery_matches(jobs.last(), plan.last())
        &&& spec_plan_matches(jobs.drop_last(), plan.drop_last())
    } else {
        spec_plan_matches(jobs.drop_last(), plan)
    }
}

/// Builds the delivery plan for one drained batch: one delivery per
/// callback-bearing job, in the order the jobs came off the channel.
pub fn plan_deliveries(jobs: Vec<Job>) -> (r: Vec<Delivery>)
    ensures
        spec_plan_matches(jobs@, r@),
{
    let ghost orig = jobs@;
    let ghost mut i: int = 0;
    let mut rest = jobs;
    let mut plan: Vec<Delivery> = Vec::new();
    while rest.len() > 0
        invariant
            0 <= i,
            i + rest@.len() == orig.len(),
            rest@ == orig.skip(i),
            spec_plan_matches(orig.take(i), plan@),
        decreases rest@.len(),
    {
        let job = rest.remove(0);
        proof {
            assert(job == orig[i]);
            assert(rest@ =~= orig.skip(i + 1));
        }
        let ghost pre_plan = plan@;
        match job.callback {
            Some(handle) => {
                let d = match job.result {
                    Some(res) => {
                        let (error, value) = callback_args(res);
                        Delivery { callback: handle, error, value }
                    },
                    None => Delivery {
                        callback: handle,
                        error: None,
                        value: CallbackValue::Text("No result".to_owned()),
                    },
                };
                plan.push(d);
            },
            None => {},
        }
        proof {
            i = i + 1;
            assert(orig.take(i).drop_last() =~= orig.take(i - 1));
            assert(orig.take(i).last() == orig[i - 1]);
            if orig[i - 1].callback is Some {
                assert(plan@.drop_last() =~= pre_plan);
            }
        }
    }
    proof {
        assert(orig.take(i) =~= orig);
    }
    plan
}

/// Exactly-once release: the plan for a drained batch holds exactly one
/// delivery — and so exactly one handle release — for every callback-bearing
/// job in the batch, in the order the jobs were received, and nothing else.
pub proof fn lemma_exactly_once_release(jobs: Seq<Job>, plan: Seq<Delivery>)
    requires
        spec_plan_matches(jobs, plan),
    ensures
        plan.len() == jobs.filter(|j: Job| j.callback is Some).len(),
        forall|i: int|
            0 <= i < plan.len() ==> delivery_matches(
                jobs.filter(|j: Job| j.callback is Some)[i],
                #[trigger] plan[i],
            ),
    decreases jobs.len(),
{
    reveal(Seq::filter);
    if jobs.len() > 0 {
        let pred = |j: Job| j.callback is Some;
        if jobs.last().callback is Some {
            lemma_exactly_once_release(jobs.drop_last(), plan.drop_last());
            assert(jobs.filter(pred) == jobs.drop_last().filter(pred).push(jobs.last()));
            assert(forall|i: int|
                0 <= i < plan.len() - 1 ==> plan.drop_last()[i] == plan[i]);
        } else {
            lemma_exactly_once_release(jobs.drop_last(), plan);
            assert(jobs.filter(pred) == jobs.drop_last().filter(pred));
        }
    }
}

/// What one drain produced: the deliveries the host must now perform, and
/// whether the channel turned out to be closed for good. Once the deliveries
/// are done, `finish_poll` settles the counter and the hook.
pub struct PollReport {
    pub deliveries: Vec<Delivery>,
    pub disconnected: bool,
    pub received: Ghost<Seq<Job>>,
}

impl Dispatcher {
    /// Drains the result delivery channel without blocking and plans the
    /// callback invocations. The tracker is left untouched: the host performs
    /// the deliveries first and then calls `finish_poll`, so work submitted
    /// by a callback during delivery is already counted — and the hook flag
    /// still set — when the cycle is settled.
    pub fn poll_callbacks(&self) -> (r: PollReport)
        ensures
            spec_plan_matches(r.received@, r.deliveries@),
    {
        let mut jobs: Vec<Job> = Vec::new();
        let mut disconnected = false;
        let mut scanning = true;
        while scanning && jobs.len() < usize::MAX
            decreases
                    (if scanning {
                        1int
                    } else {
                        0int
                    }),
                    usize::MAX - jobs@.len(),
        {
            match try_recv_job(&self.result_rx) {
                Received::Job(job) => jobs.push(job),
                Received::Empty => scanning = false,
                Received::Disconnected => {
                    disconnected = true;
                    scanning = false;
                },
            }
        }
        let ghost received = jobs@;
        let deliveries = plan_deliveries(jobs);
        PollReport { deliveries, disconnected, received: Ghost(received) }
    }

    /// Settles one poll cycle after its deliveries have been performed:
    /// subtracts the `delivered` callback-bearing jobs from the pending
    /// counter and answers whether the host must drop its poll point — when
    /// this drain settled the last outstanding job, or when the channel is
    /// disconnected and no further result can ever arrive. A true answer
    /// also clears the registration flag, so only a later callback-bearing
    /// submission can register the hook again.
    pub fn finish_poll(&mut self, delivered: usize, disconnected: bool) -> (deregister: bool)
        requires
            old(self).wf(),
        ensures
            final(self).wf(),
            final(self)@.submitted == old(self)@.submitted,
            final(self)@.pending == spec_decrease(old(self)@, delivered as nat).pending,
            final(self)@.drained == spec_decrease(old(self)@, delivered as nat).drained,
            deregister == (disconnected || (delivered > 0 && final(self)@.pending == 0)),
            final(self)@.registered == (old(self)@.registered && !deregister),
    {
        self.decrease_callbacks_pending(delivered);
        let deregister = disconnected || (delivered > 0 && self.get_callbacks_pending() == 0);
        if deregister {
            self.mark_hook_unregistered();
        }
        deregister
    }
}

} // verus!
