use gmsv_mongo::callbacks::{callback_args, plan_deliveries, CallbackValue, Delivery};
use gmsv_mongo::runtime::worker_thread_count;
use gmsv_mongo::worker::{
    collect_limited, continue_fetch, outcome_answers, route_completed, Dispatcher, Job, JobResult,
    Operation, RouteOutcome,
};
use mongodb::bson::Document;
use mongodb::Collection;

/// A collection handle that never touches a server: the driver connects
/// lazily, so building the handle needs only an entered runtime.
fn test_collection(rt: &tokio::runtime::Runtime) -> Collection<Document> {
    let _guard = rt.enter();
    let mut options = mongodb::options::ClientOptions::default();
    options.hosts = vec![mongodb::options::ServerAddress::Tcp {
        host: "localhost".to_string(),
        port: Some(27017),
    }];
    let client = mongodb::Client::with_options(options).unwrap();
    client.database("testdb").collection::<Document>("things")
}

fn insert_op(rt: &tokio::runtime::Runtime) -> Operation {
    Operation::InsertOne {
        collection: test_collection(rt),
        document: Document::new(),
    }
}

#[test]
fn scenario_insert_one_callback_roundtrip() {
    let rt = tokio::runtime::Runtime::new().unwrap();
    let (mut d, mut job_rx) = Dispatcher::new();

    // The first callback-bearing submission registers the poll hook.
    assert!(d.should_register_hook());

    let job = Job::new(insert_op(&rt), Some(7));
    d.submit_job(job).0.unwrap();
    assert_eq!(d.get_callbacks_pending(), 1);

    // Worker side: take the job off the queue and complete it as the
    // execution collaborator would.
    let job = rt.block_on(job_rx.recv()).unwrap();
    assert!(job.result.is_none());
    let tx = d.result_sender();
    let outcome = JobResult::InsertOne(Ok("abc123".to_string()));
    let (routed, _sent) = route_completed(job, outcome, &tx);
    assert!(matches!(routed, RouteOutcome::Delivered));

    // Host side: the next tick drains the channel.
    let report = d.poll_callbacks();
    assert_eq!(report.deliveries.len(), 1);
    let delivery = &report.deliveries[0];
    assert_eq!(delivery.callback, 7);
    assert_eq!(delivery.error, None);
    assert!(matches!(&delivery.value, CallbackValue::Text(s) if s == "abc123"));
    assert!(!report.disconnected);

    // After the host has performed the delivery, the cycle is settled.
    let deregister = d.finish_poll(report.deliveries.len(), report.disconnected);
    assert_eq!(d.get_callbacks_pending(), 0);
    assert!(deregister);
}

#[test]
fn scenario_find_limit_stops_collection() {
    // A source that would yield five matches, a limit of two: execution
    // collects exactly two documents.
    let five: Vec<Document> = (0..5).map(|_| Document::new()).collect();
    let collected = collect_limited(five, Some(2));
    assert_eq!(collected.len(), 2);
}

#[test]
fn scenario_update_failure_delivers_error() {
    let rt = tokio::runtime::Runtime::new().unwrap();
    let (mut d, mut job_rx) = Dispatcher::new();
    assert!(d.should_register_hook());

    let op = Operation::UpdateOne {
        collection: test_collection(&rt),
        filter: Document::new(),
        update: Document::new(),
        upsert: false,
    };
    d.submit_job(Job::new(op, Some(3))).0.unwrap();

    let job = rt.block_on(job_rx.recv()).unwrap();
    let tx = d.result_sender();
    let (routed, _sent) =
        route_completed(job, JobResult::UpdateOne(Err("duplicate key".to_string())), &tx);
    assert!(matches!(routed, RouteOutcome::Delivered));

    let report = d.poll_callbacks();
    assert_eq!(report.deliveries.len(), 1);
    assert_eq!(report.deliveries[0].error, Some("duplicate key".to_string()));
    assert!(matches!(report.deliveries[0].value, CallbackValue::Nil));
    assert!(d.finish_poll(report.deliveries.len(), report.disconnected));
}

#[test]
fn scenario_poll_before_completion_is_a_cheap_no_op() {
    let rt = tokio::runtime::Runtime::new().unwrap();
    let (mut d, _job_rx) = Dispatcher::new();
    assert!(d.should_register_hook());
    for handle in [1, 2, 3] {
        d.submit_job(Job::new(insert_op(&rt), Some(handle))).0.unwrap();
    }
    assert_eq!(d.get_callbacks_pending(), 3);

    // None of the three jobs has completed: the poll processes nothing,
    // the counter stands, and the hook stays registered.
    let report = d.poll_callbacks();
    assert_eq!(report.deliveries.len(), 0);
    let deregister = d.finish_poll(report.deliveries.len(), report.disconnected);
    assert_eq!(d.get_callbacks_pending(), 3);
    assert!(!deregister);
    assert!(!d.should_register_hook());
}

#[test]
fn fire_and_forget_never_counts_and_never_routes() {
    let rt = tokio::runtime::Runtime::new().unwrap();
    let (mut d, mut job_rx) = Dispatcher::new();

    d.submit_job(Job::new(insert_op(&rt), None)).0.unwrap();
    assert_eq!(d.get_callbacks_pending(), 0);

    let job = rt.block_on(job_rx.recv()).unwrap();
    let tx = d.result_sender();
    let (routed, _sent) = route_completed(job, JobResult::InsertOne(Ok("x".to_string())), &tx);
    assert!(matches!(routed, RouteOutcome::Dropped));

    let report = d.poll_callbacks();
    assert_eq!(report.deliveries.len(), 0);
    let deregister = d.finish_poll(report.deliveries.len(), report.disconnected);
    assert_eq!(d.get_callbacks_pending(), 0);
    assert!(!deregister);
}

#[test]
fn counter_balances_across_partial_drain() {
    let rt = tokio::runtime::Runtime::new().unwrap();
    let (mut d, mut job_rx) = Dispatcher::new();
    assert!(d.should_register_hook());
    d.submit_job(Job::new(insert_op(&rt), Some(10))).0.unwrap();
    d.submit_job(Job::new(insert_op(&rt), Some(11))).0.unwrap();
    assert_eq!(d.get_callbacks_pending(), 2);

    // Only the first job completes before the next tick.
    let job = rt.block_on(job_rx.recv()).unwrap();
    let tx = d.result_sender();
    let _ = route_completed(job, JobResult::InsertOne(Ok("a".to_string())), &tx);

    let report = d.poll_callbacks();
    assert_eq!(report.deliveries.len(), 1);
    let deregister = d.finish_poll(report.deliveries.len(), report.disconnected);
    assert_eq!(d.get_callbacks_pending(), 1);
    assert!(!deregister);

    // The second completes; its drain settles the counter and drops the hook.
    let job = rt.block_on(job_rx.recv()).unwrap();
    let _ = route_completed(job, JobResult::InsertOne(Err("late".to_string())), &tx);
    let report = d.poll_callbacks();
    assert_eq!(report.deliveries.len(), 1);
    let deregister = d.finish_poll(report.deliveries.len(), report.disconnected);
    assert_eq!(d.get_callbacks_pending(), 0);
    assert!(deregister);

    // Registration becomes possible again only now.
    assert!(d.should_register_hook());
}

#[test]
fn registration_check_answers_true_exactly_once() {
    let (mut d, _job_rx) = Dispatcher::new();
    let answers: Vec<bool> = (0..5).map(|_| d.should_register_hook()).collect();
    assert_eq!(answers.iter().filter(|b| **b).count(), 1);
    assert!(answers[0]);
    d.mark_hook_unregistered();
    assert!(d.should_register_hook());
}

#[test]
fn plan_holds_one_delivery_per_callback_bearing_job() {
    let rt = tokio::runtime::Runtime::new().unwrap();
    let jobs = vec![
        Job {
            operation: insert_op(&rt),
            callback: Some(1),
            result: Some(JobResult::InsertOne(Ok("first".to_string()))),
        },
        Job {
            operation: insert_op(&rt),
            callback: None,
            result: Some(JobResult::InsertOne(Ok("unwatched".to_string()))),
        },
        Job {
            operation: insert_op(&rt),
            callback: Some(2),
            result: Some(JobResult::InsertOne(Err("lost".to_string()))),
        },
    ];
    let plan: Vec<Delivery> = plan_deliveries(jobs);
    assert_eq!(plan.len(), 2);
    assert_eq!(plan[0].callback, 1);
    assert!(matches!(&plan[0].value, CallbackValue::Text(s) if s == "first"));
    assert_eq!(plan[1].callback, 2);
    assert_eq!(plan[1].error, Some("lost".to_string()));
}

#[test]
fn plan_notes_a_missing_result() {
    let rt = tokio::runtime::Runtime::new().unwrap();
    let jobs = vec![Job::new(insert_op(&rt), Some(4))];
    let plan = plan_deliveries(jobs);
    assert_eq!(plan.len(), 1);
    assert_eq!(plan[0].error, None);
    assert!(matches!(&plan[0].value, CallbackValue::Text(s) if s == "No result"));
}

#[test]
fn collect_limited_edges() {
    let docs = |n: usize| -> Vec<Document> { (0..n).map(|_| Document::new()).collect() };
    assert_eq!(collect_limited(docs(5), None).len(), 5);
    assert_eq!(collect_limited(docs(5), Some(0)).len(), 0);
    assert_eq!(collect_limited(docs(5), Some(-2)).len(), 0);
    assert_eq!(collect_limited(docs(0), Some(3)).len(), 0);
    assert_eq!(collect_limited(docs(2), Some(7)).len(), 2);
}

#[test]
fn continue_fetch_tracks_the_threshold() {
    assert!(continue_fetch(0, None));
    assert!(continue_fetch(100, None));
    assert!(continue_fetch(0, Some(2)));
    assert!(continue_fetch(1, Some(2)));
    assert!(!continue_fetch(2, Some(2)));
    assert!(!continue_fetch(0, Some(0)));
    assert!(!continue_fetch(1, Some(0)));
    assert!(!continue_fetch(0, Some(-3)));
}

#[test]
fn test_num_cpus() {
    for available in [0, 1, 4, 8, 16, 64] {
        let cpus = worker_thread_count(available);
        assert!(cpus >= 4 && cpus <= 16);
    }
    assert_eq!(worker_thread_count(1), 4);
    assert_eq!(worker_thread_count(8), 8);
    assert_eq!(worker_thread_count(64), 16);
}

#[test]
fn test_collection_name_validation() {
    let name = "test_collection";
    assert!(!name.is_empty());
    assert!(!name.contains('$'));
}

#[test]
fn callback_args_cover_every_outcome() {
    let (e, v) = callback_args(JobResult::InsertMany(Ok(vec!["a".to_string(), "b".to_string()])));
    assert_eq!(e, None);
    assert!(matches!(v, CallbackValue::TextList(ids) if ids == vec!["a".to_string(), "b".to_string()]));
    let (e, v) = callback_args(JobResult::Find(Ok(vec![Document::new()])));
    assert_eq!(e, None);
    assert!(matches!(v, CallbackValue::DocList(d) if d.len() == 1));
    let (e, v) = callback_args(JobResult::Find(Err("cursor error".to_string())));
    assert_eq!(e, Some("cursor error".to_string()));
    assert!(matches!(v, CallbackValue::Nil));
    let (e, v) = callback_args(JobResult::FindOne(Ok(None)));
    assert_eq!(e, None);
    assert!(matches!(v, CallbackValue::Nil));
    let (e, v) = callback_args(JobResult::FindOne(Ok(Some(Document::new()))));
    assert!(e.is_none());
    assert!(matches!(v, CallbackValue::Doc(_)));
    let (e, v) = callback_args(JobResult::UpdateMany(Ok(4)));
    assert!(e.is_none());
    assert!(matches!(v, CallbackValue::Number(4)));
    let (e, v) = callback_args(JobResult::DeleteOne(Ok(1)));
    assert!(e.is_none());
    assert!(matches!(v, CallbackValue::Number(1)));
    let (e, v) = callback_args(JobResult::DeleteMany(Err("gone".to_string())));
    assert_eq!(e, Some("gone".to_string()));
    assert!(matches!(v, CallbackValue::Nil));
    let (e, v) = callback_args(JobResult::CountDocuments(Ok(9)));
    assert!(e.is_none());
    assert!(matches!(v, CallbackValue::Number(9)));
    let (e, v) = callback_args(JobResult::Aggregate(Ok(Vec::new())));
    assert!(e.is_none());
    assert!(matches!(v, CallbackValue::DocList(d) if d.is_empty()));
}

#[test]
fn reentrant_submission_during_delivery_keeps_hook() {
    let rt = tokio::runtime::Runtime::new().unwrap();
    let (mut d, mut job_rx) = Dispatcher::new();
    assert!(d.should_register_hook());
    d.submit_job(Job::new(insert_op(&rt), Some(21))).0.unwrap();

    let job = rt.block_on(job_rx.recv()).unwrap();
    let tx = d.result_sender();
    let _ = route_completed(job, JobResult::InsertOne(Ok("done".to_string())), &tx);

    // The drain plans one delivery; while the host performs it, the callback
    // submits another callback-bearing job.
    let report = d.poll_callbacks();
    assert_eq!(report.deliveries.len(), 1);
    d.submit_job(Job::new(insert_op(&rt), Some(22))).0.unwrap();
    // The hook flag is still set, so the new submission does not re-register.
    assert!(!d.should_register_hook());

    // Settling the cycle sees the new work: the hook stays registered and
    // the new job's result can still be drained on a later tick.
    let deregister = d.finish_poll(report.deliveries.len(), report.disconnected);
    assert!(!deregister);
    assert_eq!(d.get_callbacks_pending(), 1);

    let job = rt.block_on(job_rx.recv()).unwrap();
    let _ = route_completed(job, JobResult::InsertOne(Ok("late".to_string())), &tx);
    let report = d.poll_callbacks();
    assert_eq!(report.deliveries.len(), 1);
    assert_eq!(report.deliveries[0].callback, 22);
    assert!(d.finish_poll(report.deliveries.len(), report.disconnected));
}

#[test]
fn outcome_answers_checks_the_variant() {
    let rt = tokio::runtime::Runtime::new().unwrap();
    let op = insert_op(&rt);
    assert!(outcome_answers(&op, &JobResult::InsertOne(Ok("x".to_string()))));
    assert!(!outcome_answers(&op, &JobResult::Find(Ok(Vec::new()))));
    let find = Operation::Find {
        collection: test_collection(&rt),
        filter: Document::new(),
        limit: None,
    };
    assert!(outcome_answers(&find, &JobResult::Find(Err("down".to_string()))));
    assert!(!outcome_answers(&find, &JobResult::CountDocuments(Ok(0))));
}
