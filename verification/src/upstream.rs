//! Declarations of the outside types the bridge moves around, and the small
//! trusted wrappers through which it touches them.
//!
//! Collection handles and documents are opaque payloads here: the bridge
//! never looks inside one, it only carries them between the host and the
//! worker pool. The two channels are the only state shared across threads.

use vstd::prelude::*;
use crate::worker::Job;

verus! {

#[verifier::external_type_specification]
#[verifier::external_body]
#[verifier::reject_recursive_types(T)]
pub struct ExCollection<T>(mongodb::Collection<T>) where T: Send + Sync;

#[verifier::external_type_specification]
#[verifier::external_body]
pub struct ExDocument(mongodb::bson::Document);

#[verifier::external_type_specification]
#[verifier::external_body]
#[verifier::reject_recursive_types(T)]
pub struct ExUnboundedSender<T>(tokio::sync::mpsc::UnboundedSender<T>);

#[verifier::external_type_specification]
#[verifier::external_body]
#[verifier::reject_recursive_types(T)]
pub struct ExUnboundedReceiver<T>(tokio::sync::mpsc::UnboundedReceiver<T>);

#[verifier::external_type_specification]
#[verifier::external_body]
#[verifier::reject_recursive_types(T)]
pub struct ExMpscSender<T>(std::sync::mpsc::Sender<T>);

#[verifier::external_type_specification]
#[verifier::external_body]
#[verifier::reject_recursive_types(T)]
pub struct ExMpscReceiver<T>(std::sync::mpsc::Receiver<T>);

/// What one non-blocking receive attempt on the delivery channel yielded.
pub enum Received {
    Job(Job),
    Empty,
    Disconnected,
}

/// Relies on `tokio::sync::mpsc::unbounded_channel`: a fresh connected
/// sender/receiver pair for the job queue.
#[verifier::external_body]
pub(crate) fn new_job_channel() -> (
    tokio::sync::mpsc::UnboundedSender<Job>,
    tokio::sync::mpsc::UnboundedReceiver<Job>,
) {
    tokio::sync::mpsc::unbounded_channel()
}

/// Relies on `std::sync::mpsc::channel`: a fresh connected sender/receiver
/// pair for the result delivery channel.
#[verifier::external_body]
pub(crate) fn new_result_channel() -> (
    std::sync::mpsc::Sender<Job>,
    std::sync::mpsc::Receiver<Job>,
) {
    std::sync::mpsc::channel()
}

/// Relies on `tokio::sync::mpsc::UnboundedSender::send`: never blocks, and
/// succeeds unless the receiving half has been dropped.
#[verifier::external_body]
pub(crate) fn send_job(tx: &tokio::sync::mpsc::UnboundedSender<Job>, job: Job) -> (r: bool) {
    tx.send(job).is_ok()
}

/// Relies on `std::sync::mpsc::Sender::send`: succeeds unless the receiving
/// half has been dropped. Only a completed, callback-bearing job may enter
/// the delivery channel: a fire-and-forget job has no consumer there.
#[verifier::external_body]
pub(crate) fn send_completed(tx: &std::sync::mpsc::Sender<Job>, job: Job) -> (r: bool)
    requires
        job.callback is Some,
        job.result is Some,
{
    tx.send(job).is_ok()
}

/// Relies on `std::sync::mpsc::Sender::clone`: another sender for the same
/// channel, for a worker task to deliver through.
#[verifier::external_body]
pub(crate) fn clone_result_sender(tx: &std::sync::mpsc::Sender<Job>) -> (r: std::sync::mpsc::Sender<Job>) {
    tx.clone()
}

/// Relies on `std::sync::mpsc::Receiver::try_recv`: never blocks; yields a
/// queued job if one is waiting, `Empty` if none is, and `Disconnected` once
/// every sender is gone and the channel is drained.
#[verifier::external_body]
pub(crate) fn try_recv_job(rx: &std::sync::mpsc::Receiver<Job>) -> (r: Received) {
    match rx.try_recv() {
        Ok(job) => Received::Job(job),
        Err(std::sync::mpsc::TryRecvError::Empty) => Received::Empty,
        Err(std::sync::mpsc::TryRecvError::Disconnected) => Received::Disconnected,
    }
}

} // verus!
