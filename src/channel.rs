use vstd::prelude::*;

use tokio::sync::mpsc;
use tokio::sync::oneshot;

use crate::config::{Config, MAX_CAPACITY};
use crate::outcome::Outcome;

verus! {

/// tokio's single-use sending end, carried through opaquely.
#[verifier::external_type_specification]
#[verifier::external_body]
#[verifier::reject_recursive_types(T)]
pub struct ExOneshotSender<T>(oneshot::Sender<T>);

/// tokio's single-use receiving end, carried through opaquely.
#[verifier::external_type_specification]
#[verifier::external_body]
#[verifier::reject_recursive_types(T)]
pub struct ExOneshotReceiver<T>(oneshot::Receiver<T>);

/// The error a single-use receiver yields when its sender is dropped.
#[verifier::external_type_specification]
#[verifier::external_body]
pub struct ExOneshotRecvError(oneshot::error::RecvError);

/// tokio's bounded multi-producer queue, sending end.
#[verifier::external_type_specification]
#[verifier::external_body]
#[verifier::reject_recursive_types(T)]
pub struct ExMpscSender<T>(mpsc::Sender<T>);

/// tokio's bounded multi-producer queue, receiving end.
#[verifier::external_type_specification]
#[verifier::external_body]
#[verifier::reject_recursive_types(T)]
pub struct ExMpscReceiver<T>(mpsc::Receiver<T>);

/// Relies on tokio's `oneshot::channel`: a fresh single-use channel; it never panics.
pub assume_specification<T>[ oneshot::channel::<T> ]() -> (oneshot::Sender<T>, oneshot::Receiver<T>);

/// Relies on tokio's `oneshot::Sender::send`: it never waits, and when the
/// receiver is gone it hands the value back unchanged in `Err`.
pub assume_specification<T>[ oneshot::Sender::<T>::send ](tx: oneshot::Sender<T>, t: T) -> (r:
    Result<(), T>)
    ensures
        r matches Err(v) ==> v == t,
;

/// The number of submissions the queue behind `tx` was built to hold.
pub uninterp spec fn queue_bound(tx: mpsc::Sender<Submission>) -> usize;

/// Relies on tokio's `mpsc::channel`: a queue whose bound is `capacity`. It
/// panics on a zero capacity and on one above its semaphore's limit.
#[verifier::external_body]
fn bounded_queue(capacity: usize) -> (r: (mpsc::Sender<Submission>, mpsc::Receiver<Submission>))
    requires
        0 < capacity <= MAX_CAPACITY,
    ensures
        queue_bound(r.0) == capacity,
{
    mpsc::channel(capacity)
}

/// Relies on tokio's `mpsc::Sender::max_capacity`: the bound the queue was
/// built with, which never changes.
#[verifier::external_body]
fn sender_bound(tx: &mpsc::Sender<Submission>) -> (r: usize)
    ensures
        r == queue_bound(*tx),
{
    tx.max_capacity()
}

/// One job as the dispatcher receives it: the script to run and the channel
/// on which its single outcome goes back to the waiting caller.
pub struct Submission {
    pub identifier: String,
    pub reply: oneshot::Sender<Outcome>,
}

impl Submission {
    /// A submission for `identifier`, with the receiving end of its reply channel.
    pub fn new(identifier: String) -> (r: (Submission, oneshot::Receiver<Outcome>))
        ensures
            r.0.identifier@ == identifier@,
    {
        let (tx, rx) = oneshot::channel();
        (Submission { identifier, reply: tx }, rx)
    }
}

/// The bounded queue between request handlers and the dispatcher, holding at
/// most `config.capacity` outstanding submissions.
pub fn submission_channel(config: &Config) -> (r: (
    mpsc::Sender<Submission>,
    mpsc::Receiver<Submission>,
))
    requires
        config.wf(),
    ensures
        queue_bound(r.0) == config.capacity,
{
    bounded_queue(config.capacity)
}

/// How many submissions the queue behind `tx` holds before submitters wait.
pub fn queue_capacity(tx: &mpsc::Sender<Submission>) -> (r: usize)
    ensures
        r == queue_bound(*tx),
{
    sender_bound(tx)
}

/// What became of an outcome sent back to its caller.
#[derive(Clone, Copy, Debug, PartialEq, Eq, Structural)]
pub enum Delivery {
    /// The caller was still waiting and has been handed the outcome.
    Delivered,
    /// The caller had gone away; the outcome is returned and nothing else happens.
    CallerGone { outcome: Outcome },
}

/// Sends `outcome` to the caller waiting on `reply`. A caller that has
/// disconnected makes this a no-op: it never panics and never waits.
pub fn deliver(reply: oneshot::Sender<Outcome>, outcome: Outcome) -> (r: Delivery)
    ensures
        r matches Delivery::CallerGone { outcome: o } ==> o == outcome,
{
    match reply.send(outcome) {
        Ok(()) => Delivery::Delivered,
        Err(o) => Delivery::CallerGone { outcome: o },
    }
}

} // verus!
