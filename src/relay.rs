//! Command Relay and Response Correlator.
//!
//! HTTP-side producers put commands on a bounded queue; the UI thread owns
//! the only receiving end, runs each script and answers through the
//! command's single-use reply slot.
use vstd::prelude::*;
use tokio::sync::{mpsc, oneshot};
use crate::types::EvalResponse;

verus! {

/// `tokio::sync::oneshot::Sender`, held opaque.
#[verifier::external_type_specification]
#[verifier::external_body]
#[verifier::reject_recursive_types(T)]
pub struct ExOneshotSender<T>(oneshot::Sender<T>);

/// `tokio::sync::oneshot::Receiver`, held opaque.
#[verifier::external_type_specification]
#[verifier::external_body]
#[verifier::reject_recursive_types(T)]
pub struct ExOneshotReceiver<T>(oneshot::Receiver<T>);

/// `tokio::sync::oneshot::error::RecvError`, held opaque; the receiver's
/// `Future` impl names it, so declaring the receiver needs it too.
#[verifier::external_type_specification]
#[verifier::external_body]
pub struct ExOneshotRecvError(oneshot::error::RecvError);

/// `tokio::sync::mpsc::Sender`, held opaque.
#[verifier::external_type_specification]
#[verifier::external_body]
#[verifier::reject_recursive_types(T)]
pub struct ExMpscSender<T>(mpsc::Sender<T>);

/// `tokio::sync::mpsc::Receiver`, held opaque.
#[verifier::external_type_specification]
#[verifier::external_body]
#[verifier::reject_recursive_types(T)]
pub struct ExMpscReceiver<T>(mpsc::Receiver<T>);

/// Relies on `tokio::sync::oneshot::channel`: a fresh, unshared pair.
pub assume_specification<T>[ oneshot::channel::<T> ]() -> (oneshot::Sender<T>, oneshot::Receiver<T>);

/// Relies on `tokio::sync::oneshot::Sender::send`: it consumes the sender;
/// when the receiver is gone the value comes back unchanged in `Err`.
pub assume_specification<T>[ oneshot::Sender::<T>::send ](s: oneshot::Sender<T>, t: T) -> (r: Result<(), T>)
    ensures
        r is Err ==> r->Err_0 == t,
;

/// Relies on `tokio::sync::mpsc::channel`, which panics on a capacity of
/// zero or above its semaphore's `MAX_PERMITS`, `usize::MAX >> 3`.
pub assume_specification<T>[ mpsc::channel::<T> ](buffer: usize) -> (mpsc::Sender<T>, mpsc::Receiver<T>)
    requires
        0 < buffer <= usize::MAX >> 3,
;

/// Capacity of the relay queue.
pub const RELAY_CAPACITY: usize = 32;

/// Largest capacity that a relay queue can have.
pub const MAX_RELAY_CAPACITY: usize = usize::MAX >> 3;

/// Why a reply was not accepted.
#[derive(Debug, PartialEq, Eq, Structural)]
pub enum ReplyError {
    /// The slot was already used: a command is answered at most once.
    AlreadyFulfilled,
}

/// The single-use slot through which the UI side answers one command.
pub struct ReplySlot {
    tx: Option<oneshot::Sender<EvalResponse>>,
}

impl ReplySlot {
    /// Whether the slot has been used.
    pub closed spec fn is_spent(&self) -> bool {
        self.tx is None
    }

    /// Answer the command. The first call hands `response` to the waiting
    /// caller and returns whether a caller was still waiting (an abandoned
    /// caller's answer is dropped without error); every later call is
    /// rejected and changes nothing.
    pub fn send(&mut self, response: EvalResponse) -> (r: Result<bool, ReplyError>)
        ensures
            final(self).is_spent(),
            old(self).is_spent() <==> r == Err::<bool, ReplyError>(ReplyError::AlreadyFulfilled),
    {
        match self.tx.take() {
            None => Err(ReplyError::AlreadyFulfilled),
            Some(tx) => match tx.send(response) {
                Ok(()) => Ok(true),
                Err(_) => Ok(false),
            },
        }
    }
}

/// One script together with the slot for its answer.
pub struct EvalCommand {
    /// The script to run in the webview.
    pub script: String,
    /// Where the UI side sends the outcome.
    pub response_tx: ReplySlot,
}

/// A command for `script`, unanswered, and the receiver of its answer.
pub fn new_command(script: String) -> (r: (EvalCommand, oneshot::Receiver<EvalResponse>))
    ensures
        r.0.script == script,
        !r.0.response_tx.is_spent(),
{
    let (tx, rx) = oneshot::channel();
    (EvalCommand { script, response_tx: ReplySlot { tx: Some(tx) } }, rx)
}

/// What an attempt to queue a command without waiting gave.
pub enum SendAttempt {
    /// The command is in the queue.
    Queued,
    /// The queue is at capacity; the command is handed back.
    Full(EvalCommand),
    /// The receiving side is gone; the command is handed back.
    Closed(EvalCommand),
}

/// Relies on `tokio::sync::mpsc::Sender::try_send`: `Ok` queues the message;
/// `TrySendError::Full` and `TrySendError::Closed` hand the same message back.
#[verifier::external_body]
fn offer(tx: &mpsc::Sender<EvalCommand>, cmd: EvalCommand) -> (r: SendAttempt)
    ensures
        r matches SendAttempt::Full(c) ==> c == cmd,
        r matches SendAttempt::Closed(c) ==> c == cmd,
{
    match tx.try_send(cmd) {
        Ok(()) => SendAttempt::Queued,
        Err(mpsc::error::TrySendError::Full(c)) => SendAttempt::Full(c),
        Err(mpsc::error::TrySendError::Closed(c)) => SendAttempt::Closed(c),
    }
}

/// Result of enqueueing a command.
pub enum Enqueue {
    /// The command is on the queue; its answer arrives on the receiver that
    /// was made with it.
    Queued,
    /// The queue is at capacity; the command is handed back for the caller
    /// to wait for room with.
    Full(EvalCommand),
    /// The UI side is gone; nothing was queued and the command is handed
    /// back.
    Unavailable(EvalCommand),
}

/// The decision after one attempt to queue: a closed relay fails at once,
/// a full one hands the command back for the caller to wait with.
pub fn settle_attempt(attempt: SendAttempt) -> (r: Enqueue)
    ensures
        (attempt is Queued) == (r is Queued),
        attempt matches SendAttempt::Full(c) ==> r == Enqueue::Full(c),
        attempt matches SendAttempt::Closed(c) ==> r == Enqueue::Unavailable(c),
{
    match attempt {
        SendAttempt::Queued => Enqueue::Queued,
        SendAttempt::Full(c) => Enqueue::Full(c),
        SendAttempt::Closed(c) => Enqueue::Unavailable(c),
    }
}

/// The sending end of the relay, shared by all HTTP handlers.
pub struct Relay {
    tx: mpsc::Sender<EvalCommand>,
}

impl Relay {
    /// A relay of the given capacity and the queue's only receiving end,
    /// which belongs to the UI side.
    pub fn open(capacity: usize) -> (r: (Relay, mpsc::Receiver<EvalCommand>))
        requires
            0 < capacity <= MAX_RELAY_CAPACITY,
    {
        let (tx, rx) = mpsc::channel(capacity);
        (Relay { tx }, rx)
    }

    /// The queue's sending end, for a caller that waits for room.
    pub fn sender(&self) -> &mpsc::Sender<EvalCommand> {
        &self.tx
    }

    /// Put `cmd`, made by [`new_command`], on the queue without waiting.
    /// When it is not queued, the very same command comes back: the queue is
    /// full, or the UI side is gone.
    pub fn try_enqueue(&self, cmd: EvalCommand) -> (r: Enqueue)
        ensures
            r matches Enqueue::Full(c) ==> c == cmd,
            r matches Enqueue::Unavailable(c) ==> c == cmd,
    {
        settle_attempt(offer(&self.tx, cmd))
    }
}

} // verus!
