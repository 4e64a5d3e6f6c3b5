use vstd::prelude::*;

use crate::runtime::{CallbackMessage, SchedulerMessage};

use tokio::sync::mpsc::error::{SendError, TryRecvError};
use tokio::sync::mpsc::{UnboundedReceiver, UnboundedSender};

verus! {

#[verifier::external_type_specification]
#[verifier::external_body]
#[verifier::reject_recursive_types(T)]
pub struct ExUnboundedSender<T>(UnboundedSender<T>);

#[verifier::external_type_specification]
#[verifier::external_body]
#[verifier::reject_recursive_types(T)]
pub struct ExUnboundedReceiver<T>(UnboundedReceiver<T>);

#[verifier::external_type_specification]
#[verifier::external_body]
#[verifier::reject_recursive_types(T)]
pub struct ExSendError<T>(SendError<T>);

#[verifier::external_type_specification]
#[verifier::external_body]
pub struct ExTryRecvError(TryRecvError);

/// Relies on tokio's `mpsc::unbounded_channel`: a fresh connected pair; it
/// never panics.
pub assume_specification<T>[ tokio::sync::mpsc::unbounded_channel::<T> ]() -> (UnboundedSender<T>, UnboundedReceiver<T>);

/// Relies on tokio's `UnboundedSender::send`: queues the message, or hands it
/// back when the receiver is gone; it never blocks or panics.
pub assume_specification<T>[ UnboundedSender::<T>::send ](tx: &UnboundedSender<T>, message: T) -> Result<(), SendError<T>>;

/// Relies on tokio's `UnboundedSender::clone`: another sender on the same channel.
pub assume_specification<T>[ <UnboundedSender<T> as Clone>::clone ](tx: &UnboundedSender<T>) -> UnboundedSender<T>;

/// Relies on tokio's `UnboundedReceiver::try_recv`: takes a queued message if
/// there is one, without waiting.
pub assume_specification<T>[ UnboundedReceiver::<T>::try_recv ](rx: &mut UnboundedReceiver<T>) -> Result<T, TryRecvError>;

/// Relies on tokio's `UnboundedReceiver::len`: the number of queued messages
/// at the time of the call.
pub assume_specification<T>[ UnboundedReceiver::<T>::len ](rx: &UnboundedReceiver<T>) -> usize;

/// The ends of the two channels between the script side and the task
/// executor. The executor's ends are handed out once.
pub struct Bridge {
    scheduler_tx: UnboundedSender<SchedulerMessage>,
    scheduler_rx: Option<UnboundedReceiver<SchedulerMessage>>,
    callback_tx: Option<UnboundedSender<CallbackMessage>>,
    callback_rx: UnboundedReceiver<CallbackMessage>,
    sent: Ghost<Seq<SchedulerMessage>>,
}

impl Bridge {
    /// Whether the executor's ends have been handed out.
    pub closed spec fn started(&self) -> bool {
        self.scheduler_rx is None
    }

    /// The requests sent through this bridge, in order.
    pub closed spec fn sent(&self) -> Seq<SchedulerMessage> {
        self.sent@
    }

    pub closed spec fn wf(&self) -> bool {
        (self.scheduler_rx is None) == (self.callback_tx is None)
    }

    pub fn new() -> (r: Bridge)
        ensures
            r.wf(),
            !r.started(),
            r.sent() == Seq::<SchedulerMessage>::empty(),
    {
        let (scheduler_tx, scheduler_rx) = tokio::sync::mpsc::unbounded_channel();
        let (callback_tx, callback_rx) = tokio::sync::mpsc::unbounded_channel();
        Bridge {
            scheduler_tx,
            scheduler_rx: Some(scheduler_rx),
            callback_tx: Some(callback_tx),
            callback_rx,
            sent: Ghost(Seq::empty()),
        }
    }

    /// Another sender of requests, for the native bindings.
    pub fn request_sender(&self) -> UnboundedSender<SchedulerMessage> {
        self.scheduler_tx.clone()
    }

    /// Sends one request to the scheduler; false if the scheduler is gone.
    pub fn request(&mut self, msg: SchedulerMessage) -> (delivered: bool)
        ensures
            final(self).wf() == old(self).wf(),
            final(self).started() == old(self).started(),
            final(self).sent() == old(self).sent().push(msg),
    {
        let ghost m = msg;
        let delivered = self.scheduler_tx.send(msg).is_ok();
        self.sent = Ghost(self.sent@.push(m));
        delivered
    }

    /// Asks the scheduler to abort its tasks and stop. Does not wait for it.
    pub fn shutdown(&mut self)
        ensures
            final(self).wf() == old(self).wf(),
            final(self).started() == old(self).started(),
            final(self).sent() == old(self).sent().push(SchedulerMessage::Shutdown),
    {
        let _ = self.request(SchedulerMessage::Shutdown);
    }

    /// Hands out the executor's ends: the requests to take and the sender of
    /// completions. Only the first call gets them.
    pub fn take_executor_ends(&mut self) -> (r: Option<
        (UnboundedReceiver<SchedulerMessage>, UnboundedSender<CallbackMessage>),
    >)
        requires
            old(self).wf(),
        ensures
            final(self).wf(),
            final(self).started(),
            r is Some <==> !old(self).started(),
            final(self).sent() == old(self).sent(),
    {
        match (self.scheduler_rx.take(), self.callback_tx.take()) {
            (Some(rx), Some(tx)) => Some((rx, tx)),
            _ => None,
        }
    }

    /// Takes the completions queued at the time of the call, in the order they
    /// arrived, without waiting for more.
    pub fn drain_completions(&mut self) -> (r: Vec<CallbackMessage>)
        ensures
            final(self).wf() == old(self).wf(),
            final(self).started() == old(self).started(),
            final(self).sent() == old(self).sent(),
    {
        let queued = self.callback_rx.len();
        let mut drained: Vec<CallbackMessage> = Vec::new();
        let mut i: usize = 0;
        while i < queued
            invariant
                i <= queued,
                self.scheduler_rx == old(self).scheduler_rx,
                self.callback_tx == old(self).callback_tx,
                self.sent == old(self).sent,
            decreases queued - i,
        {
            match self.callback_rx.try_recv() {
                Ok(msg) => drained.push(msg),
                Err(_) => break,
            }
            i += 1;
        }
        drained
    }
}

} // verus!
