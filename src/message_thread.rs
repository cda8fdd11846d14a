use tokio::sync::mpsc::Sender;
use tokio::task::{JoinError, JoinHandle};
use vstd::prelude::*;

verus! {

/// A control message for a running scheduler.
#[derive(Debug)]
pub enum MessageThreadMessage {
    /// Stop the scheduler; whatever is still queued is dropped.
    ThreadShutdown,
    /// Append a message to the scheduler's queue.
    QueueMessage(String),
}

/// Returned by a shutdown of a scheduler that is not running.
#[derive(Debug, PartialEq, Eq, Structural)]
pub enum MessageThreadShutdownError {
    ThreadNotRunning,
}

#[verifier::external_type_specification]
#[verifier::external_body]
#[verifier::reject_recursive_types(T)]
pub struct ExJoinHandle<T>(JoinHandle<T>);

#[verifier::external_type_specification]
#[verifier::external_body]
#[verifier::reject_recursive_types(T)]
pub struct ExSender<T>(Sender<T>);

#[verifier::external_type_specification]
#[verifier::external_body]
pub struct ExJoinError(JoinError);

/// Relies on tokio's `JoinHandle::abort`: asks the runtime to cancel the task.
#[verifier::external_body]
fn abort_task(handle: &JoinHandle<()>) {
    handle.abort()
}

/// Relies on tokio's `Sender::try_send`: hands `message` to the channel without
/// waiting; it is dropped when the channel is full or closed.
#[verifier::external_body]
fn offer_message(sender: &Sender<MessageThreadMessage>, message: MessageThreadMessage) {
    let _ = sender.try_send(message);
}

/// The handle on the scheduler task: running, with the task's handle and the
/// sender of its control channel, or stopped.
#[derive(Debug)]
pub enum MessageThread {
    Running { handle: JoinHandle<()>, sender: Sender<MessageThreadMessage> },
    Stopped,
}

impl Default for MessageThread {
    fn default() -> (r: Self)
        ensures
            r == MessageThread::Stopped,
    {
        MessageThread::Stopped
    }
}

/// What a shutdown of `thread` returns.
pub open spec fn shutdown_outcome(thread: MessageThread) -> Result<(), MessageThreadShutdownError> {
    match thread {
        MessageThread::Running { .. } => Ok(()),
        MessageThread::Stopped => Err(MessageThreadShutdownError::ThreadNotRunning),
    }
}

impl MessageThread {
    pub open spec fn is_running(&self) -> bool {
        self is Running
    }

    /// Whether the scheduler task is running.
    pub fn is_running_now(&self) -> (r: bool)
        ensures
            r == self.is_running(),
    {
        match self {
            MessageThread::Running { .. } => true,
            MessageThread::Stopped => false,
        }
    }

    /// Stops a running scheduler: sends it `ThreadShutdown`, cancels its task,
    /// and leaves the handle stopped. On a stopped handle it returns
    /// `ThreadNotRunning` and changes nothing.
    pub fn shutdown(&mut self) -> (r: Result<(), MessageThreadShutdownError>)
        ensures
            r == shutdown_outcome(*old(self)),
            *final(self) == MessageThread::Stopped,
    {
        match self {
            MessageThread::Stopped => Err(MessageThreadShutdownError::ThreadNotRunning),
            MessageThread::Running { handle, sender } => {
                offer_message(sender, MessageThreadMessage::ThreadShutdown);
                abort_task(handle);
                *self = MessageThread::Stopped;
                Ok(())
            },
        }
    }

    /// Hands `message` to a running scheduler for its queue; best effort, and
    /// nothing at all when the scheduler is stopped.
    pub fn queue_message(&self, message: String) {
        match self {
            MessageThread::Running { sender, .. } => {
                offer_message(sender, MessageThreadMessage::QueueMessage(message));
            },
            MessageThread::Stopped => {},
        }
    }
}

/// Shutting down twice: the first call on a running scheduler succeeds, and the
/// second, on the handle that the first left, reports `ThreadNotRunning`.
pub proof fn lemma_shutdown_twice(thread: MessageThread)
    requires
        thread.is_running(),
    ensures
        shutdown_outcome(thread) == Ok::<(), MessageThreadShutdownError>(()),
        shutdown_outcome(MessageThread::Stopped) == Err::<(), MessageThreadShutdownError>(
            MessageThreadShutdownError::ThreadNotRunning,
        ),
{
}

} // verus!
