//! The relay between the host's callback thread and the UI thread: two
//! bounded channels, one in each direction, and the slot that holds the UI
//! thread's join handle.

use crate::ui::PluginMessage;
use crate::ui::UIMessage;
use tokio::sync::mpsc::error::SendError;
use tokio::sync::mpsc::error::TryRecvError;
use tokio::sync::mpsc::Receiver;
use tokio::sync::mpsc::Sender;
use vstd::prelude::*;

verus! {

/// The sending half of a bounded `tokio` channel. Nothing of it is visible
/// to contracts.
#[verifier::external_type_specification]
#[verifier::external_body]
#[verifier::reject_recursive_types(T)]
pub struct ExSender<T>(Sender<T>);

/// The receiving half of a bounded `tokio` channel. Nothing of it is visible
/// to contracts.
#[verifier::external_type_specification]
#[verifier::external_body]
#[verifier::reject_recursive_types(T)]
pub struct ExReceiver<T>(Receiver<T>);

/// The error of a send on a closed channel, which hands the value back.
#[verifier::external_type_specification]
#[verifier::external_body]
#[verifier::reject_recursive_types(T)]
pub struct ExSendError<T>(SendError<T>);

/// The reason why a poll of a channel gave no value: empty, or disconnected.
#[verifier::external_type_specification]
#[verifier::external_body]
pub struct ExTryRecvError(TryRecvError);

/// `tokio::sync::mpsc::channel` makes a bounded channel. It panics for a
/// buffer of zero and for one above an eighth of `usize::MAX`, so both are
/// left out. Nothing is claimed of the two halves.
pub assume_specification<T>[ tokio::sync::mpsc::channel::<T> ](buffer: usize) -> (halves: (
    Sender<T>,
    Receiver<T>,
))
    requires
        0 < buffer <= usize::MAX / 8,
;

/// `Sender::blocking_send` waits for room in the channel and sends. Whether
/// it succeeds depends on the receiving thread, so nothing is claimed of the
/// result. It must not be called from inside an asynchronous runtime, where
/// it panics.
pub assume_specification<T>[ Sender::<T>::blocking_send ](
    sender: &Sender<T>,
    value: T,
) -> (sent: Result<(), SendError<T>>)
;

/// `Receiver::try_recv` takes the next queued value if there is one. What is
/// queued depends on the sending thread, so nothing is claimed of the result.
pub assume_specification<T>[ Receiver::<T>::try_recv ](receiver: &mut Receiver<T>) -> (polled:
    Result<T, TryRecvError>)
;

/// How many messages each channel of the relay holds before a send waits.
pub const CHANNEL_CAPACITY: usize = 10;

/// Why a message did not reach the UI.
#[derive(Debug, Clone, Copy, PartialEq, Eq, Structural)]
pub enum RelayError {
    /// The UI thread has exited and closed its end of the channel.
    ChannelClosed,
}

/// What the UI thread is started with: its ends of the two channels and the
/// window's title.
#[derive(Debug)]
pub struct UIFlags {
    pub rx: Receiver<UIMessage>,
    pub tx: Sender<PluginMessage>,
    pub title: String,
}

/// What a shutdown hands back when a UI thread was attached.
#[derive(Debug)]
pub struct Stopping<J> {
    /// The join handle, released from the relay: the caller waits on it.
    pub thread: J,
    /// Whether the request to die reached the UI.
    pub sent: Result<(), RelayError>,
}

/// The host's side of the relay.
///
/// `J` is the join handle of the UI thread. At most one is attached at a
/// time.
#[derive(Debug)]
pub struct UIHandle<J> {
    thread_handle: Option<J>,
    tx: Sender<UIMessage>,
    rx: Receiver<PluginMessage>,
}

/// How a shutdown relates the thread slot before it (`attached`), what it
/// hands back and the slot after it (`left`): the slot is left empty; a
/// thread that was attached is handed back, together with how the request
/// to die went; with none attached nothing is handed back.
pub open spec fn shutdown_outcome<J>(
    attached: Option<J>,
    stopping: Option<Stopping<J>>,
    left: Option<J>,
) -> bool {
    &&& left is None
    &&& match attached {
        Some(thread) => stopping is Some && stopping.unwrap().thread == thread,
        None => stopping is None,
    }
}

/// What a send amounts to for the host: success, or a closed channel.
pub open spec fn send_outcome_spec<T>(sent: Result<(), SendError<T>>) -> Result<(), RelayError> {
    match sent {
        Ok(_) => Ok(()),
        Err(_) => Err(RelayError::ChannelClosed),
    }
}

/// Turns the channel's answer to a send into the relay's own.
pub fn send_outcome<T>(sent: Result<(), SendError<T>>) -> (outcome: Result<(), RelayError>)
    ensures
        outcome == send_outcome_spec(sent),
{
    match sent {
        Ok(_) => Ok(()),
        Err(_) => Err(RelayError::ChannelClosed),
    }
}

/// The messages drained so far, after one more poll of the channel: a
/// message is appended, anything else leaves them as they are.
pub open spec fn drained_after<E>(
    drained: Seq<PluginMessage>,
    polled: Result<PluginMessage, E>,
) -> Seq<PluginMessage> {
    match polled {
        Ok(message) => drained.push(message),
        Err(_) => drained,
    }
}

/// Whether a drain polls again: only after a message, and only while fewer
/// than the channel's capacity were taken.
pub open spec fn drain_goes_on<E>(
    drained: Seq<PluginMessage>,
    polled: Result<PluginMessage, E>,
) -> bool {
    polled is Ok && drained.len() + 1 < CHANNEL_CAPACITY
}

/// Takes one poll's answer into the drained messages and says whether to
/// poll again.
pub fn drain_step(drained: &mut Vec<PluginMessage>, polled: Result<PluginMessage, TryRecvError>) -> (again:
    bool)
    ensures
        final(drained)@ == drained_after(old(drained)@, polled),
        again == drain_goes_on(old(drained)@, polled),
{
    match polled {
        Ok(message) => {
            drained.push(message);
            drained.len() < CHANNEL_CAPACITY
        },
        Err(_) => false,
    }
}

impl<J> UIHandle<J> {
    /// The join handle of the attached UI thread, if there is one.
    pub closed spec fn thread(&self) -> Option<J> {
        self.thread_handle
    }

    /// Makes both channels and returns the host's side, with no thread
    /// attached yet, and what the UI thread is to be started with.
    pub fn new(title: &str) -> (made: (Self, UIFlags))
        ensures
            made.0.thread() is None,
            made.1.title@ == title@,
    {
        let (ui_tx, ui_rx) = tokio::sync::mpsc::channel::<UIMessage>(CHANNEL_CAPACITY);
        let (plugin_tx, plugin_rx) = tokio::sync::mpsc::channel::<PluginMessage>(CHANNEL_CAPACITY);
        let zelf = Self { thread_handle: None, tx: ui_tx, rx: plugin_rx };
        let flags = UIFlags { rx: ui_rx, tx: plugin_tx, title: title.to_owned() };
        (zelf, flags)
    }

    /// Attaches the UI thread's join handle. A relay that has one already
    /// keeps it and hands the new one back.
    pub fn attach(&mut self, thread: J) -> (refused: Option<J>)
        ensures
            old(self).thread() is None ==> refused is None && final(self).thread() == Some(thread),
            old(self).thread() is Some ==> refused == Some(thread) && final(self).thread() == old(
                self,
            ).thread(),
    {
        if self.thread_handle.is_none() {
            self.thread_handle = Some(thread);
            None
        } else {
            Some(thread)
        }
    }

    /// Whether a UI thread is attached.
    pub fn is_attached(&self) -> (attached: bool)
        ensures
            attached == self.thread() is Some,
    {
        self.thread_handle.is_some()
    }

    /// Sends a message to the UI, waiting for room in the channel.
    ///
    /// Fails with `ChannelClosed` when the UI thread has closed its end.
    pub fn send_sync(&self, message: UIMessage) -> (outcome: Result<(), RelayError>)
        ensures
            outcome is Err ==> outcome == Err::<(), RelayError>(RelayError::ChannelClosed),
    {
        send_outcome(self.tx.blocking_send(message))
    }

    /// Takes the messages that the UI has queued, oldest first, without
    /// waiting: polling stops at the first poll that gives none, and after
    /// as many messages as the channel holds.
    pub fn try_drain(&mut self) -> (drained: Vec<PluginMessage>)
        ensures
            drained@.len() <= CHANNEL_CAPACITY,
            final(self).thread() == old(self).thread(),
    {
        let mut drained: Vec<PluginMessage> = Vec::new();
        let mut again = true;
        while again
            invariant
                again ==> drained@.len() < CHANNEL_CAPACITY,
                drained@.len() <= CHANNEL_CAPACITY,
                self.thread() == old(self).thread(),
            decreases CHANNEL_CAPACITY - drained@.len(), again as int,
        {
            let polled = self.rx.try_recv();
            again = drain_step(&mut drained, polled);
        }
        drained
    }

    /// Releases the join handle, if one is attached, for the caller to wait
    /// on. With none attached nothing changes.
    pub fn join(&mut self) -> (thread: Option<J>)
        ensures
            thread == old(self).thread(),
            final(self).thread() is None,
    {
        self.thread_handle.take()
    }

    /// Shuts the UI down: with a thread attached, asks the UI to die and
    /// releases the join handle for the caller to wait on; with none, does
    /// nothing.
    pub fn shutdown(&mut self) -> (stopping: Option<Stopping<J>>)
        ensures
            shutdown_outcome(old(self).thread(), stopping, final(self).thread()),
    {
        match self.thread_handle.take() {
            Some(thread) => {
                let sent = self.send_sync(UIMessage::Die);
                Some(Stopping { thread, sent })
            },
            None => None,
        }
    }
}

/// A shutdown and then another: the second finds no thread, so it hands
/// nothing back and leaves the slot as the first left it, empty.
pub proof fn lemma_shutdown_twice<J>(
    attached: Option<J>,
    first: Option<Stopping<J>>,
    between: Option<J>,
    second: Option<Stopping<J>>,
    after: Option<J>,
)
    requires
        shutdown_outcome(attached, first, between),
        shutdown_outcome(between, second, after),
    ensures
        second is None,
        after == between,
        after is None,
{
}

/// Polling an empty channel drains nothing and ends the drain.
pub proof fn lemma_drain_of_nothing<E>(polled: Result<PluginMessage, E>)
    requires
        polled is Err,
    ensures
        drained_after(Seq::empty(), polled) == Seq::<PluginMessage>::empty(),
        !drain_goes_on(Seq::empty(), polled),
{
}

} // verus!
