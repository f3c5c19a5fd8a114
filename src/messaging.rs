use vstd::prelude::*;

use crate::action::converted;
use crate::message::Message;

verus! {

/// The sending half of a bounded futures_channel::mpsc channel, opaque here
#[verifier::external_type_specification]
#[verifier::external_body]
#[verifier::reject_recursive_types(T)]
pub struct ExSender<T>(futures_channel::mpsc::Sender<T>);

/// The receiving half of a bounded futures_channel::mpsc channel, opaque here
#[verifier::external_type_specification]
#[verifier::external_body]
#[verifier::reject_recursive_types(T)]
pub struct ExReceiver<T>(futures_channel::mpsc::Receiver<T>);

/// Message sender for submitting messages
pub type MessageSender<Intent, Effect> = futures_channel::mpsc::Sender<Message<Intent, Effect>>;

/// Message receiver for consuming messages
pub type MessageReceiver<Intent, Effect> = futures_channel::mpsc::Receiver<Message<Intent, Effect>>;

/// Buffered, multi-producer, single-consumer message channel
pub type MessageChannel<Intent, Effect> = (MessageSender<Intent, Effect>, MessageReceiver<Intent, Effect>);

/// The largest capacity that a message channel can be created with
pub const MAX_CAPACITY: usize = usize::MAX >> 2;

/// Relies on futures_channel::mpsc::channel, which panics unless
/// `buffer` is below a quarter of the address space.
#[verifier::external_body]
fn bounded_channel<T>(buffer: usize) -> (futures_channel::mpsc::Sender<T>, futures_channel::mpsc::Receiver<T>)
    requires
        buffer < usize::MAX >> 2,
{
    futures_channel::mpsc::channel(buffer)
}

/// Outcome of a non-blocking enqueue
pub enum Enqueued<T> {
    /// The message is in the channel
    Sent,
    /// The channel is full and the message was handed back
    Full(T),
    /// The receiver is gone and the message was handed back
    Closed(T),
}

/// Relies on futures_channel::mpsc::Sender::try_send, which never blocks
/// and hands a message back on failure, with whether the channel was full
/// or disconnected. Its only panics guard a count of queued messages above
/// half the address space.
#[verifier::external_body]
fn try_send<T>(tx: &mut futures_channel::mpsc::Sender<T>, message: T) -> (r: Enqueued<T>)
    ensures
        r matches Enqueued::Full(m) ==> m == message,
        r matches Enqueued::Closed(m) ==> m == message,
{
    match tx.try_send(message) {
        Ok(()) => Enqueued::Sent,
        Err(err) if err.is_disconnected() => Enqueued::Closed(err.into_inner()),
        Err(err) => Enqueued::Full(err.into_inner()),
    }
}

/// Outcome of a non-blocking dequeue
pub enum Dequeued<T> {
    /// The next message in the channel
    Message(T),
    /// The channel holds no message but is still open
    Empty,
    /// The channel holds no message and is closed
    Closed,
}

/// Relies on futures_channel::mpsc::Receiver::try_recv, which never blocks:
/// the next queued message, or whether the channel is empty or closed.
#[verifier::external_body]
pub(crate) fn try_recv<T>(rx: &mut futures_channel::mpsc::Receiver<T>) -> Dequeued<T> {
    match rx.try_recv() {
        Ok(message) => Dequeued::Message(message),
        Err(futures_channel::mpsc::TryRecvError::Empty) => Dequeued::Empty,
        Err(futures_channel::mpsc::TryRecvError::Closed) => Dequeued::Closed,
    }
}

/// Relies on futures_channel::mpsc::Sender::clone: a further sender of
/// the same channel. It panics only once a quarter of the address space
/// of senders are outstanding, which no program reaches.
#[verifier::external_body]
fn clone_sender<T>(tx: &futures_channel::mpsc::Sender<T>) -> futures_channel::mpsc::Sender<T> {
    tx.clone()
}

/// Create a buffered message channel
///
/// Messages are consumed in the order in which they were sent, by a single
/// [`MessageReceiver`]. A single sender can have `capacity` messages in
/// flight; each clone of the sender adds one guaranteed slot.
pub fn message_channel<Intent, Effect>(capacity: usize) -> (r: MessageChannel<Intent, Effect>)
    requires
        1 <= capacity <= MAX_CAPACITY,
{
    bounded_channel(capacity - 1)
}

/// Domain-specific wrapper around a [`MessageSender`]
///
/// Submitting a message is a fire-and-forget operation: a message that the
/// channel cannot take because it is full or closed is dropped.
#[verifier::reject_recursive_types(Intent)]
#[verifier::reject_recursive_types(Effect)]
pub struct MessagePort<Intent, Effect> {
    message_tx: MessageSender<Intent, Effect>,
    history: Ghost<Seq<Message<Intent, Effect>>>,
}

impl<Intent, Effect> MessagePort<Intent, Effect> {
    /// Every message that was submitted through this port, in order
    pub closed spec fn submitted(&self) -> Seq<Message<Intent, Effect>> {
        self.history@
    }

    /// The sender that this port submits through
    pub closed spec fn sender(&self) -> MessageSender<Intent, Effect> {
        self.message_tx
    }

    /// Create a new instance
    pub fn new(message_tx: MessageSender<Intent, Effect>) -> (r: Self)
        ensures
            r.submitted() == Seq::<Message<Intent, Effect>>::empty(),
            r.sender() == message_tx,
    {
        Self { message_tx, history: Ghost(Seq::empty()) }
    }

    /// Obtain the inner [`MessageSender`] for the channel
    pub fn into_inner(self) -> (r: MessageSender<Intent, Effect>)
        ensures
            r == self.sender(),
    {
        let Self { message_tx, .. } = self;
        message_tx
    }

    /// Enqueue a message into the channel, or hand it back when the channel
    /// is full or closed
    ///
    /// The outcome is only for reporting: a message that was handed back is
    /// dropped all the same.
    pub fn try_submit(&mut self, message: Message<Intent, Effect>) -> (r: Enqueued<Message<Intent, Effect>>)
        ensures
            final(self).submitted() == old(self).submitted().push(message),
            r matches Enqueued::Full(m) ==> m == message,
            r matches Enqueued::Closed(m) ==> m == message,
    {
        let ghost submitted = self.submitted();
        let r = try_send(&mut self.message_tx, message);
        self.history = Ghost(submitted.push(message));
        r
    }

    /// Enqueue a message into the channel, or drop it when the channel is
    /// full or closed
    pub fn submit(&mut self, message: Message<Intent, Effect>)
        ensures
            final(self).submitted() == old(self).submitted().push(message),
    {
        let _outcome = self.try_submit(message);
    }

    /// Enqueue a message into the channel
    ///
    /// See also: [`Self::submit`]
    pub fn submit_message<M: Into<Message<Intent, Effect>>>(&mut self, message: M)
        ensures
            final(self).submitted().len() == old(self).submitted().len() + 1,
            final(self).submitted().drop_last() == old(self).submitted(),
            converted(message, final(self).submitted().last()),
    {
        self.submit(message.into());
    }

    /// Submit an intent
    pub fn submit_intent<I: Into<Intent>>(&mut self, intent: I)
        ensures
            final(self).submitted().len() == old(self).submitted().len() + 1,
            final(self).submitted().drop_last() == old(self).submitted(),
            final(self).submitted().last() matches Message::Intent(i) && converted(intent, i),
    {
        self.submit(Message::Intent(intent.into()));
    }

    /// Submit an effect
    pub fn submit_effect<E: Into<Effect>>(&mut self, effect: E)
        ensures
            final(self).submitted().len() == old(self).submitted().len() + 1,
            final(self).submitted().drop_last() == old(self).submitted(),
            final(self).submitted().last() matches Message::Effect(e) && converted(effect, e),
    {
        self.submit(Message::Effect(effect.into()));
    }
}

impl<Intent, Effect> Clone for MessagePort<Intent, Effect> {
    /// A port into the same channel, with nothing submitted through it yet
    fn clone(&self) -> (r: Self)
        ensures
            r.submitted() == Seq::<Message<Intent, Effect>>::empty(),
    {
        Self { message_tx: clone_sender(&self.message_tx), history: Ghost(Seq::empty()) }
    }
}

} // verus!
