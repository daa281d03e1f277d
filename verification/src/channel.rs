//! The channels between the tasks of the proxy.
//!
//! Every channel is one of tokio's. The halves that this module adds to tokio's own carry ghost
//! values: which channel an end was made for, and which messages were handed to a sender.

use crate::replied::{reply_send, Replied};
use tokio::sync::mpsc;
use tokio::sync::oneshot;
use vstd::prelude::*;

verus! {

/// `tokio::sync::mpsc::UnboundedSender`, carried as it is.
#[verifier::external_type_specification]
#[verifier::external_body]
#[verifier::reject_recursive_types(T)]
pub struct ExUnboundedSender<T>(mpsc::UnboundedSender<T>);

/// `tokio::sync::mpsc::UnboundedReceiver`, carried as it is.
#[verifier::external_type_specification]
#[verifier::external_body]
#[verifier::reject_recursive_types(T)]
pub struct ExUnboundedReceiver<T>(mpsc::UnboundedReceiver<T>);

/// `tokio::sync::mpsc::Sender`, carried as it is.
#[verifier::external_type_specification]
#[verifier::external_body]
#[verifier::reject_recursive_types(T)]
pub struct ExBoundedSender<T>(mpsc::Sender<T>);

/// `tokio::sync::mpsc::Receiver`, carried as it is.
#[verifier::external_type_specification]
#[verifier::external_body]
#[verifier::reject_recursive_types(T)]
pub struct ExBoundedReceiver<T>(mpsc::Receiver<T>);

/// `tokio::sync::mpsc::error::SendError`, carried as it is.
#[verifier::external_type_specification]
#[verifier::external_body]
#[verifier::reject_recursive_types(T)]
pub struct ExSendError<T>(mpsc::error::SendError<T>);

/// `tokio::sync::oneshot::Sender`, carried as it is.
#[verifier::external_type_specification]
#[verifier::external_body]
#[verifier::reject_recursive_types(T)]
pub struct ExReplySender<T>(oneshot::Sender<T>);

/// `tokio::sync::oneshot::Receiver`, carried as it is.
#[verifier::external_type_specification]
#[verifier::external_body]
#[verifier::reject_recursive_types(T)]
pub struct ExReplyReceiver<T>(oneshot::Receiver<T>);

/// `tokio::sync::oneshot::error::RecvError`, carried as it is.
#[verifier::external_type_specification]
#[verifier::external_body]
pub struct ExRecvError(oneshot::error::RecvError);

/// A handle on the sending end of an unbounded channel, with the record of what was handed to it.
#[verifier::reject_recursive_types(T)]
pub struct UnboundedTx<T> {
    sender: mpsc::UnboundedSender<T>,
    channel: Ghost<mpsc::UnboundedSender<T>>,
    offered: Ghost<Seq<T>>,
    taken: Ghost<Seq<T>>,
    handles: Ghost<nat>,
}

/// The receiving end of an unbounded channel.
#[verifier::reject_recursive_types(T)]
pub struct UnboundedRx<T> {
    receiver: mpsc::UnboundedReceiver<T>,
    channel: Ghost<mpsc::UnboundedSender<T>>,
    made: Ghost<mpsc::UnboundedReceiver<T>>,
}

/// The receiving end of a bounded channel.
#[verifier::reject_recursive_types(T)]
pub struct BoundedRx<T> {
    receiver: mpsc::Receiver<T>,
    channel: Ghost<mpsc::Sender<T>>,
    capacity: Ghost<nat>,
    made: Ghost<mpsc::Receiver<T>>,
}

/// The end of a oneshot channel on which one reply is awaited.
#[verifier::reject_recursive_types(T)]
pub struct ReplyRx<T> {
    receiver: oneshot::Receiver<T>,
    channel: Ghost<oneshot::Sender<T>>,
}

/// A reply together with the sender that it goes to.
#[verifier::reject_recursive_types(T)]
pub struct Reply<T> {
    /// Where the reply goes.
    pub sender: oneshot::Sender<T>,
    /// What the reply is.
    pub value: T,
}

impl<T> UnboundedTx<T> {
    /// The channel of this handle, known by the first sender that it had.
    pub closed spec fn channel(&self) -> mpsc::UnboundedSender<T> {
        self.channel@
    }

    /// The messages handed to the channel through this handle, oldest first, whether or not the
    /// receiving end was still there to take them.
    pub closed spec fn offered(&self) -> Seq<T> {
        self.offered@
    }

    /// Those of the messages that the channel took, oldest first: the receiving end was there.
    pub closed spec fn taken(&self) -> Seq<T> {
        self.taken@
    }

    /// How many further handles on the channel were made from this one.
    pub closed spec fn handles(&self) -> nat {
        self.handles@
    }

    /// The sender itself.
    pub closed spec fn half(&self) -> mpsc::UnboundedSender<T> {
        self.sender
    }

    /// Both are one handle at different times, and no further handle was made from it in between.
    pub open spec fn same_handle(&self, other: &Self) -> bool {
        &&& self.channel() == other.channel()
        &&& self.half() == other.half()
        &&& self.handles() == other.handles()
    }

    /// A handle on the channel of `sender`.
    pub fn new(sender: mpsc::UnboundedSender<T>) -> (handle: Self)
        ensures
            handle.channel() == sender,
            handle.half() == sender,
            handle.handles() == 0,
            handle.offered() == Seq::<T>::empty(),
            handle.taken() == Seq::<T>::empty(),
    {
        let ghost channel = sender;
        UnboundedTx {
            sender,
            channel: Ghost(channel),
            offered: Ghost(Seq::empty()),
            taken: Ghost(Seq::empty()),
            handles: Ghost(0),
        }
    }

    /// Another handle on the same channel, by `UnboundedSender::clone`. Nothing has been handed to
    /// the new handle yet; that it was made is recorded, and nothing else changes.
    #[verifier::external_body]
    pub(crate) fn another(&mut self) -> (handle: Self)
        ensures
            final(self).channel() == old(self).channel(),
            final(self).half() == old(self).half(),
            final(self).offered() == old(self).offered(),
            final(self).taken() == old(self).taken(),
            final(self).handles() == old(self).handles() + 1,
            handle.channel() == old(self).channel(),
            handle.handles() == 0,
            handle.offered() == Seq::<T>::empty(),
            handle.taken() == Seq::<T>::empty(),
    {
        UnboundedTx {
            sender: self.sender.clone(),
            channel: self.channel,
            offered: Ghost(Seq::empty()),
            taken: Ghost(Seq::empty()),
            handles: Ghost(0),
        }
    }

    /// `UnboundedSender::send`: hands `message` to the channel without waiting. Whether the
    /// receiving end is still there decides the result: `Ok` says that the channel took the
    /// message; if the receiving end is gone, the message comes back inside the error, from which
    /// nothing here takes it out again. The handle itself stays as it is but for the record.
    /// (tokio aborts the process when over half of `usize::MAX` messages wait.)
    #[verifier::external_body]
    pub(crate) fn send(&mut self, message: T) -> (result: Result<(), mpsc::error::SendError<T>>)
        ensures
            final(self).same_handle(old(self)),
            final(self).offered() == old(self).offered().push(message),
            final(self).taken() == if result is Ok {
                old(self).taken().push(message)
            } else {
                old(self).taken()
            },
    {
        self.sender.send(message)
    }
}

impl<T> UnboundedRx<T> {
    /// The channel that this end was made for, known by the first sender that it had.
    pub closed spec fn channel(&self) -> mpsc::UnboundedSender<T> {
        self.channel@
    }

    /// The receiver itself.
    pub closed spec fn half(&self) -> mpsc::UnboundedReceiver<T> {
        self.receiver
    }

    /// The receiver that the channel was made with.
    pub closed spec fn made(&self) -> mpsc::UnboundedReceiver<T> {
        self.made@
    }

    /// The receiver is the one that the channel was made with, and nobody has waited on it yet.
    pub open spec fn is_fresh(&self) -> bool {
        self.half() == self.made()
    }

    /// Both are the receiving end of one channel.
    pub open spec fn same_channel(&self, other: &Self) -> bool {
        self.channel() == other.channel()
    }

    /// The receiver, to wait on. What is done through it is not recorded, so the end is not known
    /// to be fresh any more.
    pub fn receiver(&mut self) -> (receiver: &mut mpsc::UnboundedReceiver<T>)
        ensures
            *receiver == old(self).half(),
            final(self).half() == *final(receiver),
            final(self).same_channel(old(self)),
            final(self).made() == old(self).made(),
    {
        &mut self.receiver
    }
}

impl<T> BoundedRx<T> {
    /// The channel that this end was made for, known by the first sender that it had.
    pub closed spec fn channel(&self) -> mpsc::Sender<T> {
        self.channel@
    }

    /// How many messages the channel holds before a sender has to wait.
    pub closed spec fn capacity(&self) -> nat {
        self.capacity@
    }

    /// The receiver itself.
    pub closed spec fn half(&self) -> mpsc::Receiver<T> {
        self.receiver
    }

    /// The receiver that the channel was made with.
    pub closed spec fn made(&self) -> mpsc::Receiver<T> {
        self.made@
    }

    /// The receiver is the one that the channel was made with, and nobody has waited on it yet.
    pub open spec fn is_fresh(&self) -> bool {
        self.half() == self.made()
    }

    /// Both are the receiving end of one channel.
    pub open spec fn same_channel(&self, other: &Self) -> bool {
        &&& self.channel() == other.channel()
        &&& self.capacity() == other.capacity()
    }

    /// The receiver, to wait on. What is done through it is not recorded, so the end is not known
    /// to be fresh any more.
    pub fn receiver(&mut self) -> (receiver: &mut mpsc::Receiver<T>)
        ensures
            *receiver == old(self).half(),
            final(self).half() == *final(receiver),
            final(self).same_channel(old(self)),
            final(self).made() == old(self).made(),
    {
        &mut self.receiver
    }

    /// The receiver, given up to a stream.
    pub fn into_receiver(self) -> (receiver: mpsc::Receiver<T>)
        ensures
            receiver == self.half(),
    {
        self.receiver
    }
}

impl<T> ReplyRx<T> {
    /// The sender from which the reply comes.
    pub closed spec fn channel(&self) -> oneshot::Sender<T> {
        self.channel@
    }

    /// The receiver itself.
    pub closed spec fn half(&self) -> oneshot::Receiver<T> {
        self.receiver
    }

    /// The receiver, to wait on.
    pub fn into_receiver(self) -> (receiver: oneshot::Receiver<T>)
        ensures
            receiver == self.half(),
    {
        self.receiver
    }
}

impl<T> Reply<T> {
    /// Hands the reply to its sender.
    pub fn send(self) -> (replied: Replied<T>)
        ensures
            replied.sender() == self.sender,
            replied.value() == self.value,
            replied.outcome() matches Err(returned) ==> returned == self.value,
    {
        reply_send(self.sender, self.value)
    }
}

/// `mpsc::unbounded_channel`: both ends of one new channel without bound, to which nothing was
/// handed yet.
#[verifier::external_body]
pub(crate) fn unbounded_channel<T>() -> (ends: (UnboundedTx<T>, UnboundedRx<T>))
    ensures
        ends.0.channel() == ends.1.channel(),
        ends.1.is_fresh(),
        ends.0.half() == ends.0.channel(),
        ends.0.handles() == 0,
        ends.0.offered() == Seq::<T>::empty(),
        ends.0.taken() == Seq::<T>::empty(),
{
    let (sender, receiver) = mpsc::unbounded_channel();
    let channel = Ghost(sender);
    let made = Ghost(receiver);
    (
        UnboundedTx {
            sender,
            channel,
            offered: Ghost(Seq::empty()),
            taken: Ghost(Seq::empty()),
            handles: Ghost(0),
        },
        UnboundedRx { receiver, channel, made },
    )
}

/// `mpsc::channel`: both ends of one new channel that holds `buffer` messages before a sender has
/// to wait. tokio panics on a buffer of zero and on one over an eighth of `usize::MAX`.
#[verifier::external_body]
pub(crate) fn bounded_channel<T>(buffer: usize) -> (ends: (mpsc::Sender<T>, BoundedRx<T>))
    requires
        0 < buffer <= usize::MAX / 8,
    ensures
        ends.1.channel() == ends.0,
        ends.1.capacity() == buffer,
        ends.1.is_fresh(),
{
    let (sender, receiver) = mpsc::channel(buffer);
    let channel = Ghost(sender);
    let made = Ghost(receiver);
    (sender, BoundedRx { receiver, channel, capacity: Ghost(buffer as nat), made })
}

/// `oneshot::channel`: both ends of one new channel for one reply.
#[verifier::external_body]
pub(crate) fn reply_channel<T>() -> (ends: (oneshot::Sender<T>, ReplyRx<T>))
    ensures
        ends.1.channel() == ends.0,
{
    let (sender, receiver) = oneshot::channel();
    let channel = Ghost(sender);
    (sender, ReplyRx { receiver, channel })
}

/// The text of `mpsc::error::SendError`, by its `Display`: "channel closed", whatever the message
/// that could not be sent.
#[verifier::external_body]
pub(crate) fn send_error_text<T>(error: mpsc::error::SendError<T>) -> (text: String)
    ensures
        text@ == "channel closed"@,
{
    error.to_string()
}

/// The text of `oneshot::error::RecvError`, by its `Display`: "channel closed".
#[verifier::external_body]
pub(crate) fn recv_error_text(error: oneshot::error::RecvError) -> (text: String)
    ensures
        text@ == "channel closed"@,
{
    error.to_string()
}

/// What is said of the ends of channels is said of the halves that they hold.
proof fn law_an_end_is_what_it_holds<T>(
    handle: UnboundedTx<T>,
    unbounded: UnboundedRx<T>,
    bounded: BoundedRx<T>,
    reply: ReplyRx<T>,
)
    ensures
        handle.half() == handle.sender,
        handle.channel() == handle.channel@,
        handle.offered() == handle.offered@,
        handle.taken() == handle.taken@,
        handle.handles() == handle.handles@,
        unbounded.half() == unbounded.receiver,
        unbounded.made() == unbounded.made@,
        unbounded.channel() == unbounded.channel@,
        bounded.half() == bounded.receiver,
        bounded.made() == bounded.made@,
        bounded.channel() == bounded.channel@,
        bounded.capacity() == bounded.capacity@,
        reply.half() == reply.receiver,
        reply.channel() == reply.channel@,
{
}

} // verus!
