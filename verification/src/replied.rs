//! The record of a reply that was handed over.

use tokio::sync::oneshot;
use vstd::prelude::*;

verus! {

/// What became of a reply that was handed to its sender.
#[verifier::reject_recursive_types(T)]
pub struct Replied<T> {
    outcome: Result<(), T>,
    sender: Ghost<oneshot::Sender<T>>,
    value: Ghost<T>,
}

impl<T> Replied<T> {
    /// The sender that the reply was handed to.
    pub closed spec fn sender(&self) -> oneshot::Sender<T> {
        self.sender@
    }

    /// The reply that was handed to the sender.
    pub closed spec fn value(&self) -> T {
        self.value@
    }

    /// `Ok` if the reply was taken; the reply itself if nobody waited for it any more.
    pub closed spec fn outcome(&self) -> Result<(), T> {
        self.outcome
    }

    /// `Ok` if the reply was taken; the reply itself if nobody waited for it any more.
    pub fn into_outcome(self) -> (outcome: Result<(), T>)
        ensures
            outcome == self.outcome(),
    {
        self.outcome
    }
}

/// `oneshot::Sender::send`: gives the reply to the receiver of the channel. Whether the receiver
/// is still there decides the outcome; if it is gone, the reply comes back. That a reply which was
/// taken is read on the other end is not said here.
#[verifier::external_body]
pub(crate) fn reply_send<T>(sender: oneshot::Sender<T>, value: T) -> (replied: Replied<T>)
    ensures
        replied.sender() == sender,
        replied.value() == value,
        replied.outcome() matches Err(returned) ==> returned == value,
{
    let to = Ghost(sender);
    let handed = Ghost(value);
    Replied { outcome: sender.send(value), sender: to, value: handed }
}

/// What is said of a reply that was handed over is what came of it.
proof fn law_a_replied_is_what_it_holds<T>(replied: Replied<T>)
    ensures
        replied.outcome() == replied.outcome,
        replied.sender() == replied.sender@,
        replied.value() == replied.value@,
{
}

} // verus!
