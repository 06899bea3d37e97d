//! The sending half of the channel, as far as the writer uses it.
//!
//! The channel is `async_channel`'s. Its state is shared with the receiving
//! half and with every other sender, so nothing here says how a send will
//! end: the writer is verified for each of the three answers.

use async_channel::Sender;
use async_channel::TrySendError;
use vstd::prelude::*;

use crate::outcome::FlushStatus;

verus! {

/// `async_channel::Sender`, the sending half of a channel. Trusted, and
/// opaque: a handle is kept and passed on, and nothing is read from it.
#[verifier::external_type_specification]
#[verifier::external_body]
#[verifier::reject_recursive_types(T)]
pub struct ExSender<T>(Sender<T>);

/// The answer of the channel to one non-blocking send.
#[derive(Debug, PartialEq, Eq)]
pub enum SendOutcome {
    /// The element is in the channel.
    Accepted,
    /// The channel was at capacity; the element comes back.
    Full(Vec<u8>),
    /// The channel is closed; the element comes back.
    Closed(Vec<u8>),
}

impl SendOutcome {
    /// How a flush that got this answer ends.
    pub open spec fn status(self) -> FlushStatus {
        match self {
            SendOutcome::Accepted => FlushStatus::Sent,
            SendOutcome::Full(_) => FlushStatus::Deferred,
            SendOutcome::Closed(_) => FlushStatus::Closed,
        }
    }

    /// The bytes that stay buffered after this answer: a batch that found the
    /// channel full, and nothing else.
    pub open spec fn retained(self) -> Seq<u8> {
        match self {
            SendOutcome::Full(batch) => batch@,
            _ => Seq::empty(),
        }
    }

    /// Settles a flush from the channel's answer: how the flush ends, and the
    /// bytes that the writer keeps.
    pub fn settle(self) -> (settled: (FlushStatus, Vec<u8>))
        ensures
            settled.0 == self.status(),
            settled.1@ == self.retained(),
    {
        match self {
            SendOutcome::Accepted => (FlushStatus::Sent, Vec::new()),
            SendOutcome::Full(batch) => (FlushStatus::Deferred, batch),
            SendOutcome::Closed(_) => (FlushStatus::Closed, Vec::new()),
        }
    }
}

/// Offers `batch` to the channel as one element, without waiting.
///
/// Calls `async_channel::Sender::try_send`. Trusted: an element that the
/// channel turns down, because it is full or because it is closed, comes back
/// byte for byte. Which of the three answers comes is not stated.
#[verifier::external_body]
pub(crate) fn try_send(channel: &Sender<Box<[u8]>>, batch: Vec<u8>) -> (outcome: SendOutcome)
    ensures
        outcome matches SendOutcome::Full(back) ==> back@ == batch@,
        outcome matches SendOutcome::Closed(back) ==> back@ == batch@,
{
    match channel.try_send(batch.into_boxed_slice()) {
        Ok(()) => SendOutcome::Accepted,
        Err(TrySendError::Full(back)) => SendOutcome::Full(back.into_vec()),
        Err(TrySendError::Closed(back)) => SendOutcome::Closed(back.into_vec()),
    }
}

/// A second handle to the channel that `channel` sends into.
///
/// Calls `Clone::clone` of `async_channel::Sender`. Trusted: the new handle
/// stands for the same channel as the one it was made from, and so counts as
/// the same value: a handle holds a shared pointer to its channel and nothing
/// else. (The outside function ends the process rather than return once more
/// than `usize::MAX / 2` handles are alive.)
#[verifier::external_body]
pub(crate) fn share(channel: &Sender<Box<[u8]>>) -> (handle: Sender<Box<[u8]>>)
    ensures
        handle == *channel,
{
    channel.clone()
}

} // verus!
