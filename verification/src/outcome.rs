//! What the writer's operations report, and how a flush attempt is reported
//! by each of the two interfaces.

use vstd::prelude::*;

verus! {

/// How one flush attempt ended.
#[derive(Debug, Clone, Copy, PartialEq, Eq, Structural)]
pub enum FlushStatus {
    /// The channel took the batch.
    Sent,
    /// The channel was at capacity: the batch stays buffered for a later attempt.
    Deferred,
    /// The channel is closed for good: the batch is dropped.
    Closed,
}

/// The one failure of the writer itself, an end of stream: the channel it
/// feeds is closed, so nothing written from now on can reach the receiving end.
#[derive(Debug, Clone, Copy, PartialEq, Eq, Structural)]
pub struct WriterClosed;

/// Why an `encode` failed.
#[derive(Debug, PartialEq, Eq)]
pub enum EncodeError<E> {
    /// The message could not be encoded; the encoder's own error, untouched.
    Encoding(E),
    /// The message was encoded, and the flush found the channel closed.
    Closed,
}

/// The answer of a non-blocking operation: a result, or "ask again later".
#[derive(Debug, PartialEq, Eq)]
pub enum Poll<T> {
    /// The operation is over, with this result.
    Ready(T),
    /// Nothing was done for now; the caller is expected to ask again.
    Pending,
}

impl FlushStatus {
    /// What the blocking interface reports. A deferred batch counts as success:
    /// the caller is told nothing of it.
    pub open spec fn sync_result(self) -> Result<(), WriterClosed> {
        match self {
            FlushStatus::Sent => Ok(()),
            FlushStatus::Deferred => Ok(()),
            FlushStatus::Closed => Err(WriterClosed),
        }
    }

    /// What the non-blocking interface reports. A deferred batch is `Pending`.
    pub open spec fn poll_result(self) -> Poll<Result<(), WriterClosed>> {
        match self {
            FlushStatus::Sent => Poll::Ready(Ok(())),
            FlushStatus::Deferred => Poll::Pending,
            FlushStatus::Closed => Poll::Ready(Err(WriterClosed)),
        }
    }

    /// What `encode` reports once the message is encoded and the flush is over:
    /// the same as the blocking interface, in `encode`'s error type.
    pub open spec fn encode_result<E>(self) -> Result<(), EncodeError<E>> {
        match self {
            FlushStatus::Sent => Ok(()),
            FlushStatus::Deferred => Ok(()),
            FlushStatus::Closed => Err(EncodeError::Closed),
        }
    }

    /// Reports this status as the blocking interface does.
    pub fn report_sync(self) -> (reported: Result<(), WriterClosed>)
        ensures
            reported == self.sync_result(),
    {
        match self {
            FlushStatus::Sent => Ok(()),
            FlushStatus::Deferred => Ok(()),
            FlushStatus::Closed => Err(WriterClosed),
        }
    }

    /// Reports this status as the non-blocking interface does.
    pub fn report_poll(self) -> (reported: Poll<Result<(), WriterClosed>>)
        ensures
            reported == self.poll_result(),
    {
        match self {
            FlushStatus::Sent => Poll::Ready(Ok(())),
            FlushStatus::Deferred => Poll::Pending,
            FlushStatus::Closed => Poll::Ready(Err(WriterClosed)),
        }
    }

    /// Reports this status as `encode` does.
    pub fn report_encode<E>(self) -> (reported: Result<(), EncodeError<E>>)
        ensures
            reported == self.encode_result::<E>(),
    {
        match self {
            FlushStatus::Sent => Ok(()),
            FlushStatus::Deferred => Ok(()),
            FlushStatus::Closed => Err(EncodeError::Closed),
        }
    }
}

impl WriterClosed {
    /// The failure in words.
    pub fn message(&self) -> (text: &'static str)
        ensures
            text@ == "writer was closed"@,
    {
        "writer was closed"
    }
}

} // verus!
