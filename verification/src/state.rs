//! The mathematical model of a writer: what it holds and what it has handed over.

use vstd::prelude::*;

use crate::outcome::EncodeError;
use crate::outcome::FlushStatus;

verus! {

/// A writer as contracts see it.
pub struct WriterState {
    /// The bytes written since the last batch left, oldest first.
    pub pending: Seq<u8>,
    /// The batches that this writer handed to the channel and that the channel
    /// took, oldest first.
    pub sent: Seq<Seq<u8>>,
}

impl WriterState {
    /// A writer that has neither buffered nor sent anything.
    pub open spec fn fresh() -> WriterState {
        WriterState { pending: Seq::empty(), sent: Seq::empty() }
    }

    /// The state after `bytes` were appended.
    pub open spec fn write(self, bytes: Seq<u8>) -> WriterState {
        WriterState { pending: self.pending + bytes, sent: self.sent }
    }

    /// The state after a flush attempt that ended in `status`.
    ///
    /// The buffer leaves whole or not at all: it becomes one element of `sent`,
    /// stays as it is, or is dropped.
    pub open spec fn flush(self, status: FlushStatus) -> WriterState {
        match status {
            FlushStatus::Sent => WriterState {
                pending: Seq::empty(),
                sent: self.sent.push(self.pending),
            },
            FlushStatus::Deferred => self,
            FlushStatus::Closed => WriterState { pending: Seq::empty(), sent: self.sent },
        }
    }

    /// The state and the result after an `encode`: the encoder wrote `written`
    /// and ended in `outcome`, and the flush, if there was one, in `status`.
    ///
    /// What the encoder wrote is appended whether or not it failed. A failed
    /// encoding comes back with the encoder's error and is not followed by a
    /// flush.
    pub open spec fn encode<E>(
        self,
        written: Seq<u8>,
        outcome: Result<(), E>,
        status: FlushStatus,
    ) -> (WriterState, Result<(), EncodeError<E>>) {
        match outcome {
            Err(e) => (self.write(written), Err(EncodeError::Encoding(e))),
            Ok(()) => (self.write(written).flush(status), status.encode_result()),
        }
    }
}

} // verus!
