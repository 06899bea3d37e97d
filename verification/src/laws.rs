//! What follows from the model, for every state of a writer.

use vstd::prelude::*;

use crate::outcome::EncodeError;
use crate::outcome::FlushStatus;
use crate::outcome::Poll;
use crate::outcome::WriterClosed;
use crate::state::WriterState;

verus! {

/// A write appends and touches nothing else, and two writes in a row leave
/// what one write of both pieces, joined, would leave.
pub proof fn lemma_writes_append(state: WriterState, first: Seq<u8>, second: Seq<u8>)
    ensures
        state.write(first).pending == state.pending + first,
        state.write(first).pending.len() == state.pending.len() + first.len(),
        state.write(first).sent == state.sent,
        state.write(first).write(second) == state.write(first + second),
{
    assert(state.write(first).write(second).pending =~= state.write(first + second).pending);
}

/// A flush that the channel takes empties the buffer and hands over exactly
/// what was buffered, as one element that comes after all earlier ones.
pub proof fn lemma_sent_batch_is_whole(state: WriterState)
    ensures
        state.flush(FlushStatus::Sent).pending == Seq::<u8>::empty(),
        state.flush(FlushStatus::Sent).sent.len() == state.sent.len() + 1,
        state.flush(FlushStatus::Sent).sent.last() == state.pending,
        state.flush(FlushStatus::Sent).sent.drop_last() == state.sent,
        FlushStatus::Sent.sync_result() == Ok::<(), WriterClosed>(()),
        FlushStatus::Sent.poll_result() == Poll::Ready(Ok::<(), WriterClosed>(())),
{
    assert(state.flush(FlushStatus::Sent).sent.drop_last() =~= state.sent);
}

/// A flush that finds the channel full changes nothing. The blocking
/// interface reports success all the same, the non-blocking one `Pending`.
/// A later flush that the channel takes hands over the bytes as they were.
pub proof fn lemma_deferred_batch_goes_later(state: WriterState)
    ensures
        state.flush(FlushStatus::Deferred) == state,
        FlushStatus::Deferred.sync_result() == Ok::<(), WriterClosed>(()),
        FlushStatus::Deferred.poll_result() == Poll::<Result<(), WriterClosed>>::Pending,
        state.flush(FlushStatus::Deferred).flush(FlushStatus::Sent) == state.flush(
            FlushStatus::Sent,
        ),
        state.flush(FlushStatus::Deferred).flush(FlushStatus::Sent).sent.last() == state.pending,
{
}

/// A flush that finds the channel closed is reported as `WriterClosed` by both
/// interfaces, hands nothing over and drops what was buffered. Another flush
/// that finds it closed reports the same and leaves the writer as it is.
pub proof fn lemma_closed_stays_closed(state: WriterState)
    ensures
        FlushStatus::Closed.sync_result() == Err::<(), WriterClosed>(WriterClosed),
        FlushStatus::Closed.poll_result() == Poll::Ready(Err::<(), WriterClosed>(WriterClosed)),
        state.flush(FlushStatus::Closed).sent == state.sent,
        state.flush(FlushStatus::Closed).pending == Seq::<u8>::empty(),
        state.flush(FlushStatus::Closed).flush(FlushStatus::Closed) == state.flush(
            FlushStatus::Closed,
        ),
{
}

/// An `encode` whose encoder fails hands nothing over, whatever the channel
/// would have answered: it returns the encoder's error as it is and keeps, after
/// what was buffered before, the bytes that the encoder wrote until it failed.
pub proof fn lemma_failed_encoding_sends_nothing<E>(
    state: WriterState,
    written: Seq<u8>,
    error: E,
    status: FlushStatus,
)
    ensures
        state.encode(written, Err::<(), E>(error), status).1 == Err::<(), EncodeError<E>>(
            EncodeError::Encoding(error),
        ),
        state.encode(written, Err::<(), E>(error), status).0.sent == state.sent,
        state.encode(written, Err::<(), E>(error), status).0.pending == state.pending + written,
{
}

/// An `encode` whose encoder succeeds is a write of the encoded bytes followed
/// by a flush, and fails only if that flush finds the channel closed.
pub proof fn lemma_encoding_writes_then_flushes<E>(
    state: WriterState,
    written: Seq<u8>,
    status: FlushStatus,
)
    ensures
        state.encode(written, Ok::<(), E>(()), status).0 == state.write(written).flush(status),
        state.encode(written, Ok::<(), E>(()), status).1 is Ok <==> status != FlushStatus::Closed,
        state.encode(written, Ok::<(), E>(()), status).1 is Err ==> state.encode(
            written,
            Ok::<(), E>(()),
            status,
        ).1 == Err::<(), EncodeError<E>>(EncodeError::Closed),
{
}

} // verus!
