//! The writer itself.

use async_channel::Sender;
use vstd::prelude::*;

use crate::channel::share;
use crate::channel::try_send;
use crate::encodable::Encodable;
use crate::outcome::EncodeError;
use crate::outcome::FlushStatus;
use crate::outcome::Poll;
use crate::outcome::WriterClosed;
use crate::state::WriterState;

verus! {

/// A writer that buffers bytes and flushes them into a channel.
///
/// It offers a blocking interface (`write`, `flush`) and a non-blocking one
/// (`poll_write`, `poll_flush`, `poll_close`) over the same buffer. Neither ever
/// waits: a flush makes one attempt to send and reports how it went.
pub struct MpscWriter {
    buf: Vec<u8>,
    channel: Sender<Box<[u8]>>,
    sent: Ghost<Seq<Seq<u8>>>,
}

impl View for MpscWriter {
    type V = WriterState;

    closed spec fn view(&self) -> WriterState {
        WriterState { pending: self.buf@, sent: self.sent@ }
    }
}

impl MpscWriter {
    /// The channel that this writer sends into.
    pub closed spec fn channel(&self) -> Sender<Box<[u8]>> {
        self.channel
    }

    /// A writer with an empty buffer that sends into `channel`.
    pub fn new(channel: Sender<Box<[u8]>>) -> (writer: MpscWriter)
        ensures
            writer@ == WriterState::fresh(),
            writer.channel() == channel,
    {
        MpscWriter { buf: Vec::new(), channel, sent: Ghost(Seq::empty()) }
    }

    /// The bytes that wait for the next flush.
    pub fn buffer(&self) -> (bytes: &[u8])
        ensures
            bytes@ == self@.pending,
    {
        self.buf.as_slice()
    }

    /// Appends all of `bytes` to the buffer. Never fails and never takes less
    /// than all.
    pub fn write(&mut self, bytes: &[u8]) -> (accepted: Result<usize, WriterClosed>)
        ensures
            accepted == Ok::<usize, WriterClosed>(bytes@.len() as usize),
            final(self)@ == old(self)@.write(bytes@),
            final(self).channel() == old(self).channel(),
    {
        self.buf.extend_from_slice(bytes);
        assert(self.buf@ =~= old(self).buf@ + bytes@);
        Ok(bytes.len())
    }

    /// Makes one attempt to send the whole buffer as a single element.
    ///
    /// The buffer is taken out whole. If the channel takes it, it is gone; if
    /// the channel is full, it is put back as it was; if the channel is closed,
    /// it is dropped.
    pub fn try_flush(&mut self) -> (status: FlushStatus)
        ensures
            final(self)@ == old(self)@.flush(status),
            final(self).channel() == old(self).channel(),
    {
        let mut batch: Vec<u8> = Vec::new();
        core::mem::swap(&mut self.buf, &mut batch);
        let (status, kept) = try_send(&self.channel, batch).settle();
        self.buf = kept;
        self.sent = Ghost(old(self)@.flush(status).sent);
        status
    }

    /// Flushes, blocking interface.
    ///
    /// Succeeds when the channel took the batch, and also when the channel was
    /// full: the batch then stays buffered and the caller is not told. So `Ok`
    /// does not say that anything was sent; `try_flush` and `poll_flush` tell
    /// the two apart. Fails only when the channel is closed, and what was
    /// buffered is then lost.
    pub fn flush(&mut self) -> (flushed: Result<(), WriterClosed>)
        ensures
            exists|status: FlushStatus|
                flushed == #[trigger] status.sync_result() && final(self)@ == old(self)@.flush(
                    status,
                ),
            final(self).channel() == old(self).channel(),
    {
        self.try_flush().report_sync()
    }

    /// Encodes `msg` into the buffer, then flushes.
    ///
    /// Whatever the encoder wrote is appended to the buffer, also when it
    /// fails. If it fails, its error is returned as it is and nothing is sent.
    /// Otherwise the result is that of the flush.
    pub fn encode<M>(&mut self, msg: M) -> (encoded: Result<(), EncodeError<M::Error>>)
        where M: Encodable + Send
        ensures
            exists|written: Seq<u8>, outcome: Result<(), M::Error>, status: FlushStatus|
                (final(self)@, encoded) == #[trigger] old(self)@.encode(written, outcome, status),
            final(self).channel() == old(self).channel(),
    {
        let mut scratch: Vec<u8> = Vec::new();
        let outcome = msg.encode(&mut scratch);
        self.submit(scratch.as_slice(), outcome)
    }

    /// Takes in what an encoder produced: appends `written` to the buffer and,
    /// if the encoder succeeded, flushes.
    ///
    /// A failed encoding is reported with the encoder's own error and sends
    /// nothing; the bytes written before the failure stay in the buffer.
    pub fn submit<E>(&mut self, written: &[u8], outcome: Result<(), E>) -> (encoded: Result<
        (),
        EncodeError<E>,
    >)
        ensures
            exists|status: FlushStatus|
                (final(self)@, encoded) == #[trigger] old(self)@.encode(written@, outcome, status),
            final(self).channel() == old(self).channel(),
    {
        let _ = self.write(written);
        match outcome {
            Err(e) => {
                // No flush takes place, so any status bears witness.
                assert((self@, Err::<(), EncodeError<E>>(EncodeError::Encoding(e))) == old(
                    self,
                )@.encode(written@, outcome, FlushStatus::Deferred));
                Err(EncodeError::Encoding(e))
            },
            Ok(()) => {
                let status = self.try_flush();
                let encoded = status.report_encode();
                assert((self@, encoded) == old(self)@.encode(written@, outcome, status));
                encoded
            },
        }
    }

    /// Appends all of `bytes` to the buffer, non-blocking interface. Always
    /// ready, with all of `bytes` taken.
    pub fn poll_write(&mut self, bytes: &[u8]) -> (accepted: Poll<Result<usize, WriterClosed>>)
        ensures
            accepted == Poll::Ready(Ok::<usize, WriterClosed>(bytes@.len() as usize)),
            final(self)@ == old(self)@.write(bytes@),
            final(self).channel() == old(self).channel(),
    {
        Poll::Ready(self.write(bytes))
    }

    /// Flushes, non-blocking interface.
    ///
    /// `Pending` says that the channel was full and the batch is still
    /// buffered: the caller asks again later. Nothing here waits, and nothing
    /// arranges for the caller to be woken.
    pub fn poll_flush(&mut self) -> (flushed: Poll<Result<(), WriterClosed>>)
        ensures
            exists|status: FlushStatus|
                flushed == #[trigger] status.poll_result() && final(self)@ == old(self)@.flush(
                    status,
                ),
            final(self).channel() == old(self).channel(),
    {
        self.try_flush().report_poll()
    }

    /// Closes, non-blocking interface: one flush attempt and nothing more. The
    /// receiving end is not told that the writer is done, and nothing waits
    /// for the channel to drain.
    pub fn poll_close(&mut self) -> (closed: Poll<Result<(), WriterClosed>>)
        ensures
            exists|status: FlushStatus|
                closed == #[trigger] status.poll_result() && final(self)@ == old(self)@.flush(
                    status,
                ),
            final(self).channel() == old(self).channel(),
    {
        self.poll_flush()
    }
}

impl Clone for MpscWriter {
    /// A second writer for the same channel, with a buffer of its own that
    /// starts empty: what `self` has buffered stays with `self` alone.
    fn clone(&self) -> (twin: MpscWriter)
        ensures
            twin@ == WriterState::fresh(),
            twin.channel() == self.channel(),
    {
        MpscWriter { buf: Vec::new(), channel: share(&self.channel), sent: Ghost(Seq::empty()) }
    }
}

} // verus!
