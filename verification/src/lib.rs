//! A buffering writer that hands its bytes, batch by batch, to a bounded channel.
//!
//! Whoever produces bytes appends them to the writer and never touches the
//! transport: a flush moves everything buffered so far into the channel as one
//! element, and whoever holds the receiving end transmits it.

pub mod channel;
pub mod encodable;
pub mod laws;
pub mod outcome;
pub mod state;
pub mod writer;

pub use channel::SendOutcome;
pub use encodable::Encodable;
pub use outcome::EncodeError;
pub use outcome::FlushStatus;
pub use outcome::Poll;
pub use outcome::WriterClosed;
pub use state::WriterState;
pub use writer::MpscWriter;
