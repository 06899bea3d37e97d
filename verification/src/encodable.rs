//! Messages that know how to put themselves into bytes.

use vstd::prelude::*;

verus! {

/// A message that can be written out as bytes.
///
/// Nothing is asked of an implementation: it may write any bytes, and it may
/// fail after having written some.
pub trait Encodable {
    /// Why a message could not be encoded.
    type Error;

    /// Writes the encoded message to `buf`.
    ///
    /// `buf` belongs to this one call. It starts empty, and the writer takes
    /// what it holds when the call returns, whether it succeeds or fails.
    fn encode(&self, buf: &mut Vec<u8>) -> Result<(), Self::Error>;
}

} // verus!
