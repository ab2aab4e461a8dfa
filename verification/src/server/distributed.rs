//! Distributed message embedded in a server message.
use crate::frame::{read_matches, sp_u8, ParseBytes, Read, Reader};
use crate::SlskError;
use vstd::prelude::*;

verus! {

/// A distributed network message that the server forwards: its code and the
/// raw bytes that follow it.
#[derive(Debug)]
pub struct EmbeddedDistributedMessage {
    pub code: u8,
    pub message: Vec<u8>,
}

impl View for EmbeddedDistributedMessage {
    type V = (u8, Seq<u8>);

    open spec fn view(&self) -> Self::V {
        (self.code, self.message@)
    }
}

impl ParseBytes for EmbeddedDistributedMessage {
    /// A code byte, then every remaining byte of the input as the message.
    /// The position does not move past the code.
    open spec fn spec_parse(s: Seq<u8>, p: int) -> Read<Self::V> {
        match sp_u8(s, p) {
            Err(e) => Err(e),
            Ok((code, p)) => Ok(((code, s.subrange(p, s.len() as int)), p)),
        }
    }

    fn parse(src: &mut Reader) -> (res: Result<Self, SlskError>) {
        let code = src.read_u8()?;
        let message = src.chunk();
        Ok(EmbeddedDistributedMessage { code, message })
    }
}

} // verus!
