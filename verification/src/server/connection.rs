//! The read side of the connection with the Soulseek server: the bytes
//! received and not yet parsed.
use crate::frame::{drop_prefix, Reader};
use crate::server::response::{spec_check, spec_response, ServerResponse};
use crate::server::HEADER_LEN;
use crate::SlskError;
use vstd::prelude::*;

verus! {

/// Bytes received from the server and not parsed yet.
#[derive(Debug)]
pub struct SlskConnection {
    buffer: Vec<u8>,
}

impl SlskConnection {
    /// The bytes received and not parsed yet.
    pub closed spec fn buffered(&self) -> Seq<u8> {
        self.buffer@
    }

    /// An empty buffer.
    pub fn new() -> (c: SlskConnection)
        ensures
            c.buffered() == Seq::<u8>::empty(),
    {
        SlskConnection { buffer: Vec::new() }
    }

    /// Appends bytes read from the server.
    pub fn extend(&mut self, bytes: &[u8])
        ensures
            final(self).buffered() == old(self).buffered() + bytes@,
    {
        crate::frame::write_bytes(&mut self.buffer, bytes);
    }

    /// The server closed the connection: cleanly when nothing is buffered,
    /// in the middle of a message otherwise.
    pub fn end_of_stream(&self) -> (res: Result<(), SlskError>)
        ensures
            res is Ok <==> self.buffered().len() == 0,
            res is Err ==> res == Err::<(), SlskError>(SlskError::ConnectionResetByPeer),
    {
        if self.buffer.len() == 0 {
            Ok(())
        } else {
            Err(SlskError::ConnectionResetByPeer)
        }
    }

    /// Drops a message of `message_len` bytes and its 8 byte header from the
    /// start of the buffer.
    pub fn consume(&mut self, message_len: usize)
        requires
            HEADER_LEN + message_len <= old(self).buffered().len(),
        ensures
            final(self).buffered() == old(self).buffered().subrange(
                HEADER_LEN + message_len,
                old(self).buffered().len() as int,
            ),
    {
        let buffered: usize = self.buffer.len();
        assert(HEADER_LEN + message_len <= buffered);
        drop_prefix(&mut self.buffer, HEADER_LEN as usize + message_len);
    }

    /// The message at the start of the buffer: `None` while it is
    /// incomplete. A whole message is consumed, whether its body parses or
    /// not.
    pub fn parse_response(&mut self) -> (res: Result<Option<ServerResponse>, SlskError>)
        ensures
            match spec_check(old(self).buffered(), 0) {
                Err(SlskError::Incomplete) => res matches Ok(None) && final(self).buffered()
                    == old(self).buffered(),
                Err(e) => res == Err::<Option<ServerResponse>, SlskError>(e)
                    && final(self).buffered() == old(self).buffered(),
                Ok((h, q)) => final(self).buffered() == old(self).buffered().subrange(
                    HEADER_LEN + h.message_len,
                    old(self).buffered().len() as int,
                ) && match res {
                    Ok(Some(r)) => spec_response(h, old(self).buffered(), q, Ok(r)),
                    Ok(None) => false,
                    Err(e) => spec_response(h, old(self).buffered(), q, Err(e)),
                },
            },
    {
        let mut buf = Reader::new(self.buffer.as_slice());
        match ServerResponse::check(&mut buf) {
            Ok(header) => match ServerResponse::parse(&mut buf, &header) {
                Ok(server_response) => {
                    self.consume(header.message_len);
                    Ok(Some(server_response))
                },
                Err(e) => {
                    self.consume(header.message_len);
                    Err(e)
                },
            },
            Err(SlskError::Incomplete) => Ok(None),
            Err(e) => Err(e),
        }
    }
}

} // verus!
