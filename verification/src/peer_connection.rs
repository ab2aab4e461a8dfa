//! The read side of a peer connection in the first form of the protocol:
//! the bytes received and not yet parsed.
use crate::frame::{drop_prefix, Reader};
use crate::peer_message::messages::{spec_check, PeerMessage};
use crate::peer_message::HEADER_LEN;
use crate::SlskError;
use vstd::prelude::*;

verus! {

/// Bytes received from a peer and not parsed yet.
#[derive(Debug)]
pub struct PeerConnection {
    buffer: Vec<u8>,
}

impl PeerConnection {
    /// The bytes received and not parsed yet.
    pub closed spec fn buffered(&self) -> Seq<u8> {
        self.buffer@
    }

    /// An empty buffer.
    pub fn new() -> (c: PeerConnection)
        ensures
            c.buffered() == Seq::<u8>::empty(),
    {
        PeerConnection { buffer: Vec::new() }
    }

    /// Appends bytes read from the peer.
    pub fn extend(&mut self, bytes: &[u8])
        ensures
            final(self).buffered() == old(self).buffered() + bytes@,
    {
        crate::frame::write_bytes(&mut self.buffer, bytes);
    }

    /// The peer closed the connection: cleanly when nothing is buffered, in
    /// the middle of a message otherwise.
    pub fn end_of_stream(&self) -> (res: Result<(), SlskError>)
        ensures
            res is Ok <==> self.buffered().len() == 0,
            res is Err ==> res == Err::<(), SlskError>(SlskError::ConnectionResetByPeer),
    {
        if self.buffer.len() == 0 {
            Ok(())
        } else {
            Err(SlskError::ConnectionResetByPeer)
        }
    }

    /// Drops a message of `message_len` bytes and its 5 byte header from the
    /// start of the buffer.
    pub fn consume(&mut self, message_len: usize)
        requires
            HEADER_LEN + message_len <= old(self).buffered().len(),
        ensures
            final(self).buffered() == old(self).buffered().subrange(
                HEADER_LEN + message_len,
                old(self).buffered().len() as int,
            ),
    {
        let buffered: usize = self.buffer.len();
        assert(HEADER_LEN + message_len <= buffered);
        drop_prefix(&mut self.buffer, HEADER_LEN as usize + message_len);
    }

    /// The message at the start of the buffer: `None` while it is
    /// incomplete. A parsed message is consumed; a message that does not
    /// parse is left in the buffer.
    pub fn parse_response(&mut self) -> (res: Result<Option<PeerMessage>, SlskError>)
        ensures
            match spec_check(old(self).buffered(), 0) {
                Err(SlskError::Incomplete) => res matches Ok(None) && final(self).buffered()
                    == old(self).buffered(),
                Err(e) => res == Err::<Option<PeerMessage>, SlskError>(e) && final(self).buffered()
                    == old(self).buffered(),
                Ok((h, q)) => match PeerMessage::spec_parse(old(self).buffered(), q, h.code) {
                    Err(e) => res == Err::<Option<PeerMessage>, SlskError>(e)
                        && final(self).buffered() == old(self).buffered(),
                    Ok((v, _)) => res matches Ok(Some(m)) && m@ == v && final(self).buffered()
                        == old(self).buffered().subrange(
                        HEADER_LEN + h.message_len,
                        old(self).buffered().len() as int,
                    ),
                },
            },
    {
        let mut buf = Reader::new(self.buffer.as_slice());
        match PeerMessage::check(&mut buf) {
            Ok(header) => {
                let message = PeerMessage::parse(&mut buf, &header)?;
                self.consume(header.message_len);
                Ok(Some(message))
            },
            Err(SlskError::Incomplete) => Ok(None),
            Err(e) => Err(e),
        }
    }
}

} // verus!
