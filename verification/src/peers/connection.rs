//! The read side of a connection with a peer: the bytes received and not
//! yet parsed, and the kind of the connection, which decides how they are
//! framed.
use crate::frame::{drop_prefix, read_matches, Reader};
use crate::message_common::ConnectionType;
use crate::peers::messages::connection::{
    spec_check as spec_check_connection, ConnectionMessageHeader, PeerConnectionMessage,
    CONNECTION_MSG_HEADER_LEN,
};
use crate::peers::messages::distributed::{
    spec_check as spec_check_distributed, DistributedMessage, DistributedMessageHeader,
    DistributedMessageView,
};
use crate::peers::messages::p2p::response::{PeerResponse, PeerResponseView};
use crate::peers::messages::p2p::{spec_check as spec_check_peer, PEER_MSG_HEADER_LEN};
use crate::peers::messages::PeerResponsePacket;
use crate::SlskError;
use vstd::prelude::*;

verus! {

/// What a connection whose kind is not known yet finds at the start of `s`:
/// nothing while the message is incomplete, the error of its header or body,
/// or the message and the number of bytes it takes, header included.
pub open spec fn spec_next_connection_message(s: Seq<u8>) -> Result<
    Option<(Result<(Seq<char>, ConnectionType, u32), u32>, int)>,
    SlskError,
> {
    match spec_check_connection(s, 0) {
        Err(SlskError::Incomplete) => Ok(None),
        Err(e) => Err(e),
        Ok((h, q)) => match PeerConnectionMessage::spec_parse(s, q, h.code) {
            Err(e) => Err(e),
            Ok((v, _)) => Ok(Some((v, h.message_len + CONNECTION_MSG_HEADER_LEN))),
        },
    }
}

/// What a peer to peer connection finds at the start of `s`, as
/// `spec_next_connection_message` does.
pub open spec fn spec_next_peer_message(s: Seq<u8>) -> Result<Option<(PeerResponseView, int)>, SlskError> {
    match spec_check_peer(s, 0) {
        Err(SlskError::Incomplete) => Ok(None),
        Err(e) => Err(e),
        Ok((h, q)) => match PeerResponse::spec_parse(s, q, h.code) {
            Err(e) => Err(e),
            Ok((v, _)) => Ok(Some((v, h.message_len + PEER_MSG_HEADER_LEN))),
        },
    }
}

/// What a distributed network connection finds at the start of `s`, as
/// `spec_next_connection_message` does; what a message takes is counted with
/// the 8 bytes that `consume` drops for a header.
pub open spec fn spec_next_distributed_message(s: Seq<u8>) -> Result<
    Option<(DistributedMessageView, int)>,
    SlskError,
> {
    match spec_check_distributed(s, 0) {
        Err(SlskError::Incomplete) => Ok(None),
        Err(e) => Err(e),
        Ok((h, q)) => match DistributedMessage::spec_parse(s, q, h.code) {
            Err(e) => Err(e),
            Ok((v, _)) => Ok(Some((v, h.message_len + PEER_MSG_HEADER_LEN))),
        },
    }
}

/// How reading a message changes the buffer: not at all unless a message
/// was read, which is dropped with its header.
pub open spec fn next_consumed<V>(
    next: Result<Option<(V, int)>, SlskError>,
    before: Seq<u8>,
    after: Seq<u8>,
) -> bool {
    match next {
        Ok(Some((_, n))) => after == before.subrange(n, before.len() as int),
        _ => after == before,
    }
}

/// Bytes received from a peer and not parsed yet, with the kind of the
/// connection once it is known.
#[derive(Debug)]
pub struct Connection {
    buffer: Vec<u8>,
    connection_type: Option<ConnectionType>,
}

impl Connection {
    /// The bytes received and not parsed yet.
    pub closed spec fn buffered(&self) -> Seq<u8> {
        self.buffer@
    }

    /// The kind of the connection, once known.
    pub closed spec fn conn_type(&self) -> Option<ConnectionType> {
        self.connection_type
    }

    /// The kind of the connection, once known.
    pub fn connection_type(&self) -> (t: Option<ConnectionType>)
        ensures
            t == self.conn_type(),
    {
        self.connection_type
    }

    /// Sets the kind of the connection.
    pub fn set_connection_type(&mut self, t: Option<ConnectionType>)
        ensures
            final(self).conn_type() == t,
            final(self).buffered() == old(self).buffered(),
    {
        self.connection_type = t;
    }

    /// An empty buffer on a connection whose kind is not known yet.
    pub fn new() -> (c: Connection)
        ensures
            c.buffered() == Seq::<u8>::empty(),
            c.conn_type() is None,
    {
        Connection { buffer: Vec::new(), connection_type: None }
    }

    /// Appends bytes read from the peer.
    pub fn extend(&mut self, bytes: &[u8])
        ensures
            final(self).buffered() == old(self).buffered() + bytes@,
            final(self).conn_type() == old(self).conn_type(),
    {
        crate::frame::write_bytes(&mut self.buffer, bytes);
    }

    /// Whether nothing is buffered.
    pub fn is_empty(&self) -> (b: bool)
        ensures
            b == (self.buffered().len() == 0),
    {
        self.buffer.len() == 0
    }

    /// The peer closed the connection: cleanly when nothing is buffered,
    /// in the middle of a message otherwise.
    pub fn end_of_stream(&self) -> (res: Result<(), SlskError>)
        ensures
            res is Ok <==> self.buffered().len() == 0,
            res is Err ==> res == Err::<(), SlskError>(SlskError::ConnectionResetByPeer),
    {
        if self.buffer.len() == 0 {
            Ok(())
        } else {
            Err(SlskError::ConnectionResetByPeer)
        }
    }

    /// Length of the header that `consume` counts: 8 once the connection
    /// has a kind, 5 before.
    pub open spec fn spec_consumed_header(&self) -> int {
        match self.conn_type() {
            Some(_) => PEER_MSG_HEADER_LEN as int,
            None => CONNECTION_MSG_HEADER_LEN as int,
        }
    }

    /// Drops a message of `message_len` bytes and its header from the start
    /// of the buffer.
    pub fn consume(&mut self, message_len: usize)
        requires
            message_len + old(self).spec_consumed_header() <= old(self).buffered().len(),
        ensures
            final(self).conn_type() == old(self).conn_type(),
            final(self).buffered() == old(self).buffered().subrange(
                message_len + old(self).spec_consumed_header(),
                old(self).buffered().len() as int,
            ),
    {
        let buffered: usize = self.buffer.len();
        assert(message_len + self.spec_consumed_header() <= buffered);
        match self.connection_type {
            Some(_) => drop_prefix(&mut self.buffer, message_len + PEER_MSG_HEADER_LEN as usize),
            None => drop_prefix(
                &mut self.buffer,
                message_len + CONNECTION_MSG_HEADER_LEN as usize,
            ),
        }
    }

    /// A connection message at the start of the buffer: `None` while it is
    /// incomplete. A parsed message is consumed; a message that does not
    /// parse is left in the buffer.
    pub fn parse_connection_message(&mut self) -> (res: Result<
        Option<PeerConnectionMessage>,
        SlskError,
    >)
        requires
            old(self).conn_type() is None,
        ensures
            final(self).conn_type() == old(self).conn_type(),
            next_consumed(
                spec_next_connection_message(old(self).buffered()),
                old(self).buffered(),
                final(self).buffered(),
            ),
            match spec_next_connection_message(old(self).buffered()) {
                Ok(None) => res matches Ok(None),
                Err(e) => res == Err::<Option<PeerConnectionMessage>, SlskError>(e),
                Ok(Some((v, _))) => res matches Ok(Some(m)) && m@ == v,
            },
    {
        let mut buf = Reader::new(self.buffer.as_slice());
        match PeerConnectionMessage::check(&mut buf) {
            Ok(header) => {
                let message = PeerConnectionMessage::parse(&mut buf, &header)?;
                self.consume(header.message_len);
                Ok(Some(message))
            },
            Err(SlskError::Incomplete) => Ok(None),
            Err(e) => Err(e),
        }
    }

    /// A peer message at the start of the buffer: `None` while it is
    /// incomplete. A parsed message is consumed with its 8 byte header; a
    /// message that does not parse is left in the buffer.
    pub fn parse_peer_message(&mut self) -> (res: Result<Option<PeerResponse>, SlskError>)
        requires
            old(self).conn_type() is Some,
        ensures
            final(self).conn_type() == old(self).conn_type(),
            next_consumed(
                spec_next_peer_message(old(self).buffered()),
                old(self).buffered(),
                final(self).buffered(),
            ),
            match spec_next_peer_message(old(self).buffered()) {
                Ok(None) => res matches Ok(None),
                Err(e) => res == Err::<Option<PeerResponse>, SlskError>(e),
                Ok(Some((v, _))) => res matches Ok(Some(m)) && m@ == v,
            },
    {
        let mut buf = Reader::new(self.buffer.as_slice());
        match PeerResponse::check(&mut buf) {
            Ok(header) => {
                let message = PeerResponse::parse(&mut buf, &header)?;
                self.consume(header.message_len);
                Ok(Some(message))
            },
            Err(SlskError::Incomplete) => Ok(None),
            Err(e) => Err(e),
        }
    }

    /// Whether the bytes after a complete distributed message at the start
    /// of the buffer leave room for what `consume` drops: it counts an 8 byte
    /// header where the distributed header has 5 bytes.
    pub open spec fn distributed_consumable(&self) -> bool {
        match spec_check_distributed(self.buffered(), 0) {
            Ok((h, q)) => h.message_len + PEER_MSG_HEADER_LEN <= self.buffered().len(),
            Err(_) => true,
        }
    }

    /// A distributed message at the start of the buffer: `None` while it is
    /// incomplete. A parsed message is consumed as `consume` does, with an 8
    /// byte header; a message that does not parse is left in the buffer.
    pub fn parse_distributed_message(&mut self) -> (res: Result<
        Option<DistributedMessage>,
        SlskError,
    >)
        requires
            old(self).conn_type() is Some,
            old(self).distributed_consumable(),
        ensures
            final(self).conn_type() == old(self).conn_type(),
            next_consumed(
                spec_next_distributed_message(old(self).buffered()),
                old(self).buffered(),
                final(self).buffered(),
            ),
            match spec_next_distributed_message(old(self).buffered()) {
                Ok(None) => res matches Ok(None),
                Err(e) => res == Err::<Option<DistributedMessage>, SlskError>(e),
                Ok(Some((v, _))) => res matches Ok(Some(m)) && m@ == v,
            },
    {
        let mut buf = Reader::new(self.buffer.as_slice());
        match DistributedMessage::check(&mut buf) {
            Ok(header) => {
                let message = DistributedMessage::parse(&mut buf, &header)?;
                self.consume(header.message_len);
                Ok(Some(message))
            },
            Err(SlskError::Incomplete) => Ok(None),
            Err(e) => Err(e),
        }
    }

    /// Whether the buffer can be read on this connection: not a file
    /// transfer or handshake connection, and within the limits that its
    /// parsers need.
    pub open spec fn readable(&self) -> bool {
        match self.conn_type() {
            None => true,
            Some(ConnectionType::PeerToPeer) => true,
            Some(ConnectionType::DistributedNetwork) => self.distributed_consumable(),
            Some(_) => false,
        }
    }

    /// Whether `read_response` may be called now: the connection is not a
    /// file transfer or handshake connection, and the buffer is within the
    /// limits that its parsers need.
    pub fn can_read(&self) -> (b: bool)
        ensures
            b == self.readable(),
    {
        match self.connection_type {
            None => true,
            Some(ConnectionType::PeerToPeer) => true,
            Some(ConnectionType::DistributedNetwork) => {
                let mut buf = Reader::new(self.buffer.as_slice());
                match DistributedMessage::check(&mut buf) {
                    Ok(header) => self.buffer.len() >= 8 && header.message_len <= self.buffer.len() - 8,
                    Err(_) => true,
                }
            },
            Some(_) => false,
        }
    }

    /// Parses the next message from the bytes received so far, as the kind
    /// of the connection frames them: connection messages until the kind is
    /// known, then peer or distributed messages.
    pub fn read_response(&mut self) -> (res: Result<Option<PeerResponsePacket>, SlskError>)
        requires
            old(self).readable(),
        ensures
            final(self).conn_type() == old(self).conn_type(),
            match old(self).conn_type() {
                None => next_consumed(
                    spec_next_connection_message(old(self).buffered()),
                    old(self).buffered(),
                    final(self).buffered(),
                ) && match spec_next_connection_message(old(self).buffered()) {
                    Ok(None) => res matches Ok(None),
                    Err(e) => res == Err::<Option<PeerResponsePacket>, SlskError>(e),
                    Ok(Some((v, _))) => res matches Ok(Some(PeerResponsePacket::ConnectionMessage(m)))
                        && m@ == v,
                },
                Some(ConnectionType::PeerToPeer) => next_consumed(
                    spec_next_peer_message(old(self).buffered()),
                    old(self).buffered(),
                    final(self).buffered(),
                ) && match spec_next_peer_message(old(self).buffered()) {
                    Ok(None) => res matches Ok(None),
                    Err(e) => res == Err::<Option<PeerResponsePacket>, SlskError>(e),
                    Ok(Some((v, _))) => res matches Ok(Some(PeerResponsePacket::Message(m))) && m@
                        == v,
                },
                _ => next_consumed(
                    spec_next_distributed_message(old(self).buffered()),
                    old(self).buffered(),
                    final(self).buffered(),
                ) && match spec_next_distributed_message(old(self).buffered()) {
                    Ok(None) => res matches Ok(None),
                    Err(e) => res == Err::<Option<PeerResponsePacket>, SlskError>(e),
                    Ok(Some((v, _))) => res matches Ok(Some(
                        PeerResponsePacket::DistributedMessage(m),
                    )) && m@ == v,
                },
            },
    {
        match self.connection_type {
            Some(ConnectionType::PeerToPeer) => match self.parse_peer_message() {
                Ok(Some(message)) => Ok(Some(PeerResponsePacket::Message(message))),
                Ok(None) => Ok(None),
                Err(e) => Err(e),
            },
            Some(ConnectionType::DistributedNetwork) => match self.parse_distributed_message() {
                Ok(Some(message)) => Ok(Some(PeerResponsePacket::DistributedMessage(message))),
                Ok(None) => Ok(None),
                Err(e) => Err(e),
            },
            Some(_) => Err(SlskError::UnknownMessage),
            None => match self.parse_connection_message() {
                Ok(Some(message)) => Ok(Some(PeerResponsePacket::ConnectionMessage(message))),
                Ok(None) => Ok(None),
                Err(e) => Err(e),
            },
        }
    }
}

/// A connection message that we write, followed by any bytes, is what a
/// connection whose kind is not known yet reads first: `check` finds it,
/// its body parses to it, and consuming it leaves exactly the bytes that
/// follow it.
pub proof fn lemma_connection_message_consumed(
    v: Result<(Seq<char>, ConnectionType, u32), u32>,
    rest: Seq<u8>,
)
    requires
        PeerConnectionMessage::fits_view(v),
    ensures
        ({
            let s = PeerConnectionMessage::spec_bytes(v) + rest;
            match spec_check_connection(s, 0) {
                Ok((h, q)) => PeerConnectionMessage::spec_parse(s, q, h.code) matches Ok((m, _))
                    && m == v && s.subrange(
                    h.message_len + CONNECTION_MSG_HEADER_LEN,
                    s.len() as int,
                ) == rest,
                Err(_) => false,
            }
        }),
{
    broadcast use crate::frame::group_wire_lemmas;

    crate::peers::messages::connection::lemma_connection_message_roundtrip(v, rest);
    let w = PeerConnectionMessage::spec_bytes(v);
    match v {
        Ok((username, t, _)) => {
            crate::peers::messages::connection::lemma_type_code_roundtrip(t);
            assert(w.len() == PeerConnectionMessage::spec_init_len(username, t) + 4);
        },
        Err(_) => {},
    }
    assert((w + rest).subrange(w.len() as int, (w + rest).len() as int) =~= rest);
}

/// A peer message that we write and that reads back, followed by any bytes,
/// is what a peer to peer connection reads first: `check` finds it, its body
/// parses to the matching response, and consuming it leaves exactly the
/// bytes that follow it.
pub proof fn lemma_peer_message_consumed(
    r: crate::peers::messages::p2p::request::PeerRequest,
    rest: Seq<u8>,
)
    requires
        r.spec_fits(),
        crate::peers::messages::p2p::response::request_roundtrips(&r),
    ensures
        ({
            let s = r.spec_bytes() + rest;
            match spec_check_peer(s, 0) {
                Ok((h, q)) => PeerResponse::spec_parse(s, q, h.code) matches Ok((m, _)) && m
                    == crate::peers::messages::p2p::response::response_view(&r) && s.subrange(
                    h.message_len + PEER_MSG_HEADER_LEN,
                    s.len() as int,
                ) == rest,
                Err(_) => false,
            }
        }),
{
    crate::peers::messages::p2p::response::lemma_peer_request_roundtrip(r, rest);
    let w = r.spec_bytes();
    assert((w + rest).subrange(w.len() as int, (w + rest).len() as int) =~= rest);
}

} // verus!
