//! Serialisation and deserialisation of the Soulseek protocol: server messages,
//! peer messages, peer connection messages and distributed network messages,
//! together with the bookkeeping a client keeps about its peer connections.
use crate::frame::{decimal, utf8_lossy, wire_text, write_bytes, write_decimal};
use vstd::prelude::*;
use vstd::utf8::encode_utf8;

pub mod database;
pub mod dump;
pub mod frame;
pub mod message_common;
pub mod peer_connection;
pub mod peer_message;
pub mod peers;
pub mod server;

verus! {

/// Errors reported by the protocol layer.
#[derive(Debug, Clone, PartialEq, Eq)]
pub enum SlskError {
    /// Not enough data is available to parse a message.
    Incomplete,
    /// Timeout waiting for an answer.
    TimeOut,
    /// A retry loop gave up after the given backoff period.
    BackoffReached(u64),
    /// Peer disconnected.
    ConnectionResetByPeer,
    /// No more connection slot is available.
    NoPermitAvailable,
    /// Ticket for download not found.
    NoTicket,
    /// Previous connection with peer was lost.
    PeerConnectionLost,
    /// A message with a code that the protocol does not define.
    UnknownMessage,
    /// The message body ends before a field that it announces.
    UnexpectedEof,
    /// The message holds a value that the protocol does not allow.
    InvalidData,
    /// A peer, named when its user name is known, stayed silent for longer
    /// than the handler waits; the wait, in milliseconds, that was not made.
    ListenTimedOut(Option<String>, u64),
}

/// The header of a framed message: the message code and the length of the
/// body that follows it.
pub trait ProtocolHeader: Sized {
    /// The codes that the header carries.
    type Code;

    /// Length of the body that follows the header.
    spec fn spec_message_len(&self) -> nat;

    /// The code that the header carries.
    spec fn spec_code(&self) -> Self::Code;

    /// Length of the body that follows the header.
    fn message_len(&self) -> (n: usize)
        ensures
            n == self.spec_message_len(),
    ;

    /// The header of a body of `message_len` bytes with `code`.
    fn new(message_len: usize, code: Self::Code) -> (h: Self)
        ensures
            h.spec_message_len() == message_len,
            h.spec_code() == code,
    ;
}

/// Bytes of the text that names a peer that may be unknown: `Some("name")`
/// or `None`, as `Debug` prints it for names without quotes, backslashes or
/// control characters (which the text leaves unescaped).
pub open spec fn spec_peer_text(peer: Option<String>) -> Seq<u8> {
    match peer {
        Some(name) => encode_utf8("Some(\""@) + encode_utf8(name@) + encode_utf8("\")"@),
        None => encode_utf8("None"@),
    }
}

/// Bytes of the text that describes an error.
pub open spec fn spec_error_text(e: SlskError) -> Seq<u8> {
    match e {
        SlskError::Incomplete => encode_utf8("stream ended early"@),
        SlskError::TimeOut => encode_utf8(
            "timed out after deadline has elapsed reading soulseek stream"@,
        ),
        SlskError::BackoffReached(n) => encode_utf8("Backoff period reached : "@) + decimal(
            n as nat,
        ),
        SlskError::ConnectionResetByPeer => encode_utf8("Connection reset by peer"@),
        SlskError::NoPermitAvailable => encode_utf8("No available connection"@),
        SlskError::NoTicket => encode_utf8("Ticket for download not found"@),
        SlskError::PeerConnectionLost => encode_utf8("Previous connection with peer was lost"@),
        SlskError::UnknownMessage => encode_utf8("Got unkown message"@),
        SlskError::UnexpectedEof => encode_utf8("protocol error; message ends early"@),
        SlskError::InvalidData => encode_utf8("protocol error; invalid frame format"@),
        SlskError::ListenTimedOut(peer, ms) => encode_utf8("Timed out listening for peer "@)
            + spec_peer_text(peer) + encode_utf8(" after "@) + decimal(ms as nat) + encode_utf8(
            "ms"@,
        ),
    }
}

impl SlskError {
    /// The text that describes the error.
    pub fn to_string(&self) -> (s: String)
        ensures
            s@ == wire_text(spec_error_text(*self)),
    {
        let mut out: Vec<u8> = Vec::new();
        match self {
            SlskError::Incomplete => write_bytes(&mut out, "stream ended early".as_bytes()),
            SlskError::TimeOut => write_bytes(
                &mut out,
                "timed out after deadline has elapsed reading soulseek stream".as_bytes(),
            ),
            SlskError::BackoffReached(n) => {
                write_bytes(&mut out, "Backoff period reached : ".as_bytes());
                write_decimal(&mut out, *n);
            },
            SlskError::ConnectionResetByPeer => write_bytes(
                &mut out,
                "Connection reset by peer".as_bytes(),
            ),
            SlskError::NoPermitAvailable => write_bytes(&mut out, "No available connection".as_bytes()),
            SlskError::NoTicket => write_bytes(&mut out, "Ticket for download not found".as_bytes()),
            SlskError::PeerConnectionLost => write_bytes(
                &mut out,
                "Previous connection with peer was lost".as_bytes(),
            ),
            SlskError::UnknownMessage => write_bytes(&mut out, "Got unkown message".as_bytes()),
            SlskError::UnexpectedEof => write_bytes(
                &mut out,
                "protocol error; message ends early".as_bytes(),
            ),
            SlskError::InvalidData => write_bytes(
                &mut out,
                "protocol error; invalid frame format".as_bytes(),
            ),
            SlskError::ListenTimedOut(peer, ms) => {
                write_bytes(&mut out, "Timed out listening for peer ".as_bytes());
                match peer {
                    Some(name) => {
                        write_bytes(&mut out, "Some(\"".as_bytes());
                        write_bytes(&mut out, name.as_str().as_bytes());
                        write_bytes(&mut out, "\")".as_bytes());
                    },
                    None => write_bytes(&mut out, "None".as_bytes()),
                }
                write_bytes(&mut out, " after ".as_bytes());
                write_decimal(&mut out, *ms);
                write_bytes(&mut out, "ms".as_bytes());
            },
        }
        assert(out@ =~= spec_error_text(*self));
        utf8_lossy(out.as_slice())
    }
}

} // verus!
