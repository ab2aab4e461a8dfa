//! Peer connection messages in their first form.
use crate::frame::{
    le32, read_matches, ser_str, sp_str, sp_u32, str_bytes, ParseBytes, Read, Reader,
    write_string, write_u32,
};
use crate::message_common::{sp_connection_type, spec_type_code, ConnectionType};
use crate::peer_message::{Header, MessageCode, HEADER_LEN};
use crate::{ProtocolHeader, SlskError};
use vstd::prelude::*;

verus! {

/// A message that sets up a connection between peers.
#[derive(Debug)]
pub enum PeerMessage {
    PierceFirewall(u32),
    PeerInit { username: String, connection_type: ConnectionType, token: u32 },
}

impl View for PeerMessage {
    /// `Err(token)` for `PierceFirewall`, `Ok` with user name, type and token
    /// for `PeerInit`.
    type V = Result<(Seq<char>, ConnectionType, u32), u32>;

    open spec fn view(&self) -> Self::V {
        match self {
            PeerMessage::PierceFirewall(token) => Err(*token),
            PeerMessage::PeerInit { username, connection_type, token } => Ok(
                (username@, *connection_type, *token),
            ),
        }
    }
}

/// Checking the buffer, from its start, for a whole message; on success the
/// position is moved to the end of the header.
pub open spec fn spec_check(s: Seq<u8>, p: int) -> Read<Header> {
    if s.len() - p < HEADER_LEN {
        Err(SlskError::Incomplete)
    } else {
        match Header::spec_read(s, p) {
            Err(e) => Err(e),
            Ok((h, q)) => if s.len() - q < h.message_len {
                Err(SlskError::Incomplete)
            } else {
                Ok((h, HEADER_LEN as int))
            },
        }
    }
}

impl PeerMessage {
    /// Checks that the buffer holds a whole message and reads its header,
    /// then moves to the end of a header at the start of the buffer.
    pub fn check(src: &mut Reader) -> (res: Result<Header, SlskError>)
        ensures
            final(src).data() == old(src).data(),
            read_matches(res, spec_check(old(src).data(), old(src).position()), final(src).position()),
    {
        if src.remaining() < HEADER_LEN as usize {
            return Err(SlskError::Incomplete);
        }
        let header = Header::read(src)?;
        if src.remaining() < header.message_len() {
            Err(SlskError::Incomplete)
        } else {
            src.set_position(HEADER_LEN as usize);
            Ok(header)
        }
    }

    /// `PierceFirewall`: a token. `PeerInit`: user name, connection type,
    /// token. An unknown code gives `UnknownMessage`.
    pub open spec fn spec_parse(s: Seq<u8>, p: int, code: MessageCode) -> Read<
        Result<(Seq<char>, ConnectionType, u32), u32>,
    > {
        match code {
            MessageCode::PierceFireWall => match sp_u32(s, p) {
                Err(e) => Err(e),
                Ok((token, p)) => Ok((Err(token), p)),
            },
            MessageCode::PeerInit => match sp_str(s, p) {
                Err(e) => Err(e),
                Ok((username, p)) => match sp_connection_type(s, p) {
                    Err(e) => Err(e),
                    Ok((connection_type, p)) => match sp_u32(s, p) {
                        Err(e) => Err(e),
                        Ok((token, p)) => Ok((Ok((username, connection_type, token)), p)),
                    },
                },
            },
            MessageCode::Unknown => Err(SlskError::UnknownMessage),
        }
    }

    /// Parses the body of a message whose header has been read.
    pub fn parse(src: &mut Reader, header: &Header) -> (res: Result<Self, SlskError>)
        ensures
            final(src).data() == old(src).data(),
            read_matches(
                res,
                Self::spec_parse(old(src).data(), old(src).position(), header.code),
                final(src).position(),
            ),
    {
        match header.code {
            MessageCode::PierceFireWall => {
                let token = src.read_u32()?;
                Ok(PeerMessage::PierceFirewall(token))
            },
            MessageCode::PeerInit => {
                let username = src.read_string()?;
                let connection_type = ConnectionType::parse(src)?;
                let token = src.read_u32()?;
                Ok(PeerMessage::PeerInit { username, connection_type, token })
            },
            MessageCode::Unknown => Err(SlskError::UnknownMessage),
        }
    }

    pub open spec fn spec_kind(&self) -> Seq<char> {
        match self {
            PeerMessage::PierceFirewall(_) => "PierceFirewall"@,
            PeerMessage::PeerInit { .. } => "PeerInit"@,
        }
    }

    /// Name of the message kind, for logging.
    pub fn kind(&self) -> (name: &str)
        ensures
            name@ == self.spec_kind(),
    {
        match self {
            PeerMessage::PierceFirewall(_) => "PierceFirewall",
            PeerMessage::PeerInit { .. } => "PeerInit",
        }
    }

    /// Length field of a `PeerInit`: the header length, the bytes of the
    /// user name and of the type code, and four.
    pub open spec fn spec_init_len(username: Seq<char>, t: ConnectionType) -> int {
        HEADER_LEN + str_bytes(username) + str_bytes(spec_type_code(t)) + 4
    }

    /// Whether the message can be written: a `PeerInit` needs a connection
    /// type with a code and a length that fits a `u32`.
    pub open spec fn spec_fits(&self) -> bool {
        match self {
            PeerMessage::PierceFirewall(_) => true,
            PeerMessage::PeerInit { username, connection_type, .. } => *connection_type
                != ConnectionType::HandShake && Self::spec_init_len(username@, *connection_type)
                <= u32::MAX,
        }
    }

    /// `PierceFirewall`: the header length, the code 0 as a `u32`, the token.
    /// `PeerInit`: the length, the code 1 as a `u32`, user name, type code,
    /// token.
    pub open spec fn spec_bytes(v: Result<(Seq<char>, ConnectionType, u32), u32>) -> Seq<u8> {
        match v {
            Err(token) => le32(HEADER_LEN) + le32(0) + le32(token),
            Ok((username, t, token)) => le32(Self::spec_init_len(username, t) as u32) + le32(1)
                + ser_str(username) + ser_str(spec_type_code(t)) + le32(token),
        }
    }

    pub fn write_to_buf(&self, buffer: &mut Vec<u8>)
        requires
            self.spec_fits(),
        ensures
            final(buffer)@ == old(buffer)@ + Self::spec_bytes(self@),
    {
        match self {
            PeerMessage::PierceFirewall(token) => {
                write_u32(buffer, HEADER_LEN);
                write_u32(buffer, 0);
                write_u32(buffer, *token);
            },
            PeerMessage::PeerInit { username, connection_type, token } => {
                let username_len = username.as_str().as_bytes().len() as u32;
                let code = connection_type.as_str();
                let connection_type_len = code.as_bytes().len() as u32;
                write_u32(buffer, HEADER_LEN + username_len + connection_type_len + 4);
                write_u32(buffer, 1);
                write_string(buffer, username.as_str());
                write_string(buffer, code);
                write_u32(buffer, *token);
            },
        }
        assert(final(buffer)@ =~= old(buffer)@ + Self::spec_bytes(self@));
    }
}

/// A message that has not arrived whole is `Incomplete` for `check`,
/// whatever part of it has arrived: the connection keeps the bytes and reads
/// the message once the rest is there.
pub proof fn lemma_peer_message_partial_incomplete(s: Seq<u8>, k: int)
    requires
        spec_check(s, 0) is Ok,
        0 <= k < HEADER_LEN + spec_check(s, 0)->Ok_0.0.message_len,
    ensures
        spec_check(s.subrange(0, k), 0) == Err::<(Header, int), SlskError>(SlskError::Incomplete),
{
    let t = s.subrange(0, k);
    if k >= HEADER_LEN {
        assert(t.subrange(0, 4) =~= s.subrange(0, 4));
        assert(t[4] == s[4]);
    }
}

/// The protocol's codes of the first-form peer messages: 0 is
/// `PierceFirewall` and 1 `PeerInit`, every other byte unknown; a message is
/// written with its code, as a `u32`, right after the length field, and a
/// message read with a code is the variant that the code names.
pub proof fn lemma_peer_message_code_numbers(
    b: u8,
    v: Result<(Seq<char>, ConnectionType, u32), u32>,
    s: Seq<u8>,
    p: int,
    code: MessageCode,
)
    ensures
        crate::peer_message::spec_code(0) == MessageCode::PierceFireWall,
        crate::peer_message::spec_code(1) == MessageCode::PeerInit,
        b != 0 && b != 1 ==> crate::peer_message::spec_code(b) == MessageCode::Unknown,
        v is Err ==> PeerMessage::spec_bytes(v).subrange(4, 8) == le32(0),
        v is Ok ==> PeerMessage::spec_bytes(v).subrange(4, 8) == le32(1),
        PeerMessage::spec_parse(s, p, code) matches Ok((m, _)) ==> (code
            == MessageCode::PierceFireWall ==> m is Err) && (code == MessageCode::PeerInit
            ==> m is Ok),
        code == MessageCode::Unknown ==> PeerMessage::spec_parse(s, p, code) is Err,
{
    broadcast use crate::frame::group_wire_lemmas;

    let w = PeerMessage::spec_bytes(v);
    match v {
        Err(token) => {
            assert(w.subrange(4, 8) =~= le32(0));
        },
        Ok((username, t, token)) => {
            assert(w.subrange(4, 8) =~= le32(1));
        },
    }
}

} // verus!
