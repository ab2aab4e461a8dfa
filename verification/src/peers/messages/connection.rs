//! Messages that set up a connection between peers.
use crate::frame::{
    holds_at, lemma_holds_part, lemma_str_at, lemma_u32_at, lemma_u8_at, le32, read_matches, ser_str, sp_str, sp_u32, sp_u8, str_bytes, write_string, write_u32,
    write_u8, Read, Reader,
};
use crate::message_common::{sp_connection_type, spec_type_code, ConnectionType};
use crate::{ProtocolHeader, SlskError};
use vstd::prelude::*;

verus! {

/// Length of a connection message header: a `u32` length and a `u8` code.
pub const CONNECTION_MSG_HEADER_LEN: u32 = 5;

/// Code of a connection message.
#[derive(Debug, Clone, Copy, PartialEq, Eq, Structural)]
pub enum ConnectionMessageCode {
    PierceFireWall,
    PeerInit,
    Unknown,
}

/// The former name of [`ConnectionMessageCode`].
pub type InitMessageCode = ConnectionMessageCode;

pub open spec fn spec_connection_code(code: u8) -> ConnectionMessageCode {
    if code == 0 {
        ConnectionMessageCode::PierceFireWall
    } else if code == 1 {
        ConnectionMessageCode::PeerInit
    } else {
        ConnectionMessageCode::Unknown
    }
}

impl ConnectionMessageCode {
    /// The code that a wire byte stands for: 0 and 1, anything else unknown.
    pub fn from_u8(code: u8) -> (c: ConnectionMessageCode)
        ensures
            c == spec_connection_code(code),
    {
        if code == 0 {
            ConnectionMessageCode::PierceFireWall
        } else if code == 1 {
            ConnectionMessageCode::PeerInit
        } else {
            ConnectionMessageCode::Unknown
        }
    }
}

/// Header of a connection message: the code and the length of the body.
#[derive(Debug, Clone, Copy, PartialEq, Eq, Structural)]
pub struct ConnectionMessageHeader {
    pub code: ConnectionMessageCode,
    pub message_len: usize,
}

impl View for ConnectionMessageHeader {
    type V = ConnectionMessageHeader;

    open spec fn view(&self) -> ConnectionMessageHeader {
        *self
    }
}

impl ProtocolHeader for ConnectionMessageHeader {
    type Code = ConnectionMessageCode;

    open spec fn spec_message_len(&self) -> nat {
        self.message_len as nat
    }

    open spec fn spec_code(&self) -> ConnectionMessageCode {
        self.code
    }

    fn message_len(&self) -> (n: usize) {
        self.message_len
    }

    fn new(message_len: usize, code: ConnectionMessageCode) -> (h: Self)
        ensures
            h == (ConnectionMessageHeader { code, message_len }),
    {
        ConnectionMessageHeader { code, message_len }
    }
}

impl ConnectionMessageHeader {
    /// A `u32` length, counting the code byte, then the code byte. A length
    /// of zero cannot count the code and is invalid.
    pub open spec fn spec_read(s: Seq<u8>, p: int) -> Read<ConnectionMessageHeader> {
        match sp_u32(s, p) {
            Err(e) => Err(e),
            Ok((length, p)) => match sp_u8(s, p) {
                Err(e) => Err(e),
                Ok((code, p)) => if length < 1 {
                    Err(SlskError::InvalidData)
                } else {
                    Ok(
                        (
                            ConnectionMessageHeader {
                                code: spec_connection_code(code),
                                message_len: (length - 1) as usize,
                            },
                            p,
                        ),
                    )
                },
            },
        }
    }

    pub fn read(src: &mut Reader) -> (res: Result<Self, SlskError>)
        ensures
            final(src).data() == old(src).data(),
            read_matches(res, Self::spec_read(old(src).data(), old(src).position()), final(src).position()),
    {
        let message_length = src.read_u32()?;
        let code = src.read_u8()?;
        let code = ConnectionMessageCode::from_u8(code);
        if message_length < 1 {
            return Err(SlskError::InvalidData);
        }
        Ok(ConnectionMessageHeader::new((message_length - 1) as usize, code))
    }
}

/// A message that sets up a connection between peers.
#[derive(Debug)]
pub enum PeerConnectionMessage {
    /// Answer to an indirect connection request, with its token.
    PierceFirewall(u32),
    /// First message on a direct connection.
    PeerInit { username: String, connection_type: ConnectionType, token: u32 },
}

impl View for PeerConnectionMessage {
    /// `Err(token)` for `PierceFirewall`, `Ok` with user name, type and token
    /// for `PeerInit`.
    type V = Result<(Seq<char>, ConnectionType, u32), u32>;

    open spec fn view(&self) -> Self::V {
        match self {
            PeerConnectionMessage::PierceFirewall(token) => Err(*token),
            PeerConnectionMessage::PeerInit { username, connection_type, token } => Ok(
                (username@, *connection_type, *token),
            ),
        }
    }
}

/// Checking the buffer for a whole connection message.
pub open spec fn spec_check(s: Seq<u8>, p: int) -> Read<ConnectionMessageHeader> {
    if s.len() - p < CONNECTION_MSG_HEADER_LEN {
        Err(SlskError::Incomplete)
    } else {
        match ConnectionMessageHeader::spec_read(s, p) {
            Err(e) => Err(e),
            Ok((h, q)) => if s.len() - q < h.message_len {
                Err(SlskError::Incomplete)
            } else {
                Ok((h, q))
            },
        }
    }
}

impl PeerConnectionMessage {
    /// Checks that the buffer holds a whole message and reads its header.
    pub fn check(src: &mut Reader) -> (res: Result<ConnectionMessageHeader, SlskError>)
        ensures
            final(src).data() == old(src).data(),
            read_matches(res, spec_check(old(src).data(), old(src).position()), final(src).position()),
    {
        if src.remaining() < CONNECTION_MSG_HEADER_LEN as usize {
            return Err(SlskError::Incomplete);
        }
        let header = ConnectionMessageHeader::read(src)?;
        if src.remaining() < header.message_len() {
            Err(SlskError::Incomplete)
        } else {
            Ok(header)
        }
    }

    /// `PierceFirewall`: a token. `PeerInit`: user name, connection type,
    /// token. An unknown code gives `UnknownMessage`.
    pub open spec fn spec_parse(s: Seq<u8>, p: int, code: ConnectionMessageCode) -> Read<
        Result<(Seq<char>, ConnectionType, u32), u32>,
    > {
        match code {
            ConnectionMessageCode::PierceFireWall => match sp_u32(s, p) {
                Err(e) => Err(e),
                Ok((token, p)) => Ok((Err(token), p)),
            },
            ConnectionMessageCode::PeerInit => match sp_str(s, p) {
                Err(e) => Err(e),
                Ok((username, p)) => match sp_connection_type(s, p) {
                    Err(e) => Err(e),
                    Ok((connection_type, p)) => match sp_u32(s, p) {
                        Err(e) => Err(e),
                        Ok((token, p)) => Ok((Ok((username, connection_type, token)), p)),
                    },
                },
            },
            ConnectionMessageCode::Unknown => Err(SlskError::UnknownMessage),
        }
    }

    /// Parses the body of a message whose header has been read.
    pub fn parse(src: &mut Reader, header: &ConnectionMessageHeader) -> (res: Result<
        Self,
        SlskError,
    >)
        ensures
            final(src).data() == old(src).data(),
            read_matches(
                res,
                Self::spec_parse(old(src).data(), old(src).position(), header.code),
                final(src).position(),
            ),
    {
        match header.code {
            ConnectionMessageCode::PierceFireWall => {
                let token = src.read_u32()?;
                Ok(PeerConnectionMessage::PierceFirewall(token))
            },
            ConnectionMessageCode::PeerInit => {
                let username = src.read_string()?;
                let connection_type = <ConnectionType as crate::frame::ParseBytes>::parse(src)?;
                let token = src.read_u32()?;
                Ok(PeerConnectionMessage::PeerInit { username, connection_type, token })
            },
            ConnectionMessageCode::Unknown => Err(SlskError::UnknownMessage),
        }
    }

    pub open spec fn spec_kind(&self) -> Seq<char> {
        match self {
            PeerConnectionMessage::PierceFirewall(_) => "PierceFirewall"@,
            PeerConnectionMessage::PeerInit { .. } => "PeerInit"@,
        }
    }

    /// Name of the message kind, for logging.
    pub fn kind(&self) -> (name: &str)
        ensures
            name@ == self.spec_kind(),
    {
        match self {
            PeerConnectionMessage::PierceFirewall(_) => "PierceFirewall",
            PeerConnectionMessage::PeerInit { .. } => "PeerInit",
        }
    }

    /// Length field of a `PeerInit` message: code, user name, type code, token.
    pub open spec fn spec_init_len(username: Seq<char>, t: ConnectionType) -> int {
        1 + (str_bytes(username) + 4) + (str_bytes(spec_type_code(t)) + 4) + 4
    }

    /// Whether the message can be written: a `PeerInit` needs a connection
    /// type with a code and a length that fits a `u32`.
    pub open spec fn spec_fits(&self) -> bool {
        Self::fits_view(self@)
    }

    /// Whether a message can be written, by what it holds.
    pub open spec fn fits_view(v: Result<(Seq<char>, ConnectionType, u32), u32>) -> bool {
        match v {
            Err(_) => true,
            Ok((username, t, _)) => t != ConnectionType::HandShake && Self::spec_init_len(
                username,
                t,
            ) <= u32::MAX,
        }
    }

    /// `PierceFirewall`: length 5, code 0, token. `PeerInit`: length, code 1,
    /// user name, connection type code, token.
    pub open spec fn spec_bytes(v: Result<(Seq<char>, ConnectionType, u32), u32>) -> Seq<u8> {
        match v {
            Err(token) => le32(CONNECTION_MSG_HEADER_LEN) + seq![0u8] + le32(token),
            Ok((username, t, token)) => le32(Self::spec_init_len(username, t) as u32) + seq![1u8]
                + ser_str(username) + ser_str(spec_type_code(t)) + le32(token),
        }
    }

    pub fn write_to_buf(&self, buffer: &mut Vec<u8>)
        requires
            self.spec_fits(),
        ensures
            final(buffer)@ == old(buffer)@ + Self::spec_bytes(self@),
    {
        match self {
            PeerConnectionMessage::PierceFirewall(token) => {
                write_u32(buffer, CONNECTION_MSG_HEADER_LEN);
                write_u8(buffer, 0);
                write_u32(buffer, *token);
            },
            PeerConnectionMessage::PeerInit { username, connection_type, token } => {
                let username_len = username.as_str().as_bytes().len() as u32 + 4;
                let code = connection_type.as_str();
                let connection_type_len = code.as_bytes().len() as u32 + 4;
                write_u32(buffer, 1 + username_len + connection_type_len + 4);
                write_u8(buffer, 1);
                write_string(buffer, username.as_str());
                write_string(buffer, code);
                write_u32(buffer, *token);
            },
        }
        assert(final(buffer)@ =~= old(buffer)@ + Self::spec_bytes(self@));
    }
}

/// The code of every connection type but the handshake names it back.
pub proof fn lemma_type_code_roundtrip(t: ConnectionType)
    requires
        t != ConnectionType::HandShake,
    ensures
        crate::message_common::spec_type_of_code(spec_type_code(t)) == Some(t),
        str_bytes(spec_type_code(t)) == 1,
{
    reveal_strlit("P");
    reveal_strlit("F");
    reveal_strlit("D");
    let c = spec_type_code(t);
    assert(vstd::utf8::is_ascii_chars(c));
    vstd::utf8::is_ascii_chars_encode_utf8(c);
}

/// A connection message that can be written reads back: `check` finds the
/// whole message and its header, and the body parses to the message, up to
/// its end, whatever follows it.
pub proof fn lemma_connection_message_roundtrip(
    v: Result<(Seq<char>, ConnectionType, u32), u32>,
    rest: Seq<u8>,
)
    requires
        PeerConnectionMessage::fits_view(v),
    ensures
        ({
            let w = PeerConnectionMessage::spec_bytes(v);
            let s = w + rest;
            let code = if v is Err {
                ConnectionMessageCode::PierceFireWall
            } else {
                ConnectionMessageCode::PeerInit
            };
            &&& spec_check(s, 0) == Ok::<(ConnectionMessageHeader, int), SlskError>(
                (ConnectionMessageHeader { code, message_len: (w.len() - 5) as usize }, 5),
            )
            &&& PeerConnectionMessage::spec_parse(s, 5, code) == Ok::<
                (Result<(Seq<char>, ConnectionType, u32), u32>, int),
                SlskError,
            >((v, w.len() as int))
        }),
{
    broadcast use crate::frame::group_wire_lemmas;

    let w = PeerConnectionMessage::spec_bytes(v);
    let s = w + rest;
    assert(holds_at(s, 0, w)) by {
        assert(s.subrange(0, w.len() as int) =~= w);
    }
    match v {
        Err(token) => {
            lemma_holds_part(s, 0, w, 0, le32(CONNECTION_MSG_HEADER_LEN));
            lemma_u32_at(s, 0, CONNECTION_MSG_HEADER_LEN);
            lemma_holds_part(s, 0, w, 4, seq![0u8]);
            lemma_u8_at(s, 4, 0u8);
            lemma_holds_part(s, 0, w, 5, le32(token));
            lemma_u32_at(s, 5, token);
        },
        Ok((username, t, token)) => {
            lemma_type_code_roundtrip(t);
            let len = PeerConnectionMessage::spec_init_len(username, t) as u32;
            let su = ser_str(username);
            let st = ser_str(spec_type_code(t));
            lemma_holds_part(s, 0, w, 0, le32(len));
            lemma_u32_at(s, 0, len);
            lemma_holds_part(s, 0, w, 4, seq![1u8]);
            lemma_u8_at(s, 4, 1u8);
            lemma_holds_part(s, 0, w, 5, su);
            lemma_str_at(s, 5, username);
            lemma_holds_part(s, 0, w, 5 + su.len() as int, st);
            lemma_str_at(s, 5 + su.len() as int, spec_type_code(t));
            lemma_holds_part(s, 0, w, 5 + su.len() as int + st.len() as int, le32(token));
            lemma_u32_at(s, 5 + su.len() as int + st.len() as int, token);
        },
    }
}

/// A message that has not arrived whole is `Incomplete` for `check`,
/// whatever part of it has arrived: the connection keeps the bytes and reads
/// the message once the rest is there.
pub proof fn lemma_connection_partial_incomplete(s: Seq<u8>, k: int)
    requires
        spec_check(s, 0) is Ok,
        0 <= k < CONNECTION_MSG_HEADER_LEN + spec_check(s, 0)->Ok_0.0.message_len,
    ensures
        spec_check(s.subrange(0, k), 0) == Err::<(ConnectionMessageHeader, int), SlskError>(SlskError::Incomplete),
{
    let t = s.subrange(0, k);
    if k >= CONNECTION_MSG_HEADER_LEN {
        assert(t.subrange(0, 4) =~= s.subrange(0, 4));
        assert(t[4] == s[4]);
    }
}

/// The protocol's code byte of each connection message: 0 is
/// `PierceFirewall` and 1 `PeerInit`, every other byte unknown; a message is
/// written with its code byte right after the length field, and a message
/// read with a code is the variant that the code names.
pub proof fn lemma_connection_code_numbers(
    b: u8,
    v: Result<(Seq<char>, ConnectionType, u32), u32>,
    s: Seq<u8>,
    p: int,
    code: ConnectionMessageCode,
)
    ensures
        spec_connection_code(0) == ConnectionMessageCode::PierceFireWall,
        spec_connection_code(1) == ConnectionMessageCode::PeerInit,
        b != 0 && b != 1 ==> spec_connection_code(b) == ConnectionMessageCode::Unknown,
        v is Err ==> PeerConnectionMessage::spec_bytes(v)[4] == 0,
        v is Ok ==> PeerConnectionMessage::spec_bytes(v)[4] == 1,
        PeerConnectionMessage::spec_parse(s, p, code) matches Ok((m, _)) ==> (code
            == ConnectionMessageCode::PierceFireWall ==> m is Err) && (code
            == ConnectionMessageCode::PeerInit ==> m is Ok),
        code == ConnectionMessageCode::Unknown ==> PeerConnectionMessage::spec_parse(s, p, code)
            is Err,
{
    broadcast use crate::frame::group_wire_lemmas;

    let w = PeerConnectionMessage::spec_bytes(v);
    match v {
        Err(token) => {
            assert(w[4] == (le32(CONNECTION_MSG_HEADER_LEN) + seq![0u8])[4]);
        },
        Ok((username, t, token)) => {
            assert(w[4] == (le32(PeerConnectionMessage::spec_init_len(username, t) as u32) + seq![
                1u8,
            ])[4]);
        },
    }
}

} // verus!
