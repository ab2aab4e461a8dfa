//! Messages of the distributed search network, exchanged with parents and
//! children over a `"D"` connection.
use crate::frame::{
    holds_at, lemma_holds_part, lemma_str_at, lemma_u32_at, lemma_u8_at, le32, read_matches, ser_str, sp_str, sp_u32, sp_u8, str_bytes, write_string, write_u32,
    write_u8, ParseBytes, Read, Reader,
};
use crate::{ProtocolHeader, SlskError};
use vstd::prelude::*;

verus! {

/// Length of a distributed message header: a `u32` length and a `u8` code.
pub const DISTRIBUTED_MSG_HEADER_LEN: u32 = 5;

/// Code of a distributed message.
#[derive(Debug, Clone, Copy, PartialEq, Eq, Structural)]
pub enum DistributedMessageCode {
    Ping,
    SearchRequest,
    BranchLevel,
    BranchRoot,
    ChildDepth,
    ServerSearchRequest,
    Unknown,
}

/// The code that a byte on the wire stands for.
pub open spec fn spec_distributed_code(code: u8) -> DistributedMessageCode {
    if code == 0 {
        DistributedMessageCode::Ping
    } else if code == 3 {
        DistributedMessageCode::SearchRequest
    } else if code == 4 {
        DistributedMessageCode::BranchLevel
    } else if code == 5 {
        DistributedMessageCode::BranchRoot
    } else if code == 7 {
        DistributedMessageCode::ChildDepth
    } else if code == 93 {
        DistributedMessageCode::ServerSearchRequest
    } else {
        DistributedMessageCode::Unknown
    }
}

impl DistributedMessageCode {
    /// The code that a byte on the wire stands for: 0, 3, 4, 5, 7 and 93 are
    /// known, anything else is unknown.
    pub fn from_u8(code: u8) -> (c: DistributedMessageCode)
        ensures
            c == spec_distributed_code(code),
    {
        if code == 0 {
            DistributedMessageCode::Ping
        } else if code == 3 {
            DistributedMessageCode::SearchRequest
        } else if code == 4 {
            DistributedMessageCode::BranchLevel
        } else if code == 5 {
            DistributedMessageCode::BranchRoot
        } else if code == 7 {
            DistributedMessageCode::ChildDepth
        } else if code == 93 {
            DistributedMessageCode::ServerSearchRequest
        } else {
            DistributedMessageCode::Unknown
        }
    }
}

/// Header of a distributed message: the code and the length of the body.
#[derive(Debug, Clone, Copy, PartialEq, Eq, Structural)]
pub struct DistributedMessageHeader {
    pub code: DistributedMessageCode,
    pub message_len: usize,
}

impl View for DistributedMessageHeader {
    type V = DistributedMessageHeader;

    open spec fn view(&self) -> DistributedMessageHeader {
        *self
    }
}

impl ProtocolHeader for DistributedMessageHeader {
    type Code = DistributedMessageCode;

    open spec fn spec_message_len(&self) -> nat {
        self.message_len as nat
    }

    open spec fn spec_code(&self) -> DistributedMessageCode {
        self.code
    }

    fn message_len(&self) -> (n: usize) {
        self.message_len
    }

    fn new(message_len: usize, code: DistributedMessageCode) -> (h: Self)
        ensures
            h == (DistributedMessageHeader { code, message_len }),
    {
        DistributedMessageHeader { code, message_len }
    }
}

impl DistributedMessageHeader {
    /// A `u32` length, counting the code byte, then the code byte. A length
    /// of zero cannot count the code and is invalid.
    pub open spec fn spec_read(s: Seq<u8>, p: int) -> Read<DistributedMessageHeader> {
        match sp_u32(s, p) {
            Err(e) => Err(e),
            Ok((length, p)) => match sp_u8(s, p) {
                Err(e) => Err(e),
                Ok((code, p)) => if length < 1 {
                    Err(SlskError::InvalidData)
                } else {
                    Ok(
                        (
                            DistributedMessageHeader {
                                code: spec_distributed_code(code),
                                message_len: (length - 1) as usize,
                            },
                            p,
                        ),
                    )
                },
            },
        }
    }

    pub fn read(src: &mut Reader) -> (res: Result<Self, SlskError>)
        ensures
            final(src).data() == old(src).data(),
            read_matches(res, Self::spec_read(old(src).data(), old(src).position()), final(src).position()),
    {
        let message_length = src.read_u32()?;
        let code = src.read_u8()?;
        let code = DistributedMessageCode::from_u8(code);
        if message_length < 1 {
            return Err(SlskError::InvalidData);
        }
        Ok(DistributedMessageHeader::new((message_length - 1) as usize, code))
    }
}

/// A search that travels down the distributed network.
#[derive(Debug)]
pub struct SearchRequest {
    pub unknown: u32,
    pub username: String,
    pub ticket: u32,
    pub query: String,
}

impl View for SearchRequest {
    type V = (u32, Seq<char>, u32, Seq<char>);

    open spec fn view(&self) -> Self::V {
        (self.unknown, self.username@, self.ticket, self.query@)
    }
}

impl ParseBytes for SearchRequest {
    /// An unknown `u32`, the user name, the ticket, the query.
    open spec fn spec_parse(s: Seq<u8>, p: int) -> Read<Self::V> {
        match sp_u32(s, p) {
            Err(e) => Err(e),
            Ok((unknown, p)) => match sp_str(s, p) {
                Err(e) => Err(e),
                Ok((username, p)) => match sp_u32(s, p) {
                    Err(e) => Err(e),
                    Ok((ticket, p)) => match sp_str(s, p) {
                        Err(e) => Err(e),
                        Ok((query, p)) => Ok(((unknown, username, ticket, query), p)),
                    },
                },
            },
        }
    }

    fn parse(src: &mut Reader) -> (res: Result<Self, SlskError>) {
        let ghost spec = Self::spec_parse(src.data(), src.position());
        let unknown = src.read_u32()?;
        let username = src.read_string()?;
        let ticket = src.read_u32()?;
        let query = src.read_string()?;
        Ok(SearchRequest { unknown, username, ticket, query })
    }
}

/// A message of the distributed network.
#[derive(Debug)]
pub enum DistributedMessage {
    Ping,
    SearchRequest(SearchRequest),
    BranchLevel(u32),
    BranchRoot(String),
    ChildDepth(u32),
    ServerSearchRequest,
    Unknown,
}

/// What a distributed message holds, with its strings as text.
pub enum DistributedMessageView {
    Ping,
    SearchRequest((u32, Seq<char>, u32, Seq<char>)),
    BranchLevel(u32),
    BranchRoot(Seq<char>),
    ChildDepth(u32),
    ServerSearchRequest,
    Unknown,
}

impl View for DistributedMessage {
    type V = DistributedMessageView;

    open spec fn view(&self) -> DistributedMessageView {
        match self {
            DistributedMessage::Ping => DistributedMessageView::Ping,
            DistributedMessage::SearchRequest(r) => DistributedMessageView::SearchRequest(r@),
            DistributedMessage::BranchLevel(x) => DistributedMessageView::BranchLevel(*x),
            DistributedMessage::BranchRoot(r) => DistributedMessageView::BranchRoot(r@),
            DistributedMessage::ChildDepth(x) => DistributedMessageView::ChildDepth(*x),
            DistributedMessage::ServerSearchRequest => DistributedMessageView::ServerSearchRequest,
            DistributedMessage::Unknown => DistributedMessageView::Unknown,
        }
    }
}

/// Checking the buffer for a whole distributed message.
pub open spec fn spec_check(s: Seq<u8>, p: int) -> Read<DistributedMessageHeader> {
    if s.len() - p < DISTRIBUTED_MSG_HEADER_LEN {
        Err(SlskError::Incomplete)
    } else {
        match DistributedMessageHeader::spec_read(s, p) {
            Err(e) => Err(e),
            Ok((h, q)) => if s.len() - q < h.message_len {
                Err(SlskError::Incomplete)
            } else {
                Ok((h, q))
            },
        }
    }
}

/// Length field of a message: the code byte and the body.
pub open spec fn spec_distributed_len(v: DistributedMessageView) -> int {
    match v {
        DistributedMessageView::SearchRequest(r) => 1 + 4 + (4 + str_bytes(r.1)) + 4 + (4
            + str_bytes(r.3)),
        DistributedMessageView::BranchLevel(_) => 5int,
        DistributedMessageView::BranchRoot(root) => 1 + 4 + str_bytes(root),
        DistributedMessageView::ChildDepth(_) => 5int,
        _ => 1int,
    }
}

/// Wire code of a message.
pub open spec fn spec_distributed_code_of(v: DistributedMessageView) -> u8 {
    match v {
        DistributedMessageView::Ping => 0,
        DistributedMessageView::SearchRequest(_) => 3,
        DistributedMessageView::BranchLevel(_) => 4,
        DistributedMessageView::BranchRoot(_) => 5,
        DistributedMessageView::ChildDepth(_) => 7,
        DistributedMessageView::ServerSearchRequest => 93,
        DistributedMessageView::Unknown => 0,
    }
}

/// Body of a message.
pub open spec fn spec_distributed_body(v: DistributedMessageView) -> Seq<u8> {
    match v {
        DistributedMessageView::SearchRequest(r) => le32(r.0) + ser_str(r.1) + le32(r.2)
            + ser_str(r.3),
        DistributedMessageView::BranchLevel(x) => le32(x),
        DistributedMessageView::BranchRoot(root) => ser_str(root),
        DistributedMessageView::ChildDepth(x) => le32(x),
        _ => Seq::empty(),
    }
}

impl DistributedMessage {
    /// Checks that the buffer holds a whole message and reads its header.
    pub fn check(src: &mut Reader) -> (res: Result<DistributedMessageHeader, SlskError>)
        ensures
            final(src).data() == old(src).data(),
            read_matches(res, spec_check(old(src).data(), old(src).position()), final(src).position()),
    {
        if src.remaining() < DISTRIBUTED_MSG_HEADER_LEN as usize {
            return Err(SlskError::Incomplete);
        }
        let header = DistributedMessageHeader::read(src)?;
        if src.remaining() < header.message_len() {
            Err(SlskError::Incomplete)
        } else {
            Ok(header)
        }
    }

    /// The body of a message with the given code. `Ping` and
    /// `ServerSearchRequest` have none; an unknown code reads as `Unknown`.
    pub open spec fn spec_parse(s: Seq<u8>, p: int, code: DistributedMessageCode) -> Read<
        DistributedMessageView,
    > {
        match code {
            DistributedMessageCode::Ping => Ok((DistributedMessageView::Ping, p)),
            DistributedMessageCode::SearchRequest => match SearchRequest::spec_parse(s, p) {
                Err(e) => Err(e),
                Ok((r, p)) => Ok((DistributedMessageView::SearchRequest(r), p)),
            },
            DistributedMessageCode::BranchLevel => match sp_u32(s, p) {
                Err(e) => Err(e),
                Ok((x, p)) => Ok((DistributedMessageView::BranchLevel(x), p)),
            },
            DistributedMessageCode::BranchRoot => match sp_str(s, p) {
                Err(e) => Err(e),
                Ok((root, p)) => Ok((DistributedMessageView::BranchRoot(root), p)),
            },
            DistributedMessageCode::ChildDepth => match sp_u32(s, p) {
                Err(e) => Err(e),
                Ok((x, p)) => Ok((DistributedMessageView::ChildDepth(x), p)),
            },
            DistributedMessageCode::ServerSearchRequest => Ok(
                (DistributedMessageView::ServerSearchRequest, p),
            ),
            DistributedMessageCode::Unknown => Ok((DistributedMessageView::Unknown, p)),
        }
    }

    /// Parses the body of a message whose header has been read.
    pub fn parse(src: &mut Reader, header: &DistributedMessageHeader) -> (res: Result<
        Self,
        SlskError,
    >)
        ensures
            final(src).data() == old(src).data(),
            read_matches(
                res,
                Self::spec_parse(old(src).data(), old(src).position(), header.code),
                final(src).position(),
            ),
    {
        match header.code {
            DistributedMessageCode::Ping => Ok(DistributedMessage::Ping),
            DistributedMessageCode::SearchRequest => {
                let r = SearchRequest::parse(src)?;
                Ok(DistributedMessage::SearchRequest(r))
            },
            DistributedMessageCode::BranchLevel => {
                let x = src.read_u32()?;
                Ok(DistributedMessage::BranchLevel(x))
            },
            DistributedMessageCode::BranchRoot => {
                let root = src.read_string()?;
                Ok(DistributedMessage::BranchRoot(root))
            },
            DistributedMessageCode::ChildDepth => {
                let x = src.read_u32()?;
                Ok(DistributedMessage::ChildDepth(x))
            },
            DistributedMessageCode::ServerSearchRequest => Ok(
                DistributedMessage::ServerSearchRequest,
            ),
            DistributedMessageCode::Unknown => Ok(DistributedMessage::Unknown),
        }
    }

    pub open spec fn spec_kind(&self) -> Seq<char> {
        match self {
            DistributedMessage::Ping => "Ping"@,
            DistributedMessage::SearchRequest(_) => "SearchRequest"@,
            DistributedMessage::BranchLevel(_) => "BranchLevel"@,
            DistributedMessage::BranchRoot(_) => "BranchRoot"@,
            DistributedMessage::ChildDepth(_) => "ChildDepth"@,
            DistributedMessage::ServerSearchRequest => "ServerSearchRequest"@,
            DistributedMessage::Unknown => "Unknown"@,
        }
    }

    /// Name of the message kind, for logging.
    pub fn kind(&self) -> (name: &str)
        ensures
            name@ == self.spec_kind(),
    {
        match self {
            DistributedMessage::Ping => "Ping",
            DistributedMessage::SearchRequest(_) => "SearchRequest",
            DistributedMessage::BranchLevel(_) => "BranchLevel",
            DistributedMessage::BranchRoot(_) => "BranchRoot",
            DistributedMessage::ChildDepth(_) => "ChildDepth",
            DistributedMessage::ServerSearchRequest => "ServerSearchRequest",
            DistributedMessage::Unknown => "Unknown",
        }
    }

    /// Whether the message can be written: it is not `Unknown`, and its
    /// length fits a `u32`.
    pub open spec fn spec_fits(&self) -> bool {
        Self::fits_view(self@)
    }

    /// Whether a message can be written, by what it holds.
    pub open spec fn fits_view(v: DistributedMessageView) -> bool {
        !(v is Unknown) && spec_distributed_len(v) <= u32::MAX
    }

    /// The bytes of a message: length, code, body.
    pub open spec fn spec_bytes(v: DistributedMessageView) -> Seq<u8> {
        le32(spec_distributed_len(v) as u32) + seq![spec_distributed_code_of(v)]
            + spec_distributed_body(v)
    }

    pub fn write_to_buf(&self, buffer: &mut Vec<u8>)
        requires
            self.spec_fits(),
        ensures
            final(buffer)@ == old(buffer)@ + Self::spec_bytes(self@),
    {
        match self {
            DistributedMessage::Ping => {
                write_u32(buffer, 1);
                write_u8(buffer, 0);
            },
            DistributedMessage::SearchRequest(r) => {
                let len = 1 + 4 + (4 + r.username.as_str().as_bytes().len() as u32) + 4 + (4
                    + r.query.as_str().as_bytes().len() as u32);
                write_u32(buffer, len);
                write_u8(buffer, 3);
                write_u32(buffer, r.unknown);
                write_string(buffer, r.username.as_str());
                write_u32(buffer, r.ticket);
                write_string(buffer, r.query.as_str());
            },
            DistributedMessage::BranchLevel(x) => {
                write_u32(buffer, 5);
                write_u8(buffer, 4);
                write_u32(buffer, *x);
            },
            DistributedMessage::BranchRoot(root) => {
                let len = 1 + 4 + root.as_str().as_bytes().len() as u32;
                write_u32(buffer, len);
                write_u8(buffer, 5);
                write_string(buffer, root.as_str());
            },
            DistributedMessage::ChildDepth(x) => {
                write_u32(buffer, 5);
                write_u8(buffer, 7);
                write_u32(buffer, *x);
            },
            DistributedMessage::ServerSearchRequest => {
                write_u32(buffer, 1);
                write_u8(buffer, 93);
            },
            DistributedMessage::Unknown => {},
        }
        assert(final(buffer)@ =~= old(buffer)@ + Self::spec_bytes(self@));
    }
}

/// The code that a message is written with.
pub open spec fn spec_code_of(v: DistributedMessageView) -> DistributedMessageCode {
    spec_distributed_code(spec_distributed_code_of(v))
}

/// A distributed message that can be written reads back: `check` finds the
/// whole message and its header, and the body parses to the message, up to
/// its end, whatever follows it.
pub proof fn lemma_distributed_roundtrip(v: DistributedMessageView, rest: Seq<u8>)
    requires
        DistributedMessage::fits_view(v),
    ensures
        ({
            let w = DistributedMessage::spec_bytes(v);
            let s = w + rest;
            &&& spec_check(s, 0) == Ok::<(DistributedMessageHeader, int), SlskError>(
                (
                    DistributedMessageHeader {
                        code: spec_code_of(v),
                        message_len: (w.len() - 5) as usize,
                    },
                    5,
                ),
            )
            &&& DistributedMessage::spec_parse(s, 5, spec_code_of(v)) == Ok::<
                (DistributedMessageView, int),
                SlskError,
            >((v, w.len() as int))
        }),
{
    broadcast use crate::frame::group_wire_lemmas;

    let w = DistributedMessage::spec_bytes(v);
    let s = w + rest;
    let body = spec_distributed_body(v);
    assert(holds_at(s, 0, w)) by {
        assert(s.subrange(0, w.len() as int) =~= w);
    }
    lemma_holds_part(s, 0, w, 0, le32(spec_distributed_len(v) as u32));
    lemma_u32_at(s, 0, spec_distributed_len(v) as u32);
    lemma_holds_part(s, 0, w, 4, seq![spec_distributed_code_of(v)]);
    lemma_u8_at(s, 4, spec_distributed_code_of(v));
    lemma_holds_part(s, 0, w, 5, body);
    match v {
        DistributedMessageView::SearchRequest(r) => {
            let su = ser_str(r.1);
            let sq = ser_str(r.3);
            lemma_holds_part(s, 5, body, 0, le32(r.0));
            lemma_u32_at(s, 5, r.0);
            lemma_holds_part(s, 5, body, 4, su);
            lemma_str_at(s, 9, r.1);
            lemma_holds_part(s, 5, body, 4 + su.len() as int, le32(r.2));
            lemma_u32_at(s, 9 + su.len() as int, r.2);
            lemma_holds_part(s, 5, body, 8 + su.len() as int, sq);
            lemma_str_at(s, 13 + su.len() as int, r.3);
        },
        DistributedMessageView::BranchLevel(x) => {
            lemma_u32_at(s, 5, x);
        },
        DistributedMessageView::BranchRoot(root) => {
            lemma_str_at(s, 5, root);
        },
        DistributedMessageView::ChildDepth(x) => {
            lemma_u32_at(s, 5, x);
        },
        _ => {},
    }
}

/// A message that has not arrived whole is `Incomplete` for `check`,
/// whatever part of it has arrived: the connection keeps the bytes and reads
/// the message once the rest is there.
pub proof fn lemma_distributed_partial_incomplete(s: Seq<u8>, k: int)
    requires
        spec_check(s, 0) is Ok,
        0 <= k < DISTRIBUTED_MSG_HEADER_LEN + spec_check(s, 0)->Ok_0.0.message_len,
    ensures
        spec_check(s.subrange(0, k), 0) == Err::<(DistributedMessageHeader, int), SlskError>(SlskError::Incomplete),
{
    let t = s.subrange(0, k);
    if k >= DISTRIBUTED_MSG_HEADER_LEN {
        assert(t.subrange(0, 4) =~= s.subrange(0, 4));
        assert(t[4] == s[4]);
    }
}

/// The protocol's code byte of each distributed message: 0 ping, 3 search
/// request, 4 branch level, 5 branch root, 7 child depth, 93 server search
/// request; every other byte is unknown. A message is written with its
/// message's code byte, right after the length field.
pub proof fn lemma_distributed_code_numbers(b: u8, v: DistributedMessageView)
    ensures
        spec_distributed_code(0) == DistributedMessageCode::Ping,
        spec_distributed_code(3) == DistributedMessageCode::SearchRequest,
        spec_distributed_code(4) == DistributedMessageCode::BranchLevel,
        spec_distributed_code(5) == DistributedMessageCode::BranchRoot,
        spec_distributed_code(7) == DistributedMessageCode::ChildDepth,
        spec_distributed_code(93) == DistributedMessageCode::ServerSearchRequest,
        b != 0 && b != 3 && b != 4 && b != 5 && b != 7 && b != 93 ==> spec_distributed_code(b)
            == DistributedMessageCode::Unknown,
        v is Ping ==> DistributedMessage::spec_bytes(v)[4] == 0,
        v is SearchRequest ==> DistributedMessage::spec_bytes(v)[4] == 3,
        v is BranchLevel ==> DistributedMessage::spec_bytes(v)[4] == 4,
        v is BranchRoot ==> DistributedMessage::spec_bytes(v)[4] == 5,
        v is ChildDepth ==> DistributedMessage::spec_bytes(v)[4] == 7,
        v is ServerSearchRequest ==> DistributedMessage::spec_bytes(v)[4] == 93,
{
    broadcast use crate::frame::group_wire_lemmas;

    let w = DistributedMessage::spec_bytes(v);
    let l = le32(spec_distributed_len(v) as u32);
    assert(w[4] == (l + seq![spec_distributed_code_of(v)])[4]);
}

/// A distributed search request on the wire is a leading `u32`, the user
/// name, the ticket and the query, in that order.
pub proof fn lemma_search_request_layout(s: Seq<u8>, p: int, unknown: u32, username: Seq<char>, ticket: u32, query: Seq<char>)
    requires
        str_bytes(username) <= u32::MAX,
        str_bytes(query) <= u32::MAX,
        holds_at(s, p, le32(unknown) + ser_str(username) + le32(ticket) + ser_str(query)),
    ensures
        SearchRequest::spec_parse(s, p) == Ok::<((u32, Seq<char>, u32, Seq<char>), int), SlskError>(
            ((unknown, username, ticket, query), p + (le32(unknown) + ser_str(username) + le32(ticket) + ser_str(query)).len()),
        ),
{
    broadcast use crate::frame::group_wire_lemmas;

    let w = le32(unknown) + ser_str(username) + le32(ticket) + ser_str(query);
    lemma_holds_part(s, p, w, 0int, le32(unknown));
    lemma_u32_at(s, p + 0int, unknown);
    lemma_holds_part(s, p, w, 0int + le32(unknown).len(), ser_str(username));
    lemma_str_at(s, p + 0int + le32(unknown).len(), username);
    lemma_holds_part(s, p, w, 0int + le32(unknown).len() + ser_str(username).len(), le32(ticket));
    lemma_u32_at(s, p + 0int + le32(unknown).len() + ser_str(username).len(), ticket);
    lemma_holds_part(s, p, w, 0int + le32(unknown).len() + ser_str(username).len() + le32(ticket).len(), ser_str(query));
    lemma_str_at(s, p + 0int + le32(unknown).len() + ser_str(username).len() + le32(ticket).len(), query);
}

/// Parsing a distributed message body gives the variant that its code stands
/// for, whatever the body holds.
pub proof fn lemma_distributed_variant_follows_code(
    s: Seq<u8>,
    p: int,
    c: DistributedMessageCode,
    v: DistributedMessageView,
    q: int,
)
    requires
        DistributedMessage::spec_parse(s, p, c) == Ok::<(DistributedMessageView, int), SlskError>(
            (v, q),
        ),
    ensures
        c is Ping <==> v is Ping,
        c is SearchRequest <==> v is SearchRequest,
        c is BranchLevel <==> v is BranchLevel,
        c is BranchRoot <==> v is BranchRoot,
        c is ChildDepth <==> v is ChildDepth,
        c is ServerSearchRequest <==> v is ServerSearchRequest,
        c is Unknown <==> v is Unknown,
{
}

} // verus!
