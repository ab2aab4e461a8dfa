//! Search requests and queries.
use crate::frame::{
    le32, read_matches, ser_str, sp_str, sp_u32, str_bytes, write_string, write_u32, ParseBytes,
    Read, Reader,
};
use crate::server::{lemma_server_framed, ser_header, write_header, Header, MessageCode};
use crate::SlskError;
use crate::frame::{holds_at, lemma_holds_part, lemma_str_at, lemma_u32_at};
use vstd::prelude::*;

verus! {

/// A file search: a ticket chosen by the client and the query.
#[derive(Debug)]
pub struct SearchRequest {
    pub ticket: u32,
    pub query: String,
}

impl View for SearchRequest {
    type V = (u32, Seq<char>);

    open spec fn view(&self) -> Self::V {
        (self.ticket, self.query@)
    }
}

impl SearchRequest {
    pub open spec fn spec_len(v: (u32, Seq<char>)) -> int {
        4 + 4 + 4 + str_bytes(v.1)
    }

    pub open spec fn spec_bytes(v: (u32, Seq<char>), code: MessageCode) -> Seq<u8> {
        ser_header(Self::spec_len(v) as u32, code) + le32(v.0) + ser_str(v.1)
    }

    /// Writes the search with the given code: header, ticket, query.
    pub fn write_to_buf_with_code(&self, buffer: &mut Vec<u8>, code: MessageCode)
        requires
            Self::spec_len(self@) <= u32::MAX,
        ensures
            final(buffer)@ == old(buffer)@ + Self::spec_bytes(self@, code),
    {
        let len = 4 + 4 + 4 + self.query.as_str().as_bytes().len() as u32;
        write_header(buffer, len, code);
        write_u32(buffer, self.ticket);
        write_string(buffer, self.query.as_str());
        assert(final(buffer)@ =~= old(buffer)@ + Self::spec_bytes(self@, code));
    }
}

/// A search in the files of one user, or a search the server forwards to us.
#[derive(Debug)]
pub struct SearchQuery {
    pub username: String,
    pub ticket: u32,
    pub query: String,
}

impl View for SearchQuery {
    type V = (Seq<char>, u32, Seq<char>);

    open spec fn view(&self) -> Self::V {
        (self.username@, self.ticket, self.query@)
    }
}

impl ParseBytes for SearchQuery {
    /// User name, ticket, query.
    open spec fn spec_parse(s: Seq<u8>, p: int) -> Read<Self::V> {
        match sp_str(s, p) {
            Err(e) => Err(e),
            Ok((username, p)) => match sp_u32(s, p) {
                Err(e) => Err(e),
                Ok((ticket, p)) => match sp_str(s, p) {
                    Err(e) => Err(e),
                    Ok((query, p)) => Ok(((username, ticket, query), p)),
                },
            },
        }
    }

    fn parse(src: &mut Reader) -> (res: Result<Self, SlskError>) {
        let username = src.read_string()?;
        let ticket = src.read_u32()?;
        let query = src.read_string()?;
        Ok(SearchQuery { username, ticket, query })
    }
}

impl SearchQuery {
    pub open spec fn spec_len(v: (Seq<char>, u32, Seq<char>)) -> int {
        4 + 4 + str_bytes(v.0) + 4 + 4 + str_bytes(v.2)
    }

    pub open spec fn spec_bytes(v: (Seq<char>, u32, Seq<char>)) -> Seq<u8> {
        ser_header(Self::spec_len(v) as u32, MessageCode::UserSearch) + ser_str(v.0) + le32(v.1)
            + ser_str(v.2)
    }

    /// Writes the search: header with code `UserSearch`, user name, ticket, query.
    pub fn write_to_buf(&self, buffer: &mut Vec<u8>)
        requires
            Self::spec_len(self@) <= u32::MAX,
        ensures
            final(buffer)@ == old(buffer)@ + Self::spec_bytes(self@),
    {
        let len = 4 + 4 + self.username.as_str().as_bytes().len() as u32 + 4 + 4
            + self.query.as_str().as_bytes().len() as u32;
        write_header(buffer, len, MessageCode::UserSearch);
        write_string(buffer, self.username.as_str());
        write_u32(buffer, self.ticket);
        write_string(buffer, self.query.as_str());
        assert(final(buffer)@ =~= old(buffer)@ + Self::spec_bytes(self@));
    }
}

/// A search among the users of a room.
#[derive(Debug)]
pub struct RoomSearchQuery {
    pub room: String,
    pub ticket: u32,
    pub query: String,
}

impl View for RoomSearchQuery {
    type V = (Seq<char>, u32, Seq<char>);

    open spec fn view(&self) -> Self::V {
        (self.room@, self.ticket, self.query@)
    }
}

impl RoomSearchQuery {
    pub open spec fn spec_len(v: (Seq<char>, u32, Seq<char>)) -> int {
        4 + 4 + str_bytes(v.0) + 4 + 4 + str_bytes(v.2)
    }

    pub open spec fn spec_bytes(v: (Seq<char>, u32, Seq<char>)) -> Seq<u8> {
        ser_header(Self::spec_len(v) as u32, MessageCode::RoomSearch) + ser_str(v.0) + le32(v.1)
            + ser_str(v.2)
    }

    /// Writes the search: header with code `RoomSearch`, room, ticket, query.
    pub fn write_to_buf(&self, buffer: &mut Vec<u8>)
        requires
            Self::spec_len(self@) <= u32::MAX,
        ensures
            final(buffer)@ == old(buffer)@ + Self::spec_bytes(self@),
    {
        let len = 4 + 4 + self.room.as_str().as_bytes().len() as u32 + 4 + 4
            + self.query.as_str().as_bytes().len() as u32;
        write_header(buffer, len, MessageCode::RoomSearch);
        write_string(buffer, self.room.as_str());
        write_u32(buffer, self.ticket);
        write_string(buffer, self.query.as_str());
        assert(final(buffer)@ =~= old(buffer)@ + Self::spec_bytes(self@));
    }
}

/// A user search reads back: `check` finds the whole message with the code
/// `UserSearch`, and its body parses to the search, whatever follows the
/// message.
pub proof fn lemma_search_query_roundtrip(v: (Seq<char>, u32, Seq<char>), rest: Seq<u8>)
    requires
        SearchQuery::spec_len(v) <= u32::MAX,
    ensures
        ({
            let w = SearchQuery::spec_bytes(v);
            &&& crate::server::response::spec_check(w + rest, 0) == Ok::<(Header, int), SlskError>(
                (Header { code: MessageCode::UserSearch, message_len: (w.len() - 8) as usize }, 8),
            )
            &&& SearchQuery::spec_parse(w + rest, 8) == Ok::<
                ((Seq<char>, u32, Seq<char>), int),
                SlskError,
            >((v, w.len() as int))
        }),
{
    broadcast use crate::frame::group_wire_lemmas;

    let w = SearchQuery::spec_bytes(v);
    let body = ser_str(v.0) + le32(v.1) + ser_str(v.2);
    let s = w + rest;
    assert(w =~= ser_header((4 + body.len()) as u32, MessageCode::UserSearch) + body);
    lemma_server_framed(w, rest, MessageCode::UserSearch, body);
    let n = ser_str(v.0).len() as int;
    crate::frame::lemma_holds_part(s, 8, body, 0, ser_str(v.0));
    crate::frame::lemma_str_at(s, 8, v.0);
    crate::frame::lemma_holds_part(s, 8, body, n, le32(v.1));
    crate::frame::lemma_u32_at(s, 8 + n, v.1);
    crate::frame::lemma_holds_part(s, 8, body, n + 4, ser_str(v.2));
    crate::frame::lemma_str_at(s, 12 + n, v.2);
}

/// A user search on the wire is the user name, the ticket and the query, in
/// that order.
pub proof fn lemma_search_query_layout(s: Seq<u8>, p: int, username: Seq<char>, ticket: u32, query: Seq<char>)
    requires
        str_bytes(username) <= u32::MAX,
        str_bytes(query) <= u32::MAX,
        holds_at(s, p, ser_str(username) + le32(ticket) + ser_str(query)),
    ensures
        SearchQuery::spec_parse(s, p) == Ok::<((Seq<char>, u32, Seq<char>), int), SlskError>(
            ((username, ticket, query), p + (ser_str(username) + le32(ticket) + ser_str(query)).len()),
        ),
{
    broadcast use crate::frame::group_wire_lemmas;

    let w = ser_str(username) + le32(ticket) + ser_str(query);
    lemma_holds_part(s, p, w, 0int, ser_str(username));
    lemma_str_at(s, p + 0int, username);
    lemma_holds_part(s, p, w, 0int + ser_str(username).len(), le32(ticket));
    lemma_u32_at(s, p + 0int + ser_str(username).len(), ticket);
    lemma_holds_part(s, p, w, 0int + ser_str(username).len() + le32(ticket).len(), ser_str(query));
    lemma_str_at(s, p + 0int + ser_str(username).len() + le32(ticket).len(), query);
}

} // verus!
