//! Chat messages.
use crate::frame::{
    item, le32, read_matches, ser_list, ser_str, sp_bool, sp_str, sp_u32, str_bytes, views,
    write_list, write_string, ParseBytes, Read, Reader, ToBytes,
};
use crate::server::{ser_header, write_header, MessageCode};
use crate::SlskError;
use crate::frame::{holds_at, ser_bool, lemma_holds_part, lemma_str_at, lemma_u32_at, lemma_bool_at};
use vstd::prelude::*;

verus! {

/// Something we say in a chat room.
#[derive(Debug)]
pub struct SayInChat {
    pub room: String,
    pub message: String,
}

impl View for SayInChat {
    type V = (Seq<char>, Seq<char>);

    open spec fn view(&self) -> Self::V {
        (self.room@, self.message@)
    }
}

impl SayInChat {
    /// Length field of the message: code, then the two strings.
    pub open spec fn spec_len(v: (Seq<char>, Seq<char>)) -> int {
        4 + 4 + str_bytes(v.0) + 4 + str_bytes(v.1)
    }

    pub open spec fn spec_bytes(v: (Seq<char>, Seq<char>)) -> Seq<u8> {
        ser_header(Self::spec_len(v) as u32, MessageCode::SayInChatRoom) + ser_str(v.0) + ser_str(
            v.1,
        )
    }

    /// Writes the message: header with code `SayInChatRoom`, room, message.
    pub fn write_to_buf(&self, buffer: &mut Vec<u8>)
        requires
            Self::spec_len(self@) <= u32::MAX,
        ensures
            final(buffer)@ == old(buffer)@ + Self::spec_bytes(self@),
    {
        let len = 4 + 4 + self.room.as_str().as_bytes().len() as u32 + 4
            + self.message.as_str().as_bytes().len() as u32;
        write_header(buffer, len, MessageCode::SayInChatRoom);
        write_string(buffer, self.room.as_str());
        write_string(buffer, self.message.as_str());
        assert(final(buffer)@ =~= old(buffer)@ + Self::spec_bytes(self@));
    }
}

/// A message said in a chat room.
#[derive(Debug)]
pub struct ChatMessage {
    pub room: String,
    pub username: String,
    pub message: String,
}

impl View for ChatMessage {
    type V = (Seq<char>, Seq<char>, Seq<char>);

    open spec fn view(&self) -> Self::V {
        (self.room@, self.username@, self.message@)
    }
}

impl ParseBytes for ChatMessage {
    /// Room, user name, message.
    open spec fn spec_parse(s: Seq<u8>, p: int) -> Read<Self::V> {
        match sp_str(s, p) {
            Err(e) => Err(e),
            Ok((room, p)) => match sp_str(s, p) {
                Err(e) => Err(e),
                Ok((username, p)) => match sp_str(s, p) {
                    Err(e) => Err(e),
                    Ok((message, p)) => Ok(((room, username, message), p)),
                },
            },
        }
    }

    fn parse(src: &mut Reader) -> (res: Result<Self, SlskError>) {
        let room = src.read_string()?;
        let username = src.read_string()?;
        let message = src.read_string()?;
        Ok(ChatMessage { room, username, message })
    }
}

/// A private message sent to us.
#[derive(Debug)]
pub struct PrivateMessage {
    pub id: u32,
    pub timestamp: u32,
    pub username: String,
    pub message: String,
    pub is_new: bool,
}

impl View for PrivateMessage {
    type V = (u32, u32, Seq<char>, Seq<char>, bool);

    open spec fn view(&self) -> Self::V {
        (self.id, self.timestamp, self.username@, self.message@, self.is_new)
    }
}

impl ParseBytes for PrivateMessage {
    /// Id, timestamp, user name, message, whether it is new.
    open spec fn spec_parse(s: Seq<u8>, p: int) -> Read<Self::V> {
        match sp_u32(s, p) {
            Err(e) => Err(e),
            Ok((id, p)) => match sp_u32(s, p) {
                Err(e) => Err(e),
                Ok((timestamp, p)) => match sp_str(s, p) {
                    Err(e) => Err(e),
                    Ok((username, p)) => match sp_str(s, p) {
                        Err(e) => Err(e),
                        Ok((message, p)) => match sp_bool(s, p) {
                            Err(e) => Err(e),
                            Ok((is_new, p)) => Ok(((id, timestamp, username, message, is_new), p)),
                        },
                    },
                },
            },
        }
    }

    fn parse(src: &mut Reader) -> (res: Result<Self, SlskError>) {
        let id = src.read_u32()?;
        let timestamp = src.read_u32()?;
        let username = src.read_string()?;
        let message = src.read_string()?;
        let is_new = src.read_bool()?;
        Ok(PrivateMessage { id, timestamp, username, message, is_new })
    }
}

/// A private message to several users.
#[derive(Debug)]
pub struct GroupMessage {
    pub users: Vec<String>,
    pub message: String,
}

impl View for GroupMessage {
    type V = (Seq<Seq<char>>, Seq<char>);

    open spec fn view(&self) -> Self::V {
        (views(self.users@), self.message@)
    }
}

impl GroupMessage {
    /// Body of the message: the list of users, then the message.
    pub open spec fn spec_body(v: (Seq<Seq<char>>, Seq<char>)) -> Seq<u8> {
        ser_list::<String>(v.0) + ser_str(v.1)
    }

    pub open spec fn spec_bytes(v: (Seq<Seq<char>>, Seq<char>)) -> Seq<u8> {
        ser_header((4 + Self::spec_body(v).len()) as u32, MessageCode::MessageUsers)
            + Self::spec_body(v)
    }

    /// Writes the message: header with code `MessageUsers`, the users, the message.
    pub fn write_to_buf(&self, buffer: &mut Vec<u8>)
        requires
            4 + Self::spec_body(self@).len() <= u32::MAX,
        ensures
            final(buffer)@ == old(buffer)@ + Self::spec_bytes(self@),
    {
        let mut body: Vec<u8> = Vec::new();
        write_list(&mut body, &self.users);
        write_string(&mut body, self.message.as_str());
        assert(body@ =~= Self::spec_body(self@));
        write_header(buffer, 4 + body.len() as u32, MessageCode::MessageUsers);
        crate::frame::write_bytes(buffer, body.as_slice());
        assert(final(buffer)@ =~= old(buffer)@ + Self::spec_bytes(self@));
    }
}

/// A chat room message on the wire is the room, the user name and the message,
/// each a length-prefixed string, in that order.
pub proof fn lemma_chat_message_layout(s: Seq<u8>, p: int, room: Seq<char>, username: Seq<char>, message: Seq<char>)
    requires
        str_bytes(room) <= u32::MAX,
        str_bytes(username) <= u32::MAX,
        str_bytes(message) <= u32::MAX,
        holds_at(s, p, ser_str(room) + ser_str(username) + ser_str(message)),
    ensures
        ChatMessage::spec_parse(s, p) == Ok::<((Seq<char>, Seq<char>, Seq<char>), int), SlskError>(
            ((room, username, message), p + (ser_str(room) + ser_str(username) + ser_str(message)).len()),
        ),
{
    broadcast use crate::frame::group_wire_lemmas;

    let w = ser_str(room) + ser_str(username) + ser_str(message);
    lemma_holds_part(s, p, w, 0int, ser_str(room));
    lemma_str_at(s, p + 0int, room);
    lemma_holds_part(s, p, w, 0int + ser_str(room).len(), ser_str(username));
    lemma_str_at(s, p + 0int + ser_str(room).len(), username);
    lemma_holds_part(s, p, w, 0int + ser_str(room).len() + ser_str(username).len(), ser_str(message));
    lemma_str_at(s, p + 0int + ser_str(room).len() + ser_str(username).len(), message);
}

/// A private message on the wire is its id, its timestamp, the user name,
/// the message and whether it is new, in that order.
pub proof fn lemma_private_message_layout(s: Seq<u8>, p: int, id: u32, timestamp: u32, username: Seq<char>, message: Seq<char>, is_new: bool)
    requires
        str_bytes(username) <= u32::MAX,
        str_bytes(message) <= u32::MAX,
        holds_at(s, p, le32(id) + le32(timestamp) + ser_str(username) + ser_str(message) + ser_bool(is_new)),
    ensures
        PrivateMessage::spec_parse(s, p) == Ok::<((u32, u32, Seq<char>, Seq<char>, bool), int), SlskError>(
            ((id, timestamp, username, message, is_new), p + (le32(id) + le32(timestamp) + ser_str(username) + ser_str(message) + ser_bool(is_new)).len()),
        ),
{
    broadcast use crate::frame::group_wire_lemmas;

    let w = le32(id) + le32(timestamp) + ser_str(username) + ser_str(message) + ser_bool(is_new);
    lemma_holds_part(s, p, w, 0int, le32(id));
    lemma_u32_at(s, p + 0int, id);
    lemma_holds_part(s, p, w, 0int + le32(id).len(), le32(timestamp));
    lemma_u32_at(s, p + 0int + le32(id).len(), timestamp);
    lemma_holds_part(s, p, w, 0int + le32(id).len() + le32(timestamp).len(), ser_str(username));
    lemma_str_at(s, p + 0int + le32(id).len() + le32(timestamp).len(), username);
    lemma_holds_part(s, p, w, 0int + le32(id).len() + le32(timestamp).len() + ser_str(username).len(), ser_str(message));
    lemma_str_at(s, p + 0int + le32(id).len() + le32(timestamp).len() + ser_str(username).len(), message);
    lemma_holds_part(s, p, w, 0int + le32(id).len() + le32(timestamp).len() + ser_str(username).len() + ser_str(message).len(), ser_bool(is_new));
    lemma_bool_at(s, p + 0int + le32(id).len() + le32(timestamp).len() + ser_str(username).len() + ser_str(message).len(), is_new);
}

} // verus!
