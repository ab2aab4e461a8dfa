//! Chat room messages.
use crate::frame::{
    item, read_list, read_matches, ser_str, sp_list, sp_str, sp_u32, sp_u64, str_bytes, views,
    write_string, ParseBytes, Read, Reader,
};
use crate::server::user::{Status, UserData};
use crate::server::{lemma_server_framed, ser_header, write_header, Header, MessageCode};
use crate::SlskError;
use crate::frame::{holds_at, le32, le64, lemma_holds_part, lemma_str_at, lemma_u32_at, lemma_u64_at};
use vstd::prelude::*;

verus! {

/// Pairs of the items of two sequences, as long as the shorter one.
pub open spec fn zip2<A, B>(a: Seq<A>, b: Seq<B>) -> Seq<(A, B)> {
    Seq::new(
        if a.len() <= b.len() {
            a.len()
        } else {
            b.len()
        },
        |i: int| (a[i], b[i]),
    )
}

/// Rooms with their number of users.
pub type Rooms = Vec<(String, u32)>;

/// Rooms: a list of names, then a list of user counts, paired in order up to
/// the shorter of the two lists.
pub open spec fn sp_rooms(s: Seq<u8>, p: int) -> Read<Seq<(Seq<char>, u32)>> {
    match sp_list(s, p, item::<String>()) {
        Err(e) => Err(e),
        Ok((names, p)) => match sp_list(s, p, item::<u32>()) {
            Err(e) => Err(e),
            Ok((counts, p)) => Ok((zip2(names, counts), p)),
        },
    }
}

/// The rooms of the server.
#[derive(Debug, Default)]
pub struct RoomList {
    pub rooms: Rooms,
    pub owned_private_rooms: Rooms,
    pub private_rooms: Rooms,
    pub operated_private_rooms: Vec<String>,
}

impl View for RoomList {
    type V = (
        Seq<(Seq<char>, u32)>,
        Seq<(Seq<char>, u32)>,
        Seq<(Seq<char>, u32)>,
        Seq<Seq<char>>,
    );

    open spec fn view(&self) -> Self::V {
        (
            views(self.rooms@),
            views(self.owned_private_rooms@),
            views(self.private_rooms@),
            views(self.operated_private_rooms@),
        )
    }
}

impl RoomList {
    /// Reads a list of rooms with their user counts.
    pub fn extract_room(src: &mut Reader) -> (res: Result<Rooms, SlskError>)
        ensures
            final(src).data() == old(src).data(),
            crate::frame::list_matches(
                res,
                sp_rooms(old(src).data(), old(src).position()),
                final(src).position(),
            ),
    {
        let names = read_list::<String>(src)?;
        let counts = read_list::<u32>(src)?;
        let n = if names.len() <= counts.len() {
            names.len()
        } else {
            counts.len()
        };
        let ghost vn = views(names@);
        let ghost vc = views(counts@);
        let mut rooms: Rooms = Vec::new();
        let mut i: usize = 0;
        while i < n
            invariant
                i <= n,
                n <= names@.len(),
                n <= counts@.len(),
                vn == views(names@),
                vc == views(counts@),
                views(rooms@) == zip2(vn, vc).subrange(0, i as int),
            decreases n - i,
        {
            let pair = (names[i].clone(), counts[i]);
            proof {
                crate::frame::lemma_views_push(rooms@, pair);
            }
            rooms.push(pair);
            i = i + 1;
            assert(views(rooms@) =~= zip2(vn, vc).subrange(0, i as int));
        }
        assert(zip2(vn, vc).subrange(0, n as int) =~= zip2(vn, vc));
        Ok(rooms)
    }
}

impl ParseBytes for RoomList {
    /// Public rooms, owned private rooms, private rooms, then the list of
    /// private rooms that we operate.
    open spec fn spec_parse(s: Seq<u8>, p: int) -> Read<Self::V> {
        match sp_rooms(s, p) {
            Err(e) => Err(e),
            Ok((rooms, p)) => match sp_rooms(s, p) {
                Err(e) => Err(e),
                Ok((owned, p)) => match sp_rooms(s, p) {
                    Err(e) => Err(e),
                    Ok((private, p)) => match sp_list(s, p, item::<String>()) {
                        Err(e) => Err(e),
                        Ok((operated, p)) => Ok(((rooms, owned, private, operated), p)),
                    },
                },
            },
        }
    }

    fn parse(src: &mut Reader) -> (res: Result<Self, SlskError>) {
        let rooms = RoomList::extract_room(src)?;
        let owned_private_rooms = RoomList::extract_room(src)?;
        let private_rooms = RoomList::extract_room(src)?;
        let operated_private_rooms = read_list::<String>(src)?;
        Ok(RoomList { rooms, owned_private_rooms, private_rooms, operated_private_rooms })
    }
}

/// A user joined a room that we are in.
#[derive(Debug)]
pub struct UserJoinedRoom {
    pub room: String,
    pub username: String,
    pub status: u32,
    pub avgspeed: u32,
    pub downloadnum: u64,
    pub files: u32,
    pub dirs: u32,
    pub slotsfree: u32,
    pub countrycode: String,
}

impl View for UserJoinedRoom {
    type V = (Seq<char>, Seq<char>, u32, u32, u64, u32, u32, u32, Seq<char>);

    open spec fn view(&self) -> Self::V {
        (
            self.room@,
            self.username@,
            self.status,
            self.avgspeed,
            self.downloadnum,
            self.files,
            self.dirs,
            self.slotsfree,
            self.countrycode@,
        )
    }
}

impl ParseBytes for UserJoinedRoom {
    /// Room, user name, status, average speed, download count, files,
    /// directories, free slots, country code.
    open spec fn spec_parse(s: Seq<u8>, p: int) -> Read<Self::V> {
        match sp_str(s, p) {
            Err(e) => Err(e),
            Ok((room, p)) => match sp_str(s, p) {
                Err(e) => Err(e),
                Ok((username, p)) => match sp_u32(s, p) {
                    Err(e) => Err(e),
                    Ok((status, p)) => match sp_u32(s, p) {
                        Err(e) => Err(e),
                        Ok((avgspeed, p)) => match sp_u64(s, p) {
                            Err(e) => Err(e),
                            Ok((downloadnum, p)) => match sp_u32(s, p) {
                                Err(e) => Err(e),
                                Ok((files, p)) => match sp_u32(s, p) {
                                    Err(e) => Err(e),
                                    Ok((dirs, p)) => match sp_u32(s, p) {
                                        Err(e) => Err(e),
                                        Ok((slotsfree, p)) => match sp_str(s, p) {
                                            Err(e) => Err(e),
                                            Ok((countrycode, p)) => Ok(
                                                (
                                                    (
                                                        room,
                                                        username,
                                                        status,
                                                        avgspeed,
                                                        downloadnum,
                                                        files,
                                                        dirs,
                                                        slotsfree,
                                                        countrycode,
                                                    ),
                                                    p,
                                                ),
                                            ),
                                        },
                                    },
                                },
                            },
                        },
                    },
                },
            },
        }
    }

    fn parse(src: &mut Reader) -> (res: Result<Self, SlskError>) {
        let room = src.read_string()?;
        let username = src.read_string()?;
        let status = src.read_u32()?;
        let avgspeed = src.read_u32()?;
        let downloadnum = src.read_u64()?;
        let files = src.read_u32()?;
        let dirs = src.read_u32()?;
        let slotsfree = src.read_u32()?;
        let countrycode = src.read_string()?;
        Ok(
            UserJoinedRoom {
                room,
                username,
                status,
                avgspeed,
                downloadnum,
                files,
                dirs,
                slotsfree,
                countrycode,
            },
        )
    }
}

/// A room and a user: who joined, left, was added or removed.
#[derive(Debug)]
pub struct UserRoomEvent {
    pub room: String,
    pub username: String,
}

impl View for UserRoomEvent {
    type V = (Seq<char>, Seq<char>);

    open spec fn view(&self) -> Self::V {
        (self.room@, self.username@)
    }
}

impl ParseBytes for UserRoomEvent {
    open spec fn spec_parse(s: Seq<u8>, p: int) -> Read<Self::V> {
        match sp_str(s, p) {
            Err(e) => Err(e),
            Ok((room, p)) => match sp_str(s, p) {
                Err(e) => Err(e),
                Ok((username, p)) => Ok(((room, username), p)),
            },
        }
    }

    fn parse(src: &mut Reader) -> (res: Result<Self, SlskError>) {
        let room_name = src.read_string()?;
        let username = src.read_string()?;
        Ok(UserRoomEvent { room: room_name, username })
    }
}

impl UserRoomEvent {
    pub open spec fn spec_len(v: (Seq<char>, Seq<char>)) -> int {
        4 + 4 + str_bytes(v.0) + 4 + str_bytes(v.1)
    }

    pub open spec fn spec_bytes(v: (Seq<char>, Seq<char>), code: MessageCode) -> Seq<u8> {
        ser_header(Self::spec_len(v) as u32, code) + ser_str(v.0) + ser_str(v.1)
    }

    /// Writes the event with the given code: header, room, user name.
    pub fn write_to_buf_with_code(&self, buffer: &mut Vec<u8>, code: MessageCode)
        requires
            Self::spec_len(self@) <= u32::MAX,
        ensures
            final(buffer)@ == old(buffer)@ + Self::spec_bytes(self@, code),
    {
        let len = 4 + 4 + self.room.as_str().as_bytes().len() as u32 + 4
            + self.username.as_str().as_bytes().len() as u32;
        write_header(buffer, len, code);
        write_string(buffer, self.room.as_str());
        write_string(buffer, self.username.as_str());
        assert(final(buffer)@ =~= old(buffer)@ + Self::spec_bytes(self@, code));
    }
}

/// Users of a room, zipped from the room message's parallel lists.
pub open spec fn zip_users(
    names: Seq<Seq<char>>,
    data: Seq<(u32, u64, u32, u32)>,
    statuses: Seq<Status>,
    countries: Seq<Seq<char>>,
) -> Seq<(Seq<char>, Status, (u32, u64, u32, u32), Seq<char>)> {
    let n = vstd::math::min(
        vstd::math::min(names.len() as int, data.len() as int),
        vstd::math::min(statuses.len() as int, countries.len() as int),
    );
    Seq::new(n as nat, |i: int| (names[i], statuses[i], data[i], countries[i]))
}

/// The view of a joined room: name, users, owner and operators of a private room.
pub type RoomJoinedView = (
    Seq<char>,
    Seq<(Seq<char>, Status, (u32, u64, u32, u32), Seq<char>)>,
    Option<Seq<char>>,
    Option<Seq<Seq<char>>>,
);

/// A room that we joined.
#[derive(Debug)]
pub struct RoomJoined {
    pub room_name: String,
    pub users: Vec<RoomUser>,
    pub owner: Option<String>,
    pub operators: Option<RoomOperators>,
}

/// Operators of a private room.
pub type RoomOperators = Vec<String>;

impl View for RoomJoined {
    type V = RoomJoinedView;

    open spec fn view(&self) -> Self::V {
        (
            self.room_name@,
            views(self.users@),
            match self.owner {
                Some(o) => Some(o@),
                None => None,
            },
            match self.operators {
                Some(o) => Some(views(o@)),
                None => None,
            },
        )
    }
}

impl RoomJoined {
    /// Room name, then parallel lists of user names, statuses, user data,
    /// free slots (dropped) and country codes, zipped up to the shortest. In a
    /// public room the message ends there: that is, when the position reaches
    /// `msg_len + 8`, the end of a message body of `msg_len` bytes after its
    /// 8-byte header. Otherwise the owner and the list of operators follow.
    pub open spec fn spec_parse(s: Seq<u8>, p: int, msg_len: int) -> Read<RoomJoinedView> {
        match sp_str(s, p) {
            Err(e) => Err(e),
            Ok((room_name, p)) => match sp_list(s, p, item::<String>()) {
                Err(e) => Err(e),
                Ok((names, p)) => match sp_list(s, p, item::<Status>()) {
                    Err(e) => Err(e),
                    Ok((statuses, p)) => match sp_list(s, p, item::<UserData>()) {
                        Err(e) => Err(e),
                        Ok((data, p)) => match sp_list(s, p, item::<u32>()) {
                            Err(e) => Err(e),
                            Ok((_free_slots, p)) => match sp_list(s, p, item::<String>()) {
                                Err(e) => Err(e),
                                Ok((countries, p)) => {
                                    let users = zip_users(names, data, statuses, countries);
                                    if p == msg_len + 8 {
                                        Ok(((room_name, users, None, None), p))
                                    } else {
                                        match sp_str(s, p) {
                                            Err(e) => Err(e),
                                            Ok((owner, p)) => match sp_list(s, p, item::<String>()) {
                                                Err(e) => Err(e),
                                                Ok((ops, p)) => Ok(
                                                    ((room_name, users, Some(owner), Some(ops)), p),
                                                ),
                                            },
                                        }
                                    }
                                },
                            },
                        },
                    },
                },
            },
        }
    }

    pub fn parse(src: &mut Reader, msg_len: usize) -> (res: Result<Self, SlskError>)
        ensures
            final(src).data() == old(src).data(),
            read_matches(
                res,
                Self::spec_parse(old(src).data(), old(src).position(), msg_len as int),
                final(src).position(),
            ),
    {
        let room_name = src.read_string()?;
        let usernames = read_list::<String>(src)?;
        let user_status = read_list::<Status>(src)?;
        let user_data = read_list::<UserData>(src)?;
        let _free_slots = read_list::<u32>(src)?;
        let country_codes = read_list::<String>(src)?;
        let pos = src.pos();
        let is_public_room = msg_len <= pos && pos - msg_len == 8;
        let mut owner: Option<String> = None;
        let mut operators: Option<RoomOperators> = None;
        if !is_public_room {
            owner = Some(src.read_string()?);
            operators = Some(read_list::<String>(src)?);
        }
        let ghost vn = views(usernames@);
        let ghost vd = views(user_data@);
        let ghost vs = views(user_status@);
        let ghost vc = views(country_codes@);
        let mut n = usernames.len();
        if user_data.len() < n {
            n = user_data.len();
        }
        if user_status.len() < n {
            n = user_status.len();
        }
        if country_codes.len() < n {
            n = country_codes.len();
        }
        assert(n == zip_users(vn, vd, vs, vc).len());
        let mut users: Vec<RoomUser> = Vec::new();
        let mut i: usize = 0;
        while i < n
            invariant
                i <= n,
                n <= usernames@.len(),
                n <= user_data@.len(),
                n <= user_status@.len(),
                n <= country_codes@.len(),
                vn == views(usernames@),
                vd == views(user_data@),
                vs == views(user_status@),
                vc == views(country_codes@),
                n == zip_users(vn, vd, vs, vc).len(),
                views(users@) == zip_users(vn, vd, vs, vc).subrange(0, i as int),
            decreases n - i,
        {
            let user = RoomUser {
                name: usernames[i].clone(),
                status: user_status[i],
                data: user_data[i],
                country: country_codes[i].clone(),
            };
            proof {
                crate::frame::lemma_views_push(users@, user);
            }
            users.push(user);
            i = i + 1;
            assert(views(users@) =~= zip_users(vn, vd, vs, vc).subrange(0, i as int));
        }
        assert(zip_users(vn, vd, vs, vc).subrange(0, n as int) =~= zip_users(vn, vd, vs, vc));
        Ok(RoomJoined { room_name, users, owner, operators })
    }
}

/// A user of a room.
#[derive(Debug)]
pub struct RoomUser {
    pub name: String,
    pub status: Status,
    pub data: UserData,
    pub country: String,
}

impl View for RoomUser {
    type V = (Seq<char>, Status, (u32, u64, u32, u32), Seq<char>);

    open spec fn view(&self) -> Self::V {
        (self.name@, self.status, self.data@, self.country@)
    }
}

/// Tickers of a room.
#[derive(Debug)]
pub struct RoomTickers {
    pub room: String,
    pub tickers: Vec<Ticker>,
}

impl View for RoomTickers {
    type V = (Seq<char>, Seq<(Seq<char>, Seq<char>)>);

    open spec fn view(&self) -> Self::V {
        (self.room@, views(self.tickers@))
    }
}

impl ParseBytes for RoomTickers {
    /// Room, then a list of tickers.
    open spec fn spec_parse(s: Seq<u8>, p: int) -> Read<Self::V> {
        match sp_str(s, p) {
            Err(e) => Err(e),
            Ok((room, p)) => match sp_list(s, p, item::<Ticker>()) {
                Err(e) => Err(e),
                Ok((tickers, p)) => Ok(((room, tickers), p)),
            },
        }
    }

    fn parse(src: &mut Reader) -> (res: Result<Self, SlskError>) {
        let room = src.read_string()?;
        let tickers = read_list::<Ticker>(src)?;
        Ok(RoomTickers { room, tickers })
    }
}

/// A ticker set in a room by a user.
#[derive(Debug)]
pub struct RoomTicker {
    pub room: String,
    pub username: String,
    pub ticker: String,
}

impl View for RoomTicker {
    type V = (Seq<char>, Seq<char>, Seq<char>);

    open spec fn view(&self) -> Self::V {
        (self.room@, self.username@, self.ticker@)
    }
}

impl ParseBytes for RoomTicker {
    open spec fn spec_parse(s: Seq<u8>, p: int) -> Read<Self::V> {
        match sp_str(s, p) {
            Err(e) => Err(e),
            Ok((room, p)) => match sp_str(s, p) {
                Err(e) => Err(e),
                Ok((username, p)) => match sp_str(s, p) {
                    Err(e) => Err(e),
                    Ok((ticker, p)) => Ok(((room, username, ticker), p)),
                },
            },
        }
    }

    fn parse(src: &mut Reader) -> (res: Result<Self, SlskError>) {
        let room = src.read_string()?;
        let username = src.read_string()?;
        let ticker = src.read_string()?;
        Ok(RoomTicker { room, username, ticker })
    }
}

/// A user's ticker.
#[derive(Debug)]
pub struct Ticker {
    pub username: String,
    pub ticker: String,
}

impl View for Ticker {
    type V = (Seq<char>, Seq<char>);

    open spec fn view(&self) -> Self::V {
        (self.username@, self.ticker@)
    }
}

impl ParseBytes for Ticker {
    open spec fn spec_parse(s: Seq<u8>, p: int) -> Read<Self::V> {
        match sp_str(s, p) {
            Err(e) => Err(e),
            Ok((username, p)) => match sp_str(s, p) {
                Err(e) => Err(e),
                Ok((ticker, p)) => Ok(((username, ticker), p)),
            },
        }
    }

    fn parse(src: &mut Reader) -> (res: Result<Self, SlskError>) {
        let username = src.read_string()?;
        let ticker = src.read_string()?;
        Ok(Ticker { username, ticker })
    }
}

impl Ticker {
    pub open spec fn spec_len(v: (Seq<char>, Seq<char>)) -> int {
        4 + 4 + str_bytes(v.0) + 4 + str_bytes(v.1)
    }

    pub open spec fn spec_bytes(v: (Seq<char>, Seq<char>)) -> Seq<u8> {
        ser_header(Self::spec_len(v) as u32, MessageCode::SetRoomTicker) + ser_str(v.0) + ser_str(
            v.1,
        )
    }

    /// Writes the ticker: header with code `SetRoomTicker`, then its two strings.
    pub fn write_to_buf(&self, buffer: &mut Vec<u8>)
        requires
            Self::spec_len(self@) <= u32::MAX,
        ensures
            final(buffer)@ == old(buffer)@ + Self::spec_bytes(self@),
    {
        let len = 4 + 4 + self.username.as_str().as_bytes().len() as u32 + 4
            + self.ticker.as_str().as_bytes().len() as u32;
        write_header(buffer, len, MessageCode::SetRoomTicker);
        write_string(buffer, self.username.as_str());
        write_string(buffer, self.ticker.as_str());
        assert(final(buffer)@ =~= old(buffer)@ + Self::spec_bytes(self@));
    }
}

/// Users of a room.
#[derive(Debug)]
pub struct RoomUsers {
    pub room: String,
    pub users: Vec<String>,
}

impl View for RoomUsers {
    type V = (Seq<char>, Seq<Seq<char>>);

    open spec fn view(&self) -> Self::V {
        (self.room@, views(self.users@))
    }
}

impl ParseBytes for RoomUsers {
    open spec fn spec_parse(s: Seq<u8>, p: int) -> Read<Self::V> {
        match sp_str(s, p) {
            Err(e) => Err(e),
            Ok((room, p)) => match sp_list(s, p, item::<String>()) {
                Err(e) => Err(e),
                Ok((users, p)) => Ok(((room, users), p)),
            },
        }
    }

    fn parse(src: &mut Reader) -> (res: Result<Self, SlskError>) {
        let room = src.read_string()?;
        let users = read_list::<String>(src)?;
        Ok(RoomUsers { room, users })
    }
}

/// A room event written with a code reads back: `check` finds the whole
/// message with that code, and its body parses to the event, whatever
/// follows the message.
pub proof fn lemma_user_room_event_roundtrip(
    v: (Seq<char>, Seq<char>),
    code: MessageCode,
    rest: Seq<u8>,
)
    requires
        UserRoomEvent::spec_len(v) <= u32::MAX,
        code != MessageCode::Unknown,
    ensures
        ({
            let w = UserRoomEvent::spec_bytes(v, code);
            &&& crate::server::response::spec_check(w + rest, 0) == Ok::<(Header, int), SlskError>(
                (Header { code, message_len: (w.len() - 8) as usize }, 8),
            )
            &&& UserRoomEvent::spec_parse(w + rest, 8) == Ok::<((Seq<char>, Seq<char>), int), SlskError>(
                (v, w.len() as int),
            )
        }),
{
    broadcast use crate::frame::group_wire_lemmas;

    let w = UserRoomEvent::spec_bytes(v, code);
    let body = ser_str(v.0) + ser_str(v.1);
    assert(w =~= ser_header((4 + body.len()) as u32, code) + body);
    lemma_server_framed(w, rest, code, body);
    crate::frame::lemma_holds_part(w + rest, 8, body, 0, ser_str(v.0));
    crate::frame::lemma_str_at(w + rest, 8, v.0);
    crate::frame::lemma_holds_part(w + rest, 8, body, ser_str(v.0).len() as int, ser_str(v.1));
    crate::frame::lemma_str_at(w + rest, 8 + ser_str(v.0).len() as int, v.1);
}

/// A room ticker on the wire is the room, the user name and the ticker, in
/// that order.
pub proof fn lemma_room_ticker_layout(s: Seq<u8>, p: int, room: Seq<char>, username: Seq<char>, ticker: Seq<char>)
    requires
        str_bytes(room) <= u32::MAX,
        str_bytes(username) <= u32::MAX,
        str_bytes(ticker) <= u32::MAX,
        holds_at(s, p, ser_str(room) + ser_str(username) + ser_str(ticker)),
    ensures
        RoomTicker::spec_parse(s, p) == Ok::<((Seq<char>, Seq<char>, Seq<char>), int), SlskError>(
            ((room, username, ticker), p + (ser_str(room) + ser_str(username) + ser_str(ticker)).len()),
        ),
{
    broadcast use crate::frame::group_wire_lemmas;

    let w = ser_str(room) + ser_str(username) + ser_str(ticker);
    lemma_holds_part(s, p, w, 0int, ser_str(room));
    lemma_str_at(s, p + 0int, room);
    lemma_holds_part(s, p, w, 0int + ser_str(room).len(), ser_str(username));
    lemma_str_at(s, p + 0int + ser_str(room).len(), username);
    lemma_holds_part(s, p, w, 0int + ser_str(room).len() + ser_str(username).len(), ser_str(ticker));
    lemma_str_at(s, p + 0int + ser_str(room).len() + ser_str(username).len(), ticker);
}

/// A room event on the wire is the room, then the user name.
pub proof fn lemma_user_room_event_layout(s: Seq<u8>, p: int, room: Seq<char>, username: Seq<char>)
    requires
        str_bytes(room) <= u32::MAX,
        str_bytes(username) <= u32::MAX,
        holds_at(s, p, ser_str(room) + ser_str(username)),
    ensures
        UserRoomEvent::spec_parse(s, p) == Ok::<((Seq<char>, Seq<char>), int), SlskError>(
            ((room, username), p + (ser_str(room) + ser_str(username)).len()),
        ),
{
    broadcast use crate::frame::group_wire_lemmas;

    let w = ser_str(room) + ser_str(username);
    lemma_holds_part(s, p, w, 0int, ser_str(room));
    lemma_str_at(s, p + 0int, room);
    lemma_holds_part(s, p, w, 0int + ser_str(room).len(), ser_str(username));
    lemma_str_at(s, p + 0int + ser_str(room).len(), username);
}

/// A user joining a room, on the wire: the room, the user name, the status
/// value, the average speed, the number of downloads (a `u64`), the number of
/// files, the number of directories, the free slots and the country code, in
/// that order.
pub proof fn lemma_user_joined_room_layout(s: Seq<u8>, p: int, room: Seq<char>, username: Seq<char>, status: u32, avgspeed: u32, downloadnum: u64, files: u32, dirs: u32, slotsfree: u32, countrycode: Seq<char>)
    requires
        str_bytes(room) <= u32::MAX,
        str_bytes(username) <= u32::MAX,
        str_bytes(countrycode) <= u32::MAX,
        holds_at(s, p, ser_str(room) + ser_str(username) + le32(status) + le32(avgspeed) + le64(downloadnum) + le32(files) + le32(dirs) + le32(slotsfree) + ser_str(countrycode)),
    ensures
        UserJoinedRoom::spec_parse(s, p) == Ok::<((Seq<char>, Seq<char>, u32, u32, u64, u32, u32, u32, Seq<char>), int), SlskError>(
            ((room, username, status, avgspeed, downloadnum, files, dirs, slotsfree, countrycode), p + (ser_str(room) + ser_str(username) + le32(status) + le32(avgspeed) + le64(downloadnum) + le32(files) + le32(dirs) + le32(slotsfree) + ser_str(countrycode)).len()),
        ),
{
    broadcast use crate::frame::group_wire_lemmas;

    let w = ser_str(room) + ser_str(username) + le32(status) + le32(avgspeed) + le64(downloadnum) + le32(files) + le32(dirs) + le32(slotsfree) + ser_str(countrycode);
    lemma_holds_part(s, p, w, 0int, ser_str(room));
    lemma_str_at(s, p + 0int, room);
    lemma_holds_part(s, p, w, 0int + ser_str(room).len(), ser_str(username));
    lemma_str_at(s, p + 0int + ser_str(room).len(), username);
    lemma_holds_part(s, p, w, 0int + ser_str(room).len() + ser_str(username).len(), le32(status));
    lemma_u32_at(s, p + 0int + ser_str(room).len() + ser_str(username).len(), status);
    lemma_holds_part(s, p, w, 0int + ser_str(room).len() + ser_str(username).len() + le32(status).len(), le32(avgspeed));
    lemma_u32_at(s, p + 0int + ser_str(room).len() + ser_str(username).len() + le32(status).len(), avgspeed);
    lemma_holds_part(s, p, w, 0int + ser_str(room).len() + ser_str(username).len() + le32(status).len() + le32(avgspeed).len(), le64(downloadnum));
    lemma_u64_at(s, p + 0int + ser_str(room).len() + ser_str(username).len() + le32(status).len() + le32(avgspeed).len(), downloadnum);
    lemma_holds_part(s, p, w, 0int + ser_str(room).len() + ser_str(username).len() + le32(status).len() + le32(avgspeed).len() + le64(downloadnum).len(), le32(files));
    lemma_u32_at(s, p + 0int + ser_str(room).len() + ser_str(username).len() + le32(status).len() + le32(avgspeed).len() + le64(downloadnum).len(), files);
    lemma_holds_part(s, p, w, 0int + ser_str(room).len() + ser_str(username).len() + le32(status).len() + le32(avgspeed).len() + le64(downloadnum).len() + le32(files).len(), le32(dirs));
    lemma_u32_at(s, p + 0int + ser_str(room).len() + ser_str(username).len() + le32(status).len() + le32(avgspeed).len() + le64(downloadnum).len() + le32(files).len(), dirs);
    lemma_holds_part(s, p, w, 0int + ser_str(room).len() + ser_str(username).len() + le32(status).len() + le32(avgspeed).len() + le64(downloadnum).len() + le32(files).len() + le32(dirs).len(), le32(slotsfree));
    lemma_u32_at(s, p + 0int + ser_str(room).len() + ser_str(username).len() + le32(status).len() + le32(avgspeed).len() + le64(downloadnum).len() + le32(files).len() + le32(dirs).len(), slotsfree);
    lemma_holds_part(s, p, w, 0int + ser_str(room).len() + ser_str(username).len() + le32(status).len() + le32(avgspeed).len() + le64(downloadnum).len() + le32(files).len() + le32(dirs).len() + le32(slotsfree).len(), ser_str(countrycode));
    lemma_str_at(s, p + 0int + ser_str(room).len() + ser_str(username).len() + le32(status).len() + le32(avgspeed).len() + le64(downloadnum).len() + le32(files).len() + le32(dirs).len() + le32(slotsfree).len(), countrycode);
}

/// A room ticker entry on the wire is the user name followed by the ticker text.
pub proof fn lemma_ticker_layout(s: Seq<u8>, p: int, username: Seq<char>, ticker: Seq<char>)
    requires
        str_bytes(username) <= u32::MAX,
        str_bytes(ticker) <= u32::MAX,
        holds_at(s, p, ser_str(username) + ser_str(ticker)),
    ensures
        Ticker::spec_parse(s, p) == Ok::<((Seq<char>, Seq<char>), int), SlskError>(
            ((username, ticker), p + (ser_str(username) + ser_str(ticker)).len()),
        ),
{
    broadcast use crate::frame::group_wire_lemmas;

    let w = ser_str(username) + ser_str(ticker);
    lemma_holds_part(s, p, w, 0int, ser_str(username));
    lemma_str_at(s, p + 0int, username);
    lemma_holds_part(s, p, w, 0int + ser_str(username).len(), ser_str(ticker));
    lemma_str_at(s, p + 0int + ser_str(username).len(), ticker);
}

} // verus!
