//! User status and statistics messages.
use crate::frame::{
    item, read_list, read_matches, sp_bool, sp_list, sp_str, sp_u32, sp_u64, sp_u8, views,
    ParseBytes, Read, Reader,
};
use crate::SlskError;
use crate::frame::{holds_at, le32, le64, lemma_bool_at, lemma_holds_part, lemma_str_at, lemma_u32_at, lemma_u64_at, lemma_u8_at, ser_bool, ser_str, str_bytes};
use vstd::prelude::*;

verus! {

/// Online status of a user: 0 is `Offline`, 1 `Away` and 2 `Online`; any
/// other wire value reads as `Unknown`.
#[derive(Debug, Clone, Copy, PartialEq, Eq, Structural)]
pub enum Status {
    Offline,
    Away,
    Online,
    Unknown,
}

pub open spec fn spec_status_from_u32(value: u32) -> Status {
    match value {
        0 => Status::Offline,
        1 => Status::Away,
        2 => Status::Online,
        _ => Status::Unknown,
    }
}

impl Status {
    /// The status that a wire value stands for.
    pub fn from_u32(value: u32) -> (ret: Status)
        ensures
            ret == spec_status_from_u32(value),
    {
        match value {
            0 => Status::Offline,
            1 => Status::Away,
            2 => Status::Online,
            _ => Status::Unknown,
        }
    }
}

impl View for Status {
    type V = Status;

    open spec fn view(&self) -> Status {
        *self
    }
}

/// A status read as a `u32`.
pub open spec fn sp_status(s: Seq<u8>, p: int) -> Read<Status> {
    match sp_u32(s, p) {
        Ok((v, q)) => Ok((spec_status_from_u32(v), q)),
        Err(e) => Err(e),
    }
}

impl ParseBytes for Status {
    open spec fn spec_parse(s: Seq<u8>, p: int) -> Read<Status> {
        sp_status(s, p)
    }

    fn parse(src: &mut Reader) -> (res: Result<Self, SlskError>) {
        let v = src.read_u32()?;
        Ok(Status::from_u32(v))
    }
}

/// Status of a user: name, status and whether the user is privileged.
#[derive(Debug)]
pub struct UserStatus {
    pub username: String,
    pub status: Status,
    pub privileged: bool,
}

impl View for UserStatus {
    type V = (Seq<char>, Status, bool);

    open spec fn view(&self) -> Self::V {
        (self.username@, self.status, self.privileged)
    }
}

impl ParseBytes for UserStatus {
    open spec fn spec_parse(s: Seq<u8>, p: int) -> Read<Self::V> {
        match sp_str(s, p) {
            Err(e) => Err(e),
            Ok((username, p)) => match sp_status(s, p) {
                Err(e) => Err(e),
                Ok((status, p)) => match sp_bool(s, p) {
                    Err(e) => Err(e),
                    Ok((privileged, p)) => Ok(((username, status, privileged), p)),
                },
            },
        }
    }

    fn parse(src: &mut Reader) -> (res: Result<Self, SlskError>) {
        let username = src.read_string()?;
        let status = Status::parse(src)?;
        let privileged = src.read_bool()?;
        Ok(UserStatus { username, status, privileged })
    }
}

/// A list of user names.
#[derive(Debug)]
pub struct UserList(pub Vec<String>);

impl View for UserList {
    type V = Seq<Seq<char>>;

    open spec fn view(&self) -> Self::V {
        views(self.0@)
    }
}

impl ParseBytes for UserList {
    open spec fn spec_parse(s: Seq<u8>, p: int) -> Read<Self::V> {
        sp_list(s, p, item::<String>())
    }

    fn parse(src: &mut Reader) -> (res: Result<Self, SlskError>) {
        let users = read_list::<String>(src)?;
        Ok(UserList(users))
    }
}

/// Answer to `AddUser`: the user's statistics when the user exists.
#[derive(Debug)]
pub enum UserAdded {
    Found {
        username: String,
        status: u32,
        average_speed: u32,
        download_number: u64,
        files: u32,
        dirs: u32,
        country_code: String,
    },
    NotFound { username: String },
}

impl View for UserAdded {
    /// The user name, and the statistics when the user exists.
    type V = (Seq<char>, Option<(u32, u32, u64, u32, u32, Seq<char>)>);

    open spec fn view(&self) -> Self::V {
        match self {
            UserAdded::Found {
                username,
                status,
                average_speed,
                download_number,
                files,
                dirs,
                country_code,
            } => (
                username@,
                Some((*status, *average_speed, *download_number, *files, *dirs, country_code@)),
            ),
            UserAdded::NotFound { username } => (username@, None),
        }
    }
}

impl ParseBytes for UserAdded {
    /// A byte (1: the user exists, 0: it does not), the user name, then for
    /// an existing user status, average speed, download count, files,
    /// directories and country code. Any other first byte is invalid.
    open spec fn spec_parse(s: Seq<u8>, p: int) -> Read<Self::V> {
        match sp_u8(s, p) {
            Err(e) => Err(e),
            Ok((code, p)) => match sp_str(s, p) {
                Err(e) => Err(e),
                Ok((username, p)) => if code == 0 {
                    Ok(((username, None), p))
                } else if code == 1 {
                    match sp_u32(s, p) {
                        Err(e) => Err(e),
                        Ok((status, p)) => match sp_u32(s, p) {
                            Err(e) => Err(e),
                            Ok((average_speed, p)) => match sp_u64(s, p) {
                                Err(e) => Err(e),
                                Ok((download_number, p)) => match sp_u32(s, p) {
                                    Err(e) => Err(e),
                                    Ok((files, p)) => match sp_u32(s, p) {
                                        Err(e) => Err(e),
                                        Ok((dirs, p)) => match sp_str(s, p) {
                                            Err(e) => Err(e),
                                            Ok((country_code, p)) => Ok(
                                                (
                                                    (
                                                        username,
                                                        Some(
                                                            (
                                                                status,
                                                                average_speed,
                                                                download_number,
                                                                files,
                                                                dirs,
                                                                country_code,
                                                            ),
                                                        ),
                                                    ),
                                                    p,
                                                ),
                                            ),
                                        },
                                    },
                                },
                            },
                        },
                    }
                } else {
                    Err(SlskError::InvalidData)
                },
            },
        }
    }

    fn parse(src: &mut Reader) -> (res: Result<Self, SlskError>) {
        let code = src.read_u8()?;
        let username = src.read_string()?;
        if code == 0 {
            Ok(UserAdded::NotFound { username })
        } else if code == 1 {
            let status = src.read_u32()?;
            let average_speed = src.read_u32()?;
            let download_number = src.read_u64()?;
            let files = src.read_u32()?;
            let dirs = src.read_u32()?;
            let country_code = src.read_string()?;
            Ok(
                UserAdded::Found {
                    username,
                    status,
                    average_speed,
                    download_number,
                    files,
                    dirs,
                    country_code,
                },
            )
        } else {
            Err(SlskError::InvalidData)
        }
    }
}

/// Statistics of a user.
#[derive(Debug)]
pub struct UserStats {
    pub username: String,
    pub average_speed: u32,
    pub download_number: u64,
    pub files: u32,
    pub dirs: u32,
}

impl View for UserStats {
    type V = (Seq<char>, u32, u64, u32, u32);

    open spec fn view(&self) -> Self::V {
        (self.username@, self.average_speed, self.download_number, self.files, self.dirs)
    }
}

impl ParseBytes for UserStats {
    open spec fn spec_parse(s: Seq<u8>, p: int) -> Read<Self::V> {
        match sp_str(s, p) {
            Err(e) => Err(e),
            Ok((username, p)) => match UserData::spec_parse(s, p) {
                Err(e) => Err(e),
                Ok((d, p)) => Ok(((username, d.0, d.1, d.2, d.3), p)),
            },
        }
    }

    fn parse(src: &mut Reader) -> (res: Result<Self, SlskError>) {
        let username = src.read_string()?;
        let data = UserData::parse(src)?;
        Ok(
            UserStats {
                username,
                average_speed: data.average_speed,
                download_number: data.download_number,
                files: data.files,
                dirs: data.dirs,
            },
        )
    }
}

/// Statistics of a user without the name: average speed, download count,
/// files and directories.
#[derive(Debug, Clone, Copy)]
pub struct UserData {
    pub average_speed: u32,
    pub download_number: u64,
    pub files: u32,
    pub dirs: u32,
}

impl View for UserData {
    type V = (u32, u64, u32, u32);

    open spec fn view(&self) -> Self::V {
        (self.average_speed, self.download_number, self.files, self.dirs)
    }
}

impl ParseBytes for UserData {
    open spec fn spec_parse(s: Seq<u8>, p: int) -> Read<Self::V> {
        match sp_u32(s, p) {
            Err(e) => Err(e),
            Ok((average_speed, p)) => match sp_u64(s, p) {
                Err(e) => Err(e),
                Ok((download_number, p)) => match sp_u32(s, p) {
                    Err(e) => Err(e),
                    Ok((files, p)) => match sp_u32(s, p) {
                        Err(e) => Err(e),
                        Ok((dirs, p)) => Ok(((average_speed, download_number, files, dirs), p)),
                    },
                },
            },
        }
    }

    fn parse(src: &mut Reader) -> (res: Result<Self, SlskError>) {
        let average_speed = src.read_u32()?;
        let download_number = src.read_u64()?;
        let files = src.read_u32()?;
        let dirs = src.read_u32()?;
        Ok(UserData { average_speed, download_number, files, dirs })
    }
}

/// A list of users with their status.
#[derive(Debug)]
pub struct UsersWithStatus {
    pub users: Vec<UserWithStatus>,
}

impl View for UsersWithStatus {
    type V = Seq<(Seq<char>, Status)>;

    open spec fn view(&self) -> Self::V {
        views(self.users@)
    }
}

impl ParseBytes for UsersWithStatus {
    open spec fn spec_parse(s: Seq<u8>, p: int) -> Read<Self::V> {
        sp_list(s, p, item::<UserWithStatus>())
    }

    fn parse(src: &mut Reader) -> (res: Result<Self, SlskError>) {
        let users = read_list::<UserWithStatus>(src)?;
        Ok(UsersWithStatus { users })
    }
}

/// A user name with its status.
#[derive(Debug)]
pub struct UserWithStatus {
    pub username: String,
    pub status: Status,
}

impl View for UserWithStatus {
    type V = (Seq<char>, Status);

    open spec fn view(&self) -> Self::V {
        (self.username@, self.status)
    }
}

impl ParseBytes for UserWithStatus {
    open spec fn spec_parse(s: Seq<u8>, p: int) -> Read<Self::V> {
        match sp_str(s, p) {
            Err(e) => Err(e),
            Ok((username, p)) => match sp_status(s, p) {
                Err(e) => Err(e),
                Ok((status, p)) => Ok(((username, status), p)),
            },
        }
    }

    fn parse(src: &mut Reader) -> (res: Result<Self, SlskError>) {
        let username = src.read_string()?;
        let status = Status::parse(src)?;
        Ok(UserWithStatus { username, status })
    }
}

/// Users similar to the given item, with their status.
#[derive(Debug)]
pub struct ItemSimilarUsers {
    pub item: String,
    pub users: Vec<UserWithStatus>,
}

impl View for ItemSimilarUsers {
    type V = (Seq<char>, Seq<(Seq<char>, Status)>);

    open spec fn view(&self) -> Self::V {
        (self.item@, views(self.users@))
    }
}

impl ParseBytes for ItemSimilarUsers {
    open spec fn spec_parse(s: Seq<u8>, p: int) -> Read<Self::V> {
        match sp_str(s, p) {
            Err(e) => Err(e),
            Ok((item_name, p)) => match sp_list(s, p, item::<UserWithStatus>()) {
                Err(e) => Err(e),
                Ok((users, p)) => Ok(((item_name, users), p)),
            },
        }
    }

    fn parse(src: &mut Reader) -> (res: Result<Self, SlskError>) {
        let item = src.read_string()?;
        let users = read_list::<UserWithStatus>(src)?;
        Ok(ItemSimilarUsers { item, users })
    }
}

/// The protocol's online status values: 0 offline, 1 away, 2 online; any
/// other value is unknown.
pub proof fn lemma_status_values(n: u32)
    ensures
        spec_status_from_u32(0) == Status::Offline,
        spec_status_from_u32(1) == Status::Away,
        spec_status_from_u32(2) == Status::Online,
        n > 2 ==> spec_status_from_u32(n) == Status::Unknown,
{
}

/// User statistics on the wire are the average speed, the number of
/// downloads (a `u64`), the number of files and the number of directories,
/// in that order.
pub proof fn lemma_user_data_layout(s: Seq<u8>, p: int, average_speed: u32, download_number: u64, files: u32, dirs: u32)
    requires
        holds_at(s, p, le32(average_speed) + le64(download_number) + le32(files) + le32(dirs)),
    ensures
        UserData::spec_parse(s, p) == Ok::<((u32, u64, u32, u32), int), SlskError>(
            ((average_speed, download_number, files, dirs), p + (le32(average_speed) + le64(download_number) + le32(files) + le32(dirs)).len()),
        ),
{
    broadcast use crate::frame::group_wire_lemmas;

    let w = le32(average_speed) + le64(download_number) + le32(files) + le32(dirs);
    lemma_holds_part(s, p, w, 0int, le32(average_speed));
    lemma_u32_at(s, p + 0int, average_speed);
    lemma_holds_part(s, p, w, 0int + le32(average_speed).len(), le64(download_number));
    lemma_u64_at(s, p + 0int + le32(average_speed).len(), download_number);
    lemma_holds_part(s, p, w, 0int + le32(average_speed).len() + le64(download_number).len(), le32(files));
    lemma_u32_at(s, p + 0int + le32(average_speed).len() + le64(download_number).len(), files);
    lemma_holds_part(s, p, w, 0int + le32(average_speed).len() + le64(download_number).len() + le32(files).len(), le32(dirs));
    lemma_u32_at(s, p + 0int + le32(average_speed).len() + le64(download_number).len() + le32(files).len(), dirs);
}

/// A user status on the wire is the user name, the status value and the
/// privileged flag, in that order; the value reads as the status it stands
/// for.
pub proof fn lemma_user_status_layout(s: Seq<u8>, p: int, username: Seq<char>, status: u32, privileged: bool)
    requires
        str_bytes(username) <= u32::MAX,
        holds_at(s, p, ser_str(username) + le32(status) + ser_bool(privileged)),
    ensures
        UserStatus::spec_parse(s, p) == Ok::<((Seq<char>, Status, bool), int), SlskError>(
            (
                (username, spec_status_from_u32(status), privileged),
                p + (ser_str(username) + le32(status) + ser_bool(privileged)).len(),
            ),
        ),
{
    broadcast use crate::frame::group_wire_lemmas;

    let w = ser_str(username) + le32(status) + ser_bool(privileged);
    lemma_holds_part(s, p, w, 0, ser_str(username));
    lemma_str_at(s, p, username);
    lemma_holds_part(s, p, w, ser_str(username).len() as int, le32(status));
    lemma_u32_at(s, p + ser_str(username).len(), status);
    lemma_holds_part(s, p, w, ser_str(username).len() + 4int, ser_bool(privileged));
    lemma_bool_at(s, p + ser_str(username).len() + 4, privileged);
}

/// A user's statistics on the wire are the user name followed by the
/// average speed, the number of downloads, the number of files and the
/// number of directories.
pub proof fn lemma_user_stats_layout(
    s: Seq<u8>,
    p: int,
    username: Seq<char>,
    average_speed: u32,
    download_number: u64,
    files: u32,
    dirs: u32,
)
    requires
        str_bytes(username) <= u32::MAX,
        holds_at(
            s,
            p,
            ser_str(username) + (le32(average_speed) + le64(download_number) + le32(files) + le32(
                dirs,
            )),
        ),
    ensures
        UserStats::spec_parse(s, p) == Ok::<((Seq<char>, u32, u64, u32, u32), int), SlskError>(
            (
                (username, average_speed, download_number, files, dirs),
                p + ser_str(username).len() + 20,
            ),
        ),
{
    broadcast use crate::frame::group_wire_lemmas;

    let d = le32(average_speed) + le64(download_number) + le32(files) + le32(dirs);
    let w = ser_str(username) + d;
    lemma_holds_part(s, p, w, 0, ser_str(username));
    lemma_str_at(s, p, username);
    lemma_holds_part(s, p, w, ser_str(username).len() as int, d);
    lemma_user_data_layout(s, p + ser_str(username).len(), average_speed, download_number, files, dirs);
}

/// The answer about a watched user that exists, on the wire: the byte 1, the
/// user name, the status value, the average speed, the number of downloads
/// (a `u64`), the number of files, the number of directories and the country
/// code, in that order.
pub proof fn lemma_user_added_layout(s: Seq<u8>, p: int, username: Seq<char>, status: u32, average_speed: u32, download_number: u64, files: u32, dirs: u32, country_code: Seq<char>)
    requires
        str_bytes(username) <= u32::MAX,
        str_bytes(country_code) <= u32::MAX,
        holds_at(s, p, seq![1u8] + ser_str(username) + le32(status) + le32(average_speed) + le64(download_number) + le32(files) + le32(dirs) + ser_str(country_code)),
    ensures
        UserAdded::spec_parse(s, p) == Ok::<((Seq<char>, Option<(u32, u32, u64, u32, u32, Seq<char>)>), int), SlskError>(
            ((username, Some((status, average_speed, download_number, files, dirs, country_code))), p + (seq![1u8] + ser_str(username) + le32(status) + le32(average_speed) + le64(download_number) + le32(files) + le32(dirs) + ser_str(country_code)).len()),
        ),
{
    broadcast use crate::frame::group_wire_lemmas;

    let w = seq![1u8] + ser_str(username) + le32(status) + le32(average_speed) + le64(download_number) + le32(files) + le32(dirs) + ser_str(country_code);
    lemma_holds_part(s, p, w, 0int, seq![1u8]);
    lemma_u8_at(s, p + 0int, 1u8);
    lemma_holds_part(s, p, w, 0int + seq![1u8].len(), ser_str(username));
    lemma_str_at(s, p + 0int + seq![1u8].len(), username);
    lemma_holds_part(s, p, w, 0int + seq![1u8].len() + ser_str(username).len(), le32(status));
    lemma_u32_at(s, p + 0int + seq![1u8].len() + ser_str(username).len(), status);
    lemma_holds_part(s, p, w, 0int + seq![1u8].len() + ser_str(username).len() + le32(status).len(), le32(average_speed));
    lemma_u32_at(s, p + 0int + seq![1u8].len() + ser_str(username).len() + le32(status).len(), average_speed);
    lemma_holds_part(s, p, w, 0int + seq![1u8].len() + ser_str(username).len() + le32(status).len() + le32(average_speed).len(), le64(download_number));
    lemma_u64_at(s, p + 0int + seq![1u8].len() + ser_str(username).len() + le32(status).len() + le32(average_speed).len(), download_number);
    lemma_holds_part(s, p, w, 0int + seq![1u8].len() + ser_str(username).len() + le32(status).len() + le32(average_speed).len() + le64(download_number).len(), le32(files));
    lemma_u32_at(s, p + 0int + seq![1u8].len() + ser_str(username).len() + le32(status).len() + le32(average_speed).len() + le64(download_number).len(), files);
    lemma_holds_part(s, p, w, 0int + seq![1u8].len() + ser_str(username).len() + le32(status).len() + le32(average_speed).len() + le64(download_number).len() + le32(files).len(), le32(dirs));
    lemma_u32_at(s, p + 0int + seq![1u8].len() + ser_str(username).len() + le32(status).len() + le32(average_speed).len() + le64(download_number).len() + le32(files).len(), dirs);
    lemma_holds_part(s, p, w, 0int + seq![1u8].len() + ser_str(username).len() + le32(status).len() + le32(average_speed).len() + le64(download_number).len() + le32(files).len() + le32(dirs).len(), ser_str(country_code));
    lemma_str_at(s, p + 0int + seq![1u8].len() + ser_str(username).len() + le32(status).len() + le32(average_speed).len() + le64(download_number).len() + le32(files).len() + le32(dirs).len(), country_code);
}

/// The answer about a watched user that does not exist, on the wire: the
/// byte 0 and the user name.
pub proof fn lemma_user_added_missing_layout(s: Seq<u8>, p: int, username: Seq<char>)
    requires
        str_bytes(username) <= u32::MAX,
        holds_at(s, p, seq![0u8] + ser_str(username)),
    ensures
        UserAdded::spec_parse(s, p) == Ok::<((Seq<char>, Option<(u32, u32, u64, u32, u32, Seq<char>)>), int), SlskError>(
            ((username, None), p + (seq![0u8] + ser_str(username)).len()),
        ),
{
    broadcast use crate::frame::group_wire_lemmas;

    let w = seq![0u8] + ser_str(username);
    lemma_holds_part(s, p, w, 0int, seq![0u8]);
    lemma_u8_at(s, p + 0int, 0u8);
    lemma_holds_part(s, p, w, 0int + seq![0u8].len(), ser_str(username));
    lemma_str_at(s, p + 0int + seq![0u8].len(), username);
}

} // verus!
