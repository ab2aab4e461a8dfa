//! The description a user gives of themself.
use crate::frame::{
    holds_at, lemma_bool_at, lemma_holds_part, lemma_str_at, lemma_u32_at, lemma_u8_at, le32, ser_bool, ser_str, sp_bool, sp_str, sp_str_fail_pos, sp_u32, sp_u8, str_bytes,
    write_bool, write_string, write_u32, write_u8, ParseBytes, Read, Reader,
};
use crate::peers::messages::p2p::{ser_peer_header, write_peer_header, PeerMessageCode};
use crate::SlskError;
use vstd::prelude::*;

verus! {

/// Information about a user: description, optional picture, upload
/// figures and whether a slot is free.
#[derive(Debug)]
pub struct UserInfo {
    pub description: String,
    pub picture: Option<String>,
    pub total_upload: u32,
    pub queue_size: u32,
    pub slots_free: bool,
}

/// What user information holds: description, picture, total upload, queue
/// size, free slots.
pub type UserInfoView = (Seq<char>, Option<Seq<char>>, u32, u32, bool);

impl View for UserInfo {
    type V = UserInfoView;

    open spec fn view(&self) -> UserInfoView {
        (
            self.description@,
            match self.picture {
                Some(p) => Some(p@),
                None => None,
            },
            self.total_upload,
            self.queue_size,
            self.slots_free,
        )
    }
}

/// The picture that follows a non-zero flag byte at `p`, and the position
/// after it. A picture that cannot be read is taken as absent, and reading
/// goes on where the failed read stopped.
pub open spec fn sp_picture(s: Seq<u8>, p: int) -> (Option<Seq<char>>, int) {
    match sp_str(s, p) {
        Ok((picture, q)) => (Some(picture), q),
        Err(_) => (None, sp_str_fail_pos(s, p)),
    }
}

impl ParseBytes for UserInfo {
    /// Description, a picture flag byte, the picture when the flag is not
    /// zero, total upload, queue size, free slots.
    open spec fn spec_parse(s: Seq<u8>, p: int) -> Read<UserInfoView> {
        match sp_str(s, p) {
            Err(e) => Err(e),
            Ok((description, p)) => match sp_u8(s, p) {
                Err(e) => Err(e),
                Ok((has_picture, p)) => {
                    let picture = if has_picture != 0 {
                        sp_picture(s, p)
                    } else {
                        (None, p)
                    };
                    match sp_u32(s, picture.1) {
                        Err(e) => Err(e),
                        Ok((total_upload, p)) => match sp_u32(s, p) {
                            Err(e) => Err(e),
                            Ok((queue_size, p)) => match sp_bool(s, p) {
                                Err(e) => Err(e),
                                Ok((slots_free, p)) => Ok(
                                    (
                                        (
                                            description,
                                            picture.0,
                                            total_upload,
                                            queue_size,
                                            slots_free,
                                        ),
                                        p,
                                    ),
                                ),
                            },
                        },
                    }
                },
            },
        }
    }

    fn parse(src: &mut Reader) -> (res: Result<Self, SlskError>) {
        let ghost spec = Self::spec_parse(src.data(), src.position());
        let description = src.read_string()?;
        let has_picture = src.read_u8()? != 0;
        let picture = if has_picture {
            match src.read_string() {
                Ok(picture) => Some(picture),
                Err(_) => None,
            }
        } else {
            None
        };
        let total_upload = src.read_u32()?;
        let queue_size = src.read_u32()?;
        let slots_free = src.read_bool()?;
        Ok(UserInfo { description, picture, total_upload, queue_size, slots_free })
    }
}

impl UserInfo {
    /// Length field: code, description with its prefix, picture flag,
    /// picture with its prefix when there is one, total upload, queue size,
    /// free slots.
    pub open spec fn spec_len(v: UserInfoView) -> int {
        4 + (4 + str_bytes(v.0)) + 1 + match v.1 {
            Some(picture) => str_bytes(picture) + 4,
            None => 0,
        } + 4 + 4 + 1
    }

    /// Header, description, 1 and the picture or 0, total upload, queue
    /// size, free slots.
    pub open spec fn spec_bytes(v: UserInfoView) -> Seq<u8> {
        ser_peer_header(Self::spec_len(v) as u32, PeerMessageCode::UserInfoReply) + Self::spec_body(
            v,
        )
    }

    /// Description, 1 and the picture or 0, total upload, queue size, free
    /// slots.
    pub open spec fn spec_body(v: UserInfoView) -> Seq<u8> {
        ser_str(v.0) + Self::spec_picture(v.1) + le32(v.2) + le32(v.3) + ser_bool(v.4)
    }

    /// The picture flag, and the picture when there is one.
    pub open spec fn spec_picture(picture: Option<Seq<char>>) -> Seq<u8> {
        match picture {
            Some(picture) => seq![1u8] + ser_str(picture),
            None => seq![0u8],
        }
    }

    pub fn write_to_buf(&self, buffer: &mut Vec<u8>)
        requires
            Self::spec_len(self@) <= u32::MAX,
        ensures
            final(buffer)@ == old(buffer)@ + Self::spec_bytes(self@),
    {
        let description = 4 + self.description.as_str().as_bytes().len() as u32;
        let has_picture: u32 = 1;
        let total_upload: u32 = 4;
        let queue_size: u32 = 4;
        let slots_free: u32 = 1;
        let length = match &self.picture {
            Some(picture) => {
                let picture_len = picture.as_str().as_bytes().len() as u32 + 4;
                4 + description + has_picture + picture_len + total_upload + queue_size
                    + slots_free
            },
            None => 4 + description + has_picture + total_upload + queue_size + slots_free,
        };
        write_peer_header(buffer, length, PeerMessageCode::UserInfoReply);
        write_string(buffer, self.description.as_str());
        match &self.picture {
            Some(picture) => {
                write_u8(buffer, 1);
                write_string(buffer, picture.as_str());
            },
            None => {
                write_u8(buffer, 0);
            },
        }
        write_u32(buffer, self.total_upload);
        write_u32(buffer, self.queue_size);
        write_bool(buffer, self.slots_free);
        assert(final(buffer)@ =~= old(buffer)@ + Self::spec_bytes(self@));
    }
}

/// User information reads back from its body when its description and
/// picture fit their length prefixes.
pub open spec fn user_info_roundtrips(v: UserInfoView) -> bool {
    str_bytes(v.0) <= u32::MAX && (v.1 matches Some(picture) ==> str_bytes(picture) <= u32::MAX)
}

/// The body of user information reads back as the information it was
/// written from, and the length field counts the code and that body.
pub proof fn lemma_user_info_body(s: Seq<u8>, p: int, v: UserInfoView)
    requires
        user_info_roundtrips(v),
        holds_at(s, p, UserInfo::spec_body(v)),
    ensures
        UserInfo::spec_parse(s, p) == Ok::<(UserInfoView, int), SlskError>(
            (v, p + UserInfo::spec_body(v).len()),
        ),
        UserInfo::spec_len(v) == 4 + UserInfo::spec_body(v).len(),
{
    broadcast use crate::frame::group_wire_lemmas;

    let w = UserInfo::spec_body(v);
    let d = ser_str(v.0);
    let pic = UserInfo::spec_picture(v.1);
    lemma_holds_part(s, p, w, 0, d);
    lemma_str_at(s, p, v.0);
    lemma_holds_part(s, p, w, d.len() as int, pic);
    let q = p + d.len();
    match v.1 {
        Some(picture) => {
            lemma_holds_part(s, q, pic, 0, seq![1u8]);
            lemma_u8_at(s, q, 1u8);
            lemma_holds_part(s, q, pic, 1, ser_str(picture));
            lemma_str_at(s, q + 1, picture);
        },
        None => {
            lemma_u8_at(s, q, 0u8);
        },
    }
    let r = q + pic.len();
    lemma_holds_part(s, p, w, d.len() as int + pic.len() as int, le32(v.2));
    lemma_u32_at(s, r, v.2);
    lemma_holds_part(s, p, w, d.len() as int + pic.len() as int + 4, le32(v.3));
    lemma_u32_at(s, r + 4, v.3);
    lemma_holds_part(s, p, w, d.len() as int + pic.len() as int + 8, ser_bool(v.4));
    lemma_bool_at(s, r + 8, v.4);
}

} // verus!
