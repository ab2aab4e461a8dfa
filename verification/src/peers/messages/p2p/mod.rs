//! Peer to peer messages: shares, searches, user information and transfers.
use crate::frame::{le32, read_matches, ser_str, sp_u32, str_bytes, write_string, write_u32, Read, Reader};
use crate::{ProtocolHeader, SlskError};
use vstd::prelude::*;

pub mod download;
pub mod folder_content;
pub mod request;
pub mod response;
pub mod search;
pub mod transfer;
pub mod user_info;
pub mod shared_directories;
pub mod zlib;

verus! {

/// Length of a peer message header: a `u32` length and a `u32` code.
pub const PEER_MSG_HEADER_LEN: u32 = 8;

/// Code of a peer message. Codes the protocol does not define read as
/// [`PeerMessageCode::Unknown`].
#[derive(Debug, Clone, Copy, PartialEq, Eq, Structural)]
pub enum PeerMessageCode {
    SharesRequest,
    SharesReply,
    SearchRequest,
    SearchReply,
    UserInfoRequest,
    UserInfoReply,
    FolderContentsRequest,
    FolderContentsReply,
    TransferRequest,
    TransferReply,
    UploadPlacehold,
    QueueUpload,
    PlaceInQueueReply,
    UploadFailed,
    QueueFailed,
    PlaceInQueueRequest,
    UploadQueueNotification,
    Unknown,
}

/// The code that a `u32` on the wire stands for.
pub open spec fn spec_peer_code(code: u32) -> PeerMessageCode {
    match code {
        4 => PeerMessageCode::SharesRequest,
        5 => PeerMessageCode::SharesReply,
        8 => PeerMessageCode::SearchRequest,
        9 => PeerMessageCode::SearchReply,
        15 => PeerMessageCode::UserInfoRequest,
        16 => PeerMessageCode::UserInfoReply,
        36 => PeerMessageCode::FolderContentsRequest,
        37 => PeerMessageCode::FolderContentsReply,
        40 => PeerMessageCode::TransferRequest,
        41 => PeerMessageCode::TransferReply,
        42 => PeerMessageCode::UploadPlacehold,
        43 => PeerMessageCode::QueueUpload,
        44 => PeerMessageCode::PlaceInQueueReply,
        46 => PeerMessageCode::UploadFailed,
        50 => PeerMessageCode::QueueFailed,
        51 => PeerMessageCode::PlaceInQueueRequest,
        52 => PeerMessageCode::UploadQueueNotification,
        _ => PeerMessageCode::Unknown,
    }
}

impl PeerMessageCode {
    /// The wire value of a code; `Unknown` has none and is written as 0.
    pub open spec fn spec_value(self) -> u32 {
        match self {
            PeerMessageCode::SharesRequest => 4,
            PeerMessageCode::SharesReply => 5,
            PeerMessageCode::SearchRequest => 8,
            PeerMessageCode::SearchReply => 9,
            PeerMessageCode::UserInfoRequest => 15,
            PeerMessageCode::UserInfoReply => 16,
            PeerMessageCode::FolderContentsRequest => 36,
            PeerMessageCode::FolderContentsReply => 37,
            PeerMessageCode::TransferRequest => 40,
            PeerMessageCode::TransferReply => 41,
            PeerMessageCode::UploadPlacehold => 42,
            PeerMessageCode::QueueUpload => 43,
            PeerMessageCode::PlaceInQueueReply => 44,
            PeerMessageCode::UploadFailed => 46,
            PeerMessageCode::QueueFailed => 50,
            PeerMessageCode::PlaceInQueueRequest => 51,
            PeerMessageCode::UploadQueueNotification => 52,
            PeerMessageCode::Unknown => 0,
        }
    }

    /// The wire value of a code.
    pub fn value(&self) -> (v: u32)
        ensures
            v == self.spec_value(),
    {
        match self {
            PeerMessageCode::SharesRequest => 4,
            PeerMessageCode::SharesReply => 5,
            PeerMessageCode::SearchRequest => 8,
            PeerMessageCode::SearchReply => 9,
            PeerMessageCode::UserInfoRequest => 15,
            PeerMessageCode::UserInfoReply => 16,
            PeerMessageCode::FolderContentsRequest => 36,
            PeerMessageCode::FolderContentsReply => 37,
            PeerMessageCode::TransferRequest => 40,
            PeerMessageCode::TransferReply => 41,
            PeerMessageCode::UploadPlacehold => 42,
            PeerMessageCode::QueueUpload => 43,
            PeerMessageCode::PlaceInQueueReply => 44,
            PeerMessageCode::UploadFailed => 46,
            PeerMessageCode::QueueFailed => 50,
            PeerMessageCode::PlaceInQueueRequest => 51,
            PeerMessageCode::UploadQueueNotification => 52,
            PeerMessageCode::Unknown => 0,
        }
    }
}

impl vstd::std_specs::convert::FromSpecImpl<u32> for PeerMessageCode {
    open spec fn obeys_from_spec() -> bool {
        true
    }

    open spec fn from_spec(v: u32) -> PeerMessageCode {
        spec_peer_code(v)
    }
}

impl From<u32> for PeerMessageCode {
    /// The code that a `u32` on the wire stands for.
    fn from(code: u32) -> (c: PeerMessageCode) {
        match code {
            4 => PeerMessageCode::SharesRequest,
            5 => PeerMessageCode::SharesReply,
            8 => PeerMessageCode::SearchRequest,
            9 => PeerMessageCode::SearchReply,
            15 => PeerMessageCode::UserInfoRequest,
            16 => PeerMessageCode::UserInfoReply,
            36 => PeerMessageCode::FolderContentsRequest,
            37 => PeerMessageCode::FolderContentsReply,
            40 => PeerMessageCode::TransferRequest,
            41 => PeerMessageCode::TransferReply,
            42 => PeerMessageCode::UploadPlacehold,
            43 => PeerMessageCode::QueueUpload,
            44 => PeerMessageCode::PlaceInQueueReply,
            46 => PeerMessageCode::UploadFailed,
            50 => PeerMessageCode::QueueFailed,
            51 => PeerMessageCode::PlaceInQueueRequest,
            52 => PeerMessageCode::UploadQueueNotification,
            _ => PeerMessageCode::Unknown,
        }
    }
}

/// Every code but `Unknown` reads back from its wire value.
pub proof fn lemma_peer_code_roundtrip(c: PeerMessageCode)
    requires
        c != PeerMessageCode::Unknown,
    ensures
        spec_peer_code(c.spec_value()) == c,
{
}

/// Header of a peer message: the code and the length of the body.
#[derive(Debug, Clone, Copy, PartialEq, Eq, Structural)]
pub struct PeerMessageHeader {
    pub code: PeerMessageCode,
    pub message_len: usize,
}

impl View for PeerMessageHeader {
    type V = PeerMessageHeader;

    open spec fn view(&self) -> PeerMessageHeader {
        *self
    }
}

impl ProtocolHeader for PeerMessageHeader {
    type Code = PeerMessageCode;

    open spec fn spec_message_len(&self) -> nat {
        self.message_len as nat
    }

    open spec fn spec_code(&self) -> PeerMessageCode {
        self.code
    }

    fn message_len(&self) -> (n: usize) {
        self.message_len
    }

    fn new(message_len: usize, code: PeerMessageCode) -> (h: Self)
        ensures
            h == (PeerMessageHeader { code, message_len }),
    {
        PeerMessageHeader { code, message_len }
    }
}

impl PeerMessageHeader {
    /// A `u32` length, counting the code, then the `u32` code. A length
    /// below four cannot count the code and is invalid.
    pub open spec fn spec_read(s: Seq<u8>, p: int) -> Read<PeerMessageHeader> {
        match sp_u32(s, p) {
            Err(e) => Err(e),
            Ok((length, p)) => match sp_u32(s, p) {
                Err(e) => Err(e),
                Ok((code, p)) => if length < 4 {
                    Err(SlskError::InvalidData)
                } else {
                    Ok(
                        (
                            PeerMessageHeader {
                                code: spec_peer_code(code),
                                message_len: (length - 4) as usize,
                            },
                            p,
                        ),
                    )
                },
            },
        }
    }

    pub fn read(src: &mut Reader) -> (res: Result<Self, SlskError>)
        ensures
            final(src).data() == old(src).data(),
            read_matches(res, Self::spec_read(old(src).data(), old(src).position()), final(src).position()),
    {
        let message_length = src.read_u32()?;
        let code = src.read_u32()?;
        let code = PeerMessageCode::from(code);
        if message_length < 4 {
            return Err(SlskError::InvalidData);
        }
        Ok(PeerMessageHeader::new((message_length - 4) as usize, code))
    }
}

/// Checking the buffer for a whole peer message.
pub open spec fn spec_check(s: Seq<u8>, p: int) -> Read<PeerMessageHeader> {
    if s.len() - p < PEER_MSG_HEADER_LEN {
        Err(SlskError::Incomplete)
    } else {
        match PeerMessageHeader::spec_read(s, p) {
            Err(e) => Err(e),
            Ok((h, q)) => if s.len() - q < h.message_len {
                Err(SlskError::Incomplete)
            } else {
                Ok((h, q))
            },
        }
    }
}

/// Checks that the buffer holds a whole peer message and reads its header.
pub fn check(src: &mut Reader) -> (res: Result<PeerMessageHeader, SlskError>)
    ensures
        final(src).data() == old(src).data(),
        read_matches(res, spec_check(old(src).data(), old(src).position()), final(src).position()),
{
    if src.remaining() < PEER_MSG_HEADER_LEN as usize {
        return Err(SlskError::Incomplete);
    }
    let header = PeerMessageHeader::read(src)?;
    if src.remaining() < header.message_len() {
        Err(SlskError::Incomplete)
    } else {
        Ok(header)
    }
}

/// Bytes of a peer message header: the length of what follows, then the code.
pub open spec fn ser_peer_header(len: u32, code: PeerMessageCode) -> Seq<u8> {
    le32(len) + le32(code.spec_value())
}

pub fn write_peer_header(buffer: &mut Vec<u8>, len: u32, code: PeerMessageCode)
    ensures
        final(buffer)@ == old(buffer)@ + ser_peer_header(len, code),
{
    write_u32(buffer, len);
    write_u32(buffer, code.value());
    assert(final(buffer)@ =~= old(buffer)@ + ser_peer_header(len, code));
}

/// A message whose body is one string.
pub open spec fn ser_peer_str_msg(c: Seq<char>, code: PeerMessageCode) -> Seq<u8> {
    ser_peer_header((str_bytes(c) + PEER_MSG_HEADER_LEN) as u32, code) + ser_str(c)
}

/// Writes a message whose body is one string: its length counts the code,
/// the string's length prefix and its bytes.
pub fn write_str_msg(src: &str, code: PeerMessageCode, buffer: &mut Vec<u8>)
    requires
        str_bytes(src@) + PEER_MSG_HEADER_LEN <= u32::MAX,
    ensures
        final(buffer)@ == old(buffer)@ + ser_peer_str_msg(src@, code),
{
    let bytes = src.as_bytes();
    let message_len = bytes.len() as u32 + PEER_MSG_HEADER_LEN;
    write_peer_header(buffer, message_len, code);
    write_string(buffer, src);
    assert(final(buffer)@ =~= old(buffer)@ + ser_peer_str_msg(src@, code));
}

/// A message that has not arrived whole is `Incomplete` for `check`,
/// whatever part of it has arrived: the connection keeps the bytes and reads
/// the message once the rest is there.
pub proof fn lemma_peer_partial_incomplete(s: Seq<u8>, k: int)
    requires
        spec_check(s, 0) is Ok,
        0 <= k < PEER_MSG_HEADER_LEN + spec_check(s, 0)->Ok_0.0.message_len,
    ensures
        spec_check(s.subrange(0, k), 0) == Err::<(PeerMessageHeader, int), SlskError>(SlskError::Incomplete),
{
    let t = s.subrange(0, k);
    if k >= PEER_MSG_HEADER_LEN {
        assert(t.subrange(0, 4) =~= s.subrange(0, 4));
        assert(t.subrange(4, 8) =~= s.subrange(4, 8));
    }
}

/// The protocol's number for each peer message code: a code is written as
/// its number and its number reads back as the code; a number reads as a
/// known code only when that code is written as it.
pub proof fn lemma_peer_code_numbers(n: u32)
    ensures
        PeerMessageCode::SharesRequest.spec_value() == 4 && spec_peer_code(4) == PeerMessageCode::SharesRequest,
        PeerMessageCode::SharesReply.spec_value() == 5 && spec_peer_code(5) == PeerMessageCode::SharesReply,
        PeerMessageCode::SearchRequest.spec_value() == 8 && spec_peer_code(8) == PeerMessageCode::SearchRequest,
        PeerMessageCode::SearchReply.spec_value() == 9 && spec_peer_code(9) == PeerMessageCode::SearchReply,
        PeerMessageCode::UserInfoRequest.spec_value() == 15 && spec_peer_code(15) == PeerMessageCode::UserInfoRequest,
        PeerMessageCode::UserInfoReply.spec_value() == 16 && spec_peer_code(16) == PeerMessageCode::UserInfoReply,
        PeerMessageCode::FolderContentsRequest.spec_value() == 36 && spec_peer_code(36) == PeerMessageCode::FolderContentsRequest,
        PeerMessageCode::FolderContentsReply.spec_value() == 37 && spec_peer_code(37) == PeerMessageCode::FolderContentsReply,
        PeerMessageCode::TransferRequest.spec_value() == 40 && spec_peer_code(40) == PeerMessageCode::TransferRequest,
        PeerMessageCode::TransferReply.spec_value() == 41 && spec_peer_code(41) == PeerMessageCode::TransferReply,
        PeerMessageCode::UploadPlacehold.spec_value() == 42 && spec_peer_code(42) == PeerMessageCode::UploadPlacehold,
        PeerMessageCode::QueueUpload.spec_value() == 43 && spec_peer_code(43) == PeerMessageCode::QueueUpload,
        PeerMessageCode::PlaceInQueueReply.spec_value() == 44 && spec_peer_code(44) == PeerMessageCode::PlaceInQueueReply,
        PeerMessageCode::UploadFailed.spec_value() == 46 && spec_peer_code(46) == PeerMessageCode::UploadFailed,
        PeerMessageCode::QueueFailed.spec_value() == 50 && spec_peer_code(50) == PeerMessageCode::QueueFailed,
        PeerMessageCode::PlaceInQueueRequest.spec_value() == 51 && spec_peer_code(51) == PeerMessageCode::PlaceInQueueRequest,
        PeerMessageCode::UploadQueueNotification.spec_value() == 52 && spec_peer_code(52) == PeerMessageCode::UploadQueueNotification,
        spec_peer_code(n) == PeerMessageCode::Unknown || spec_peer_code(n).spec_value() == n,
{
}

} // verus!
