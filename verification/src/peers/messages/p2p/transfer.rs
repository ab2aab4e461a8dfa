//! File transfer negotiation between peers.
use crate::frame::{
    holds_at, lemma_holds_part, lemma_str_at, lemma_u32_at, lemma_u64_at, lemma_u8_at, le32, le64, ser_str, sp_str, sp_u32, sp_u64, sp_u8, str_bytes, write_string, write_u32,
    write_u64, write_u8, ParseBytes, Read, Reader, STR_LENGTH_PREFIX,
};
use crate::peers::messages::p2p::{
    ser_peer_header, ser_peer_str_msg, write_peer_header, write_str_msg, PeerMessageCode,
    PEER_MSG_HEADER_LEN,
};
use crate::SlskError;
use vstd::prelude::*;

verus! {

/// A request to upload (direction 1, with the file size) or download
/// (direction 0) a file.
#[derive(Debug)]
pub struct TransferRequest {
    pub direction: u32,
    pub ticket: u32,
    pub filename: String,
    pub file_size: Option<u64>,
}

impl View for TransferRequest {
    type V = (u32, u32, Seq<char>, Option<u64>);

    open spec fn view(&self) -> Self::V {
        (self.direction, self.ticket, self.filename@, self.file_size)
    }
}

impl ParseBytes for TransferRequest {
    /// Direction, ticket, file name, and the file size when the direction
    /// is 1.
    open spec fn spec_parse(s: Seq<u8>, p: int) -> Read<Self::V> {
        match sp_u32(s, p) {
            Err(e) => Err(e),
            Ok((direction, p)) => match sp_u32(s, p) {
                Err(e) => Err(e),
                Ok((ticket, p)) => match sp_str(s, p) {
                    Err(e) => Err(e),
                    Ok((filename, p)) => if direction == 1 {
                        match sp_u64(s, p) {
                            Err(e) => Err(e),
                            Ok((size, p)) => Ok(((direction, ticket, filename, Some(size)), p)),
                        }
                    } else {
                        Ok(((direction, ticket, filename, None), p))
                    },
                },
            },
        }
    }

    fn parse(src: &mut Reader) -> (res: Result<Self, SlskError>) {
        let ghost spec = Self::spec_parse(src.data(), src.position());
        let direction = src.read_u32()?;
        let ticket = src.read_u32()?;
        let filename = src.read_string()?;
        let file_size = if direction == 1 {
            Some(src.read_u64()?)
        } else {
            None
        };
        Ok(TransferRequest { direction, ticket, filename, file_size })
    }
}

impl TransferRequest {
    pub open spec fn spec_len(v: (u32, u32, Seq<char>, Option<u64>)) -> int {
        4 + 4 + 4 + (STR_LENGTH_PREFIX + str_bytes(v.2)) + if v.3 is Some {
            8int
        } else {
            0int
        }
    }

    /// Header, direction, ticket, file name, and the file size when there
    /// is one.
    pub open spec fn spec_bytes(v: (u32, u32, Seq<char>, Option<u64>)) -> Seq<u8> {
        ser_peer_header(Self::spec_len(v) as u32, PeerMessageCode::TransferRequest)
            + Self::spec_body(v)
    }

    /// Direction, ticket, file name, and the file size when there is one.
    pub open spec fn spec_body(v: (u32, u32, Seq<char>, Option<u64>)) -> Seq<u8> {
        le32(v.0) + le32(v.1) + ser_str(v.2) + match v.3 {
            Some(size) => le64(size),
            None => Seq::empty(),
        }
    }

    pub fn write_to_buf(&self, buffer: &mut Vec<u8>)
        requires
            Self::spec_len(self@) <= u32::MAX,
        ensures
            final(buffer)@ == old(buffer)@ + Self::spec_bytes(self@),
    {
        let name_len = self.filename.as_str().as_bytes().len() as u32;
        let len = match self.file_size {
            Some(_) => 4 + 4 + 4 + (STR_LENGTH_PREFIX + name_len) + 8,
            None => 4 + 4 + 4 + (STR_LENGTH_PREFIX + name_len),
        };
        write_peer_header(buffer, len, PeerMessageCode::TransferRequest);
        write_u32(buffer, self.direction);
        write_u32(buffer, self.ticket);
        write_string(buffer, self.filename.as_str());
        match self.file_size {
            Some(size) => write_u64(buffer, size),
            None => {},
        }
        assert(final(buffer)@ =~= old(buffer)@ + Self::spec_bytes(self@));
    }
}

/// Our place in the upload queue of a peer, for a file.
#[derive(Debug)]
pub struct PlaceInQueueReply {
    pub filename: String,
    pub place: String,
}

impl View for PlaceInQueueReply {
    type V = (Seq<char>, Seq<char>);

    open spec fn view(&self) -> Self::V {
        (self.filename@, self.place@)
    }
}

impl ParseBytes for PlaceInQueueReply {
    /// File name, then place.
    open spec fn spec_parse(s: Seq<u8>, p: int) -> Read<Self::V> {
        match sp_str(s, p) {
            Err(e) => Err(e),
            Ok((filename, p)) => match sp_str(s, p) {
                Err(e) => Err(e),
                Ok((place, p)) => Ok(((filename, place), p)),
            },
        }
    }

    fn parse(src: &mut Reader) -> (res: Result<Self, SlskError>) {
        let ghost spec = Self::spec_parse(src.data(), src.position());
        let filename = src.read_string()?;
        let place = src.read_string()?;
        Ok(PlaceInQueueReply { filename, place })
    }
}

impl PlaceInQueueReply {
    pub open spec fn spec_len(v: (Seq<char>, Seq<char>)) -> int {
        4 + (STR_LENGTH_PREFIX + str_bytes(v.0)) + (STR_LENGTH_PREFIX + str_bytes(v.1))
    }

    /// Header, file name, place.
    pub open spec fn spec_bytes(v: (Seq<char>, Seq<char>)) -> Seq<u8> {
        ser_peer_header(Self::spec_len(v) as u32, PeerMessageCode::PlaceInQueueReply)
            + Self::spec_body(v)
    }

    /// File name, place.
    pub open spec fn spec_body(v: (Seq<char>, Seq<char>)) -> Seq<u8> {
        ser_str(v.0) + ser_str(v.1)
    }

    pub fn write_to_buf(&self, buffer: &mut Vec<u8>)
        requires
            Self::spec_len(self@) <= u32::MAX,
        ensures
            final(buffer)@ == old(buffer)@ + Self::spec_bytes(self@),
    {
        let len = 4 + (STR_LENGTH_PREFIX + self.filename.as_str().as_bytes().len() as u32) + (
        STR_LENGTH_PREFIX + self.place.as_str().as_bytes().len() as u32);
        write_peer_header(buffer, len, PeerMessageCode::PlaceInQueueReply);
        write_string(buffer, self.filename.as_str());
        write_string(buffer, self.place.as_str());
        assert(final(buffer)@ =~= old(buffer)@ + Self::spec_bytes(self@));
    }
}

/// An upload that failed.
#[derive(Debug)]
pub struct UploadFailed {
    pub filename: String,
}

impl View for UploadFailed {
    type V = Seq<char>;

    open spec fn view(&self) -> Seq<char> {
        self.filename@
    }
}

impl ParseBytes for UploadFailed {
    /// The file name.
    open spec fn spec_parse(s: Seq<u8>, p: int) -> Read<Seq<char>> {
        sp_str(s, p)
    }

    fn parse(src: &mut Reader) -> (res: Result<Self, SlskError>) {
        let filename = src.read_string()?;
        Ok(UploadFailed { filename })
    }
}

impl UploadFailed {
    /// Header with code `UploadFailed`, then the file name.
    pub open spec fn spec_bytes(v: Seq<char>) -> Seq<u8> {
        ser_peer_str_msg(v, PeerMessageCode::UploadFailed)
    }

    pub fn write_to_buf(&self, buffer: &mut Vec<u8>)
        requires
            str_bytes(self@) + PEER_MSG_HEADER_LEN <= u32::MAX,
        ensures
            final(buffer)@ == old(buffer)@ + Self::spec_bytes(self@),
    {
        write_str_msg(self.filename.as_str(), PeerMessageCode::UploadFailed, buffer);
    }
}

/// A request for our place in the upload queue of a peer.
#[derive(Debug)]
pub struct PlaceInQueueRequest {
    pub filename: String,
}

impl View for PlaceInQueueRequest {
    type V = Seq<char>;

    open spec fn view(&self) -> Seq<char> {
        self.filename@
    }
}

impl ParseBytes for PlaceInQueueRequest {
    /// The file name.
    open spec fn spec_parse(s: Seq<u8>, p: int) -> Read<Seq<char>> {
        sp_str(s, p)
    }

    fn parse(src: &mut Reader) -> (res: Result<Self, SlskError>) {
        let filename = src.read_string()?;
        Ok(PlaceInQueueRequest { filename })
    }
}

impl PlaceInQueueRequest {
    /// Header with code `PlaceInQueueRequest`, then the file name.
    pub open spec fn spec_bytes(v: Seq<char>) -> Seq<u8> {
        ser_peer_str_msg(v, PeerMessageCode::PlaceInQueueRequest)
    }

    pub fn write_to_buf(&self, buffer: &mut Vec<u8>)
        requires
            str_bytes(self@) + PEER_MSG_HEADER_LEN <= u32::MAX,
        ensures
            final(buffer)@ == old(buffer)@ + Self::spec_bytes(self@),
    {
        write_str_msg(self.filename.as_str(), PeerMessageCode::PlaceInQueueRequest, buffer);
    }
}

/// A request to queue the upload of a file to us.
#[derive(Debug)]
pub struct QueueDownload {
    pub filename: String,
}

impl View for QueueDownload {
    type V = Seq<char>;

    open spec fn view(&self) -> Seq<char> {
        self.filename@
    }
}

impl ParseBytes for QueueDownload {
    /// The file name.
    open spec fn spec_parse(s: Seq<u8>, p: int) -> Read<Seq<char>> {
        sp_str(s, p)
    }

    fn parse(src: &mut Reader) -> (res: Result<Self, SlskError>) {
        let filename = src.read_string()?;
        Ok(QueueDownload { filename })
    }
}

impl QueueDownload {
    /// Header with code `QueueUpload`, then the file name.
    pub open spec fn spec_bytes(v: Seq<char>) -> Seq<u8> {
        ser_peer_str_msg(v, PeerMessageCode::QueueUpload)
    }

    pub fn write_to_buf(&self, buffer: &mut Vec<u8>)
        requires
            str_bytes(self@) + PEER_MSG_HEADER_LEN <= u32::MAX,
        ensures
            final(buffer)@ == old(buffer)@ + Self::spec_bytes(self@),
    {
        write_str_msg(self.filename.as_str(), PeerMessageCode::QueueUpload, buffer);
    }
}

/// A request that a peer could not queue, with the reason.
#[derive(Debug)]
pub struct QueueFailed {
    pub filename: String,
    pub reason: String,
}

impl View for QueueFailed {
    type V = (Seq<char>, Seq<char>);

    open spec fn view(&self) -> Self::V {
        (self.filename@, self.reason@)
    }
}

impl ParseBytes for QueueFailed {
    /// File name, then reason.
    open spec fn spec_parse(s: Seq<u8>, p: int) -> Read<Self::V> {
        match sp_str(s, p) {
            Err(e) => Err(e),
            Ok((filename, p)) => match sp_str(s, p) {
                Err(e) => Err(e),
                Ok((reason, p)) => Ok(((filename, reason), p)),
            },
        }
    }

    fn parse(src: &mut Reader) -> (res: Result<Self, SlskError>) {
        let ghost spec = Self::spec_parse(src.data(), src.position());
        let filename = src.read_string()?;
        let reason = src.read_string()?;
        Ok(QueueFailed { filename, reason })
    }
}

impl QueueFailed {
    pub open spec fn spec_len(v: (Seq<char>, Seq<char>)) -> int {
        STR_LENGTH_PREFIX + str_bytes(v.0) + STR_LENGTH_PREFIX + str_bytes(v.1) + 4
    }

    /// Header, file name, reason.
    pub open spec fn spec_bytes(v: (Seq<char>, Seq<char>)) -> Seq<u8> {
        ser_peer_header(Self::spec_len(v) as u32, PeerMessageCode::QueueFailed)
            + Self::spec_body(v)
    }

    /// File name, reason.
    pub open spec fn spec_body(v: (Seq<char>, Seq<char>)) -> Seq<u8> {
        ser_str(v.0) + ser_str(v.1)
    }

    pub fn write_to_buf(&self, buffer: &mut Vec<u8>)
        requires
            Self::spec_len(self@) <= u32::MAX,
        ensures
            final(buffer)@ == old(buffer)@ + Self::spec_bytes(self@),
    {
        let len = STR_LENGTH_PREFIX + self.filename.as_str().as_bytes().len() as u32
            + STR_LENGTH_PREFIX + self.reason.as_str().as_bytes().len() as u32 + 4;
        write_peer_header(buffer, len, PeerMessageCode::QueueFailed);
        write_string(buffer, self.filename.as_str());
        write_string(buffer, self.reason.as_str());
        assert(final(buffer)@ =~= old(buffer)@ + Self::spec_bytes(self@));
    }
}

/// The answer to a transfer request: accepted, with the file size, or
/// rejected, with the reason.
#[derive(Debug)]
pub enum TransferReply {
    TransferReplyOk { ticket: u32, file_size: u64 },
    TransferRejected { ticket: u32, reason: String },
}

/// What a transfer reply holds.
pub enum TransferReplyView {
    TransferReplyOk { ticket: u32, file_size: u64 },
    TransferRejected { ticket: u32, reason: Seq<char> },
}

impl View for TransferReply {
    type V = TransferReplyView;

    open spec fn view(&self) -> TransferReplyView {
        match self {
            TransferReply::TransferReplyOk { ticket, file_size } => TransferReplyView::TransferReplyOk {
                ticket: *ticket,
                file_size: *file_size,
            },
            TransferReply::TransferRejected { ticket, reason } => TransferReplyView::TransferRejected {
                ticket: *ticket,
                reason: reason@,
            },
        }
    }
}

impl ParseBytes for TransferReply {
    /// The ticket and a byte: 1 for accepted, followed by the file size; any
    /// other value for rejected, followed by the reason.
    open spec fn spec_parse(s: Seq<u8>, p: int) -> Read<TransferReplyView> {
        match sp_u32(s, p) {
            Err(e) => Err(e),
            Ok((ticket, p)) => match sp_u8(s, p) {
                Err(e) => Err(e),
                Ok((allowed, p)) => if allowed == 1 {
                    match sp_u64(s, p) {
                        Err(e) => Err(e),
                        Ok((file_size, p)) => Ok(
                            (TransferReplyView::TransferReplyOk { ticket, file_size }, p),
                        ),
                    }
                } else {
                    match sp_str(s, p) {
                        Err(e) => Err(e),
                        Ok((reason, p)) => Ok(
                            (TransferReplyView::TransferRejected { ticket, reason }, p),
                        ),
                    }
                },
            },
        }
    }

    fn parse(src: &mut Reader) -> (res: Result<Self, SlskError>) {
        let ghost spec = Self::spec_parse(src.data(), src.position());
        let ticket = src.read_u32()?;
        let allowed = src.read_u8()?;
        if allowed == 1 {
            let file_size = src.read_u64()?;
            Ok(TransferReply::TransferReplyOk { ticket, file_size })
        } else {
            let reason = src.read_string()?;
            Ok(TransferReply::TransferRejected { ticket, reason })
        }
    }
}

impl TransferReply {
    pub open spec fn spec_len(v: TransferReplyView) -> int {
        match v {
            TransferReplyView::TransferReplyOk { .. } => 17int,
            TransferReplyView::TransferRejected { reason, .. } => 4 + 4 + 1 + STR_LENGTH_PREFIX
                + str_bytes(reason),
        }
    }

    /// Header, ticket, then 1 and the file size, or 0 and the reason.
    pub open spec fn spec_bytes(v: TransferReplyView) -> Seq<u8> {
        ser_peer_header(Self::spec_len(v) as u32, PeerMessageCode::TransferReply)
            + Self::spec_body(v)
    }

    /// Ticket, then 1 and the file size, or 0 and the reason.
    pub open spec fn spec_body(v: TransferReplyView) -> Seq<u8> {
        match v {
            TransferReplyView::TransferReplyOk { ticket, file_size } => le32(ticket) + seq![1u8]
                + le64(file_size),
            TransferReplyView::TransferRejected { ticket, reason } => le32(ticket) + seq![0u8]
                + ser_str(reason),
        }
    }

    pub fn write_to_buf(&self, buffer: &mut Vec<u8>)
        requires
            Self::spec_len(self@) <= u32::MAX,
        ensures
            final(buffer)@ == old(buffer)@ + Self::spec_bytes(self@),
    {
        match self {
            TransferReply::TransferReplyOk { ticket, file_size } => {
                write_peer_header(buffer, 4 + 4 + 1 + 8, PeerMessageCode::TransferReply);
                write_u32(buffer, *ticket);
                write_u8(buffer, 1);
                write_u64(buffer, *file_size);
            },
            TransferReply::TransferRejected { ticket, reason } => {
                let len = 4 + 4 + 1 + STR_LENGTH_PREFIX + reason.as_str().as_bytes().len() as u32;
                write_peer_header(buffer, len, PeerMessageCode::TransferReply);
                write_u32(buffer, *ticket);
                write_u8(buffer, 0);
                write_string(buffer, reason.as_str());
            },
        }
        assert(final(buffer)@ =~= old(buffer)@ + Self::spec_bytes(self@));
    }
}

/// A transfer request reads back from its body when its file name fits its
/// prefix and it carries a file size exactly when its direction is 1.
pub open spec fn transfer_request_roundtrips(v: (u32, u32, Seq<char>, Option<u64>)) -> bool {
    str_bytes(v.2) <= u32::MAX && (v.0 == 1) == (v.3 is Some)
}

/// The body of a transfer request reads back as the request it was written
/// from, and the length field counts the code and that body.
pub proof fn lemma_transfer_request_body(s: Seq<u8>, p: int, v: (u32, u32, Seq<char>, Option<u64>))
    requires
        transfer_request_roundtrips(v),
        holds_at(s, p, TransferRequest::spec_body(v)),
    ensures
        TransferRequest::spec_parse(s, p) == Ok::<((u32, u32, Seq<char>, Option<u64>), int), SlskError>(
            (v, p + TransferRequest::spec_body(v).len()),
        ),
        TransferRequest::spec_len(v) == 4 + TransferRequest::spec_body(v).len(),
{
    broadcast use crate::frame::group_wire_lemmas;

    let w = TransferRequest::spec_body(v);
    let n = ser_str(v.2);
    lemma_holds_part(s, p, w, 0, le32(v.0));
    lemma_u32_at(s, p, v.0);
    lemma_holds_part(s, p, w, 4, le32(v.1));
    lemma_u32_at(s, p + 4, v.1);
    lemma_holds_part(s, p, w, 8, n);
    lemma_str_at(s, p + 8, v.2);
    match v.3 {
        Some(size) => {
            lemma_holds_part(s, p, w, 8 + n.len() as int, le64(size));
            lemma_u64_at(s, p + 8 + n.len(), size);
        },
        None => {},
    }
}

/// Two strings, written one after the other, read back.
pub proof fn lemma_two_strings_body(s: Seq<u8>, p: int, a: Seq<char>, b: Seq<char>)
    requires
        str_bytes(a) <= u32::MAX,
        str_bytes(b) <= u32::MAX,
        holds_at(s, p, ser_str(a) + ser_str(b)),
    ensures
        PlaceInQueueReply::spec_parse(s, p) == Ok::<((Seq<char>, Seq<char>), int), SlskError>(
            ((a, b), p + (ser_str(a) + ser_str(b)).len()),
        ),
        QueueFailed::spec_parse(s, p) == Ok::<((Seq<char>, Seq<char>), int), SlskError>(
            ((a, b), p + (ser_str(a) + ser_str(b)).len()),
        ),
{
    let w = ser_str(a) + ser_str(b);
    lemma_holds_part(s, p, w, 0, ser_str(a));
    lemma_str_at(s, p, a);
    lemma_holds_part(s, p, w, ser_str(a).len() as int, ser_str(b));
    lemma_str_at(s, p + ser_str(a).len(), b);
}

/// The body of a transfer reply reads back as the reply it was written
/// from, and the length field counts the code and that body.
pub proof fn lemma_transfer_reply_body(s: Seq<u8>, p: int, v: TransferReplyView)
    requires
        v matches TransferReplyView::TransferRejected { reason, .. } ==> str_bytes(reason) <= u32::MAX,
        holds_at(s, p, TransferReply::spec_body(v)),
    ensures
        TransferReply::spec_parse(s, p) == Ok::<(TransferReplyView, int), SlskError>(
            (v, p + TransferReply::spec_body(v).len()),
        ),
        TransferReply::spec_len(v) == 4 + TransferReply::spec_body(v).len(),
{
    broadcast use crate::frame::group_wire_lemmas;

    let w = TransferReply::spec_body(v);
    match v {
        TransferReplyView::TransferReplyOk { ticket, file_size } => {
            lemma_holds_part(s, p, w, 0, le32(ticket));
            lemma_u32_at(s, p, ticket);
            lemma_holds_part(s, p, w, 4, seq![1u8]);
            lemma_u8_at(s, p + 4, 1u8);
            lemma_holds_part(s, p, w, 5, le64(file_size));
            lemma_u64_at(s, p + 5, file_size);
        },
        TransferReplyView::TransferRejected { ticket, reason } => {
            lemma_holds_part(s, p, w, 0, le32(ticket));
            lemma_u32_at(s, p, ticket);
            lemma_holds_part(s, p, w, 4, seq![0u8]);
            lemma_u8_at(s, p + 4, 0u8);
            lemma_holds_part(s, p, w, 5, ser_str(reason));
            lemma_str_at(s, p + 5, reason);
        },
    }
}

/// A queue failure on the wire is the file name, then the reason.
pub proof fn lemma_queue_failed_layout(s: Seq<u8>, p: int, filename: Seq<char>, reason: Seq<char>)
    requires
        str_bytes(filename) <= u32::MAX,
        str_bytes(reason) <= u32::MAX,
        holds_at(s, p, ser_str(filename) + ser_str(reason)),
    ensures
        QueueFailed::spec_parse(s, p) == Ok::<((Seq<char>, Seq<char>), int), SlskError>(
            ((filename, reason), p + (ser_str(filename) + ser_str(reason)).len()),
        ),
{
    broadcast use crate::frame::group_wire_lemmas;

    let w = ser_str(filename) + ser_str(reason);
    lemma_holds_part(s, p, w, 0int, ser_str(filename));
    lemma_str_at(s, p + 0int, filename);
    lemma_holds_part(s, p, w, 0int + ser_str(filename).len(), ser_str(reason));
    lemma_str_at(s, p + 0int + ser_str(filename).len(), reason);
}

/// A place in queue reply on the wire is the file name, then the place.
pub proof fn lemma_place_in_queue_reply_layout(s: Seq<u8>, p: int, filename: Seq<char>, place: Seq<char>)
    requires
        str_bytes(filename) <= u32::MAX,
        str_bytes(place) <= u32::MAX,
        holds_at(s, p, ser_str(filename) + ser_str(place)),
    ensures
        PlaceInQueueReply::spec_parse(s, p) == Ok::<((Seq<char>, Seq<char>), int), SlskError>(
            ((filename, place), p + (ser_str(filename) + ser_str(place)).len()),
        ),
{
    broadcast use crate::frame::group_wire_lemmas;

    let w = ser_str(filename) + ser_str(place);
    lemma_holds_part(s, p, w, 0int, ser_str(filename));
    lemma_str_at(s, p + 0int, filename);
    lemma_holds_part(s, p, w, 0int + ser_str(filename).len(), ser_str(place));
    lemma_str_at(s, p + 0int + ser_str(filename).len(), place);
}

} // verus!
