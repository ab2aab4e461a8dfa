//! Peer messages that we receive.
use crate::frame::{
    holds_at, le32, lemma_holds_part, lemma_str_at, lemma_u32_at, read_matches, ser_str, str_bytes,
    ParseBytes, Read, Reader,
};
use crate::peers::messages::p2p::request::PeerRequest;
use crate::peers::messages::p2p::folder_content::FolderContentsRequest;
use crate::peers::messages::p2p::search::{spec_parse_search_reply, SearchReply, SearchReplyView};
use crate::peers::messages::p2p::shared_directories::{DirectoryView, SharedDirectories};
use crate::peers::messages::p2p::transfer::{
    lemma_transfer_reply_body, lemma_transfer_request_body, lemma_two_strings_body,
    transfer_request_roundtrips, PlaceInQueueReply, PlaceInQueueRequest, QueueFailed,
    TransferReply, TransferReplyView, TransferRequest, UploadFailed,
};
use crate::peers::messages::p2p::user_info::{
    lemma_user_info_body, user_info_roundtrips, UserInfo, UserInfoView,
};
use crate::peers::messages::p2p::{ser_peer_header, spec_check, PeerMessageCode, PeerMessageHeader};
use crate::SlskError;
use vstd::prelude::*;

verus! {

/// A message that a peer sends us.
#[derive(Debug)]
pub enum PeerResponse {
    SharesRequest,
    SharesReply(SharedDirectories),
    SearchReply(SearchReply),
    UserInfoRequest,
    UserInfoReply(UserInfo),
    FolderContentsRequest(FolderContentsRequest),
    FolderContentsReply(SharedDirectories),
    TransferRequest(TransferRequest),
    TransferReply(TransferReply),
    UploadPlaceholder,
    QueueDownload { filename: String },
    PlaceInQueueReply(PlaceInQueueReply),
    UploadFailed(UploadFailed),
    QueueFailed(QueueFailed),
    PlaceInQueueRequest(PlaceInQueueRequest),
    UploadQueueNotification,
    Unknown,
}

/// What a received peer message holds.
pub enum PeerResponseView {
    SharesRequest,
    SharesReply(Seq<DirectoryView>),
    SearchReply(SearchReplyView),
    UserInfoRequest,
    UserInfoReply(UserInfoView),
    FolderContentsRequest(Seq<Seq<char>>),
    FolderContentsReply(Seq<DirectoryView>),
    TransferRequest((u32, u32, Seq<char>, Option<u64>)),
    TransferReply(TransferReplyView),
    UploadPlaceholder,
    QueueDownload(Seq<char>),
    PlaceInQueueReply((Seq<char>, Seq<char>)),
    UploadFailed(Seq<char>),
    QueueFailed((Seq<char>, Seq<char>)),
    PlaceInQueueRequest(Seq<char>),
    UploadQueueNotification,
    Unknown,
}

impl View for PeerResponse {
    type V = PeerResponseView;

    open spec fn view(&self) -> PeerResponseView {
        match self {
            PeerResponse::SharesRequest => PeerResponseView::SharesRequest,
            PeerResponse::SharesReply(d) => PeerResponseView::SharesReply(d@),
            PeerResponse::SearchReply(r) => PeerResponseView::SearchReply(r@),
            PeerResponse::UserInfoRequest => PeerResponseView::UserInfoRequest,
            PeerResponse::UserInfoReply(i) => PeerResponseView::UserInfoReply(i@),
            PeerResponse::FolderContentsRequest(r) => PeerResponseView::FolderContentsRequest(r@),
            PeerResponse::FolderContentsReply(d) => PeerResponseView::FolderContentsReply(d@),
            PeerResponse::TransferRequest(r) => PeerResponseView::TransferRequest(r@),
            PeerResponse::TransferReply(r) => PeerResponseView::TransferReply(r@),
            PeerResponse::UploadPlaceholder => PeerResponseView::UploadPlaceholder,
            PeerResponse::QueueDownload { filename } => PeerResponseView::QueueDownload(filename@),
            PeerResponse::PlaceInQueueReply(r) => PeerResponseView::PlaceInQueueReply(r@),
            PeerResponse::UploadFailed(r) => PeerResponseView::UploadFailed(r@),
            PeerResponse::QueueFailed(r) => PeerResponseView::QueueFailed(r@),
            PeerResponse::PlaceInQueueRequest(r) => PeerResponseView::PlaceInQueueRequest(r@),
            PeerResponse::UploadQueueNotification => PeerResponseView::UploadQueueNotification,
            PeerResponse::Unknown => PeerResponseView::Unknown,
        }
    }
}

impl PeerResponse {
    /// Checks that the buffer holds a whole peer message and reads its header.
    pub fn check(src: &mut Reader) -> (res: Result<PeerMessageHeader, SlskError>)
        ensures
            final(src).data() == old(src).data(),
            read_matches(
                res,
                crate::peers::messages::p2p::spec_check(old(src).data(), old(src).position()),
                final(src).position(),
            ),
    {
        crate::peers::messages::p2p::check(src)
    }

    pub open spec fn spec_kind(&self) -> Seq<char> {
        match self {
            PeerResponse::SharesRequest => "SharesRequest"@,
            PeerResponse::SharesReply(_) => "SharesReply"@,
            PeerResponse::SearchReply(_) => "SearchReply"@,
            PeerResponse::UserInfoRequest => "UserInfoRequest"@,
            PeerResponse::UserInfoReply(_) => "UserInfoReply"@,
            PeerResponse::FolderContentsRequest(_) => "FolderContentsRequest"@,
            PeerResponse::FolderContentsReply(_) => "FolderContentsReply"@,
            PeerResponse::TransferRequest(_) => "TransferRequest"@,
            PeerResponse::TransferReply(_) => "TransferReply"@,
            PeerResponse::UploadPlaceholder => "UploadPlaceholder"@,
            PeerResponse::QueueDownload { .. } => "QueueDownload"@,
            PeerResponse::PlaceInQueueReply(_) => "PlaceInQueueReply"@,
            PeerResponse::UploadFailed(_) => "UploadFailed"@,
            PeerResponse::QueueFailed(_) => "QueueFailed"@,
            PeerResponse::PlaceInQueueRequest(_) => "PlaceInQueueRequest"@,
            PeerResponse::UploadQueueNotification => "UploadQueueNotification"@,
            PeerResponse::Unknown => "Unknown"@,
        }
    }

    /// Name of the message kind, for logging.
    pub fn kind(&self) -> (name: &str)
        ensures
            name@ == self.spec_kind(),
    {
        match self {
            PeerResponse::SharesRequest => "SharesRequest",
            PeerResponse::SharesReply(_) => "SharesReply",
            PeerResponse::SearchReply(_) => "SearchReply",
            PeerResponse::UserInfoRequest => "UserInfoRequest",
            PeerResponse::UserInfoReply(_) => "UserInfoReply",
            PeerResponse::FolderContentsRequest(_) => "FolderContentsRequest",
            PeerResponse::FolderContentsReply(_) => "FolderContentsReply",
            PeerResponse::TransferRequest(_) => "TransferRequest",
            PeerResponse::TransferReply(_) => "TransferReply",
            PeerResponse::UploadPlaceholder => "UploadPlaceholder",
            PeerResponse::QueueDownload { .. } => "QueueDownload",
            PeerResponse::PlaceInQueueReply(_) => "PlaceInQueueReply",
            PeerResponse::UploadFailed(_) => "UploadFailed",
            PeerResponse::QueueFailed(_) => "QueueFailed",
            PeerResponse::PlaceInQueueRequest(_) => "PlaceInQueueRequest",
            PeerResponse::UploadQueueNotification => "UploadQueueNotification",
            PeerResponse::Unknown => "Unknown",
        }
    }

    /// The body of a message with the given code. Requests for shares and
    /// for user information, upload placeholders and upload queue
    /// notifications have none. Shares, folder contents and search replies
    /// are inflated from the rest of the buffer, which does not move the
    /// position. Queue upload and place in queue requests are answered as
    /// requests for user information, without reading their body; search
    /// requests and unknown codes read as `Unknown`.
    pub open spec fn spec_parse(s: Seq<u8>, p: int, code: PeerMessageCode) -> Read<PeerResponseView> {
        match code {
            PeerMessageCode::SharesRequest => Ok((PeerResponseView::SharesRequest, p)),
            PeerMessageCode::SharesReply => match SharedDirectories::spec_parse(s, p) {
                Err(e) => Err(e),
                Ok((v, p)) => Ok((PeerResponseView::SharesReply(v), p)),
            },
            PeerMessageCode::SearchRequest => Ok((PeerResponseView::Unknown, p)),
            PeerMessageCode::SearchReply => match spec_parse_search_reply(s, p) {
                Err(e) => Err(e),
                Ok(v) => Ok((PeerResponseView::SearchReply(v), p)),
            },
            PeerMessageCode::UserInfoRequest => Ok((PeerResponseView::UserInfoRequest, p)),
            PeerMessageCode::UserInfoReply => match UserInfo::spec_parse(s, p) {
                Err(e) => Err(e),
                Ok((v, p)) => Ok((PeerResponseView::UserInfoReply(v), p)),
            },
            PeerMessageCode::FolderContentsRequest => match FolderContentsRequest::spec_parse(s, p) {
                Err(e) => Err(e),
                Ok((v, p)) => Ok((PeerResponseView::FolderContentsRequest(v), p)),
            },
            PeerMessageCode::FolderContentsReply => match SharedDirectories::spec_parse(s, p) {
                Err(e) => Err(e),
                Ok((v, p)) => Ok((PeerResponseView::FolderContentsReply(v), p)),
            },
            PeerMessageCode::TransferRequest => match TransferRequest::spec_parse(s, p) {
                Err(e) => Err(e),
                Ok((v, p)) => Ok((PeerResponseView::TransferRequest(v), p)),
            },
            PeerMessageCode::TransferReply => match TransferReply::spec_parse(s, p) {
                Err(e) => Err(e),
                Ok((v, p)) => Ok((PeerResponseView::TransferReply(v), p)),
            },
            PeerMessageCode::UploadPlacehold => Ok((PeerResponseView::UploadPlaceholder, p)),
            PeerMessageCode::QueueUpload => Ok((PeerResponseView::UserInfoRequest, p)),
            PeerMessageCode::PlaceInQueueReply => match PlaceInQueueReply::spec_parse(s, p) {
                Err(e) => Err(e),
                Ok((v, p)) => Ok((PeerResponseView::PlaceInQueueReply(v), p)),
            },
            PeerMessageCode::UploadFailed => match UploadFailed::spec_parse(s, p) {
                Err(e) => Err(e),
                Ok((v, p)) => Ok((PeerResponseView::UploadFailed(v), p)),
            },
            PeerMessageCode::QueueFailed => match QueueFailed::spec_parse(s, p) {
                Err(e) => Err(e),
                Ok((v, p)) => Ok((PeerResponseView::QueueFailed(v), p)),
            },
            PeerMessageCode::PlaceInQueueRequest => Ok((PeerResponseView::UserInfoRequest, p)),
            PeerMessageCode::UploadQueueNotification => Ok(
                (PeerResponseView::UploadQueueNotification, p),
            ),
            PeerMessageCode::Unknown => Ok((PeerResponseView::Unknown, p)),
        }
    }

    /// Parses the body of a message whose header has been read.
    pub fn parse(src: &mut Reader, header: &PeerMessageHeader) -> (res: Result<Self, SlskError>)
        ensures
            final(src).data() == old(src).data(),
            read_matches(
                res,
                Self::spec_parse(old(src).data(), old(src).position(), header.code),
                final(src).position(),
            ),
    {
        match header.code {
            PeerMessageCode::SharesRequest => Ok(PeerResponse::SharesRequest),
            PeerMessageCode::SharesReply => {
                let dirs = SharedDirectories::parse(src)?;
                Ok(PeerResponse::SharesReply(dirs))
            },
            PeerMessageCode::SearchRequest => Ok(PeerResponse::Unknown),
            PeerMessageCode::SearchReply => {
                let reply = SearchReply::parse(src)?;
                Ok(PeerResponse::SearchReply(reply))
            },
            PeerMessageCode::UserInfoRequest => Ok(PeerResponse::UserInfoRequest),
            PeerMessageCode::UserInfoReply => {
                let info = UserInfo::parse(src)?;
                Ok(PeerResponse::UserInfoReply(info))
            },
            PeerMessageCode::FolderContentsRequest => {
                let request = FolderContentsRequest::parse(src)?;
                Ok(PeerResponse::FolderContentsRequest(request))
            },
            PeerMessageCode::FolderContentsReply => {
                let dirs = SharedDirectories::parse(src)?;
                Ok(PeerResponse::FolderContentsReply(dirs))
            },
            PeerMessageCode::TransferRequest => {
                let request = TransferRequest::parse(src)?;
                Ok(PeerResponse::TransferRequest(request))
            },
            PeerMessageCode::TransferReply => {
                let reply = TransferReply::parse(src)?;
                Ok(PeerResponse::TransferReply(reply))
            },
            PeerMessageCode::UploadPlacehold => Ok(PeerResponse::UploadPlaceholder),
            PeerMessageCode::QueueUpload => Ok(PeerResponse::UserInfoRequest),
            PeerMessageCode::PlaceInQueueReply => {
                let reply = PlaceInQueueReply::parse(src)?;
                Ok(PeerResponse::PlaceInQueueReply(reply))
            },
            PeerMessageCode::UploadFailed => {
                let failed = UploadFailed::parse(src)?;
                Ok(PeerResponse::UploadFailed(failed))
            },
            PeerMessageCode::QueueFailed => {
                let failed = QueueFailed::parse(src)?;
                Ok(PeerResponse::QueueFailed(failed))
            },
            PeerMessageCode::PlaceInQueueRequest => Ok(PeerResponse::UserInfoRequest),
            PeerMessageCode::UploadQueueNotification => Ok(PeerResponse::UploadQueueNotification),
            PeerMessageCode::Unknown => Ok(PeerResponse::Unknown),
        }
    }
}

/// Whether a request that we write reads back, as a response, as the same
/// message: requests for shares and user information, user information,
/// transfer requests that carry a file size exactly for direction 1,
/// transfer replies, places in queue, failed uploads and failed queueings,
/// with strings that fit their length prefixes. (Queue upload and place in
/// queue requests read as requests for user information; a folder contents
/// request is written without its body.)
pub open spec fn request_roundtrips(r: &PeerRequest) -> bool {
    match r {
        PeerRequest::SharesRequest | PeerRequest::UserInfoRequest => true,
        PeerRequest::UserInfoReply(info) => user_info_roundtrips(info@),
        PeerRequest::TransferRequest(t) => transfer_request_roundtrips(t@),
        PeerRequest::TransferReply(t) => t@ matches TransferReplyView::TransferRejected {
            reason,
            ..
        } ==> str_bytes(reason) <= u32::MAX,
        PeerRequest::PlaceInQueueReply(x) => str_bytes(x@.0) <= u32::MAX && str_bytes(x@.1)
            <= u32::MAX,
        PeerRequest::UploadFailed(x) => str_bytes(x@) <= u32::MAX,
        PeerRequest::QueueFailed(x) => str_bytes(x@.0) <= u32::MAX && str_bytes(x@.1) <= u32::MAX,
        _ => false,
    }
}

/// The code that a request is written with.
pub open spec fn request_code(r: &PeerRequest) -> PeerMessageCode {
    match r {
        PeerRequest::SharesRequest => PeerMessageCode::SharesRequest,
        PeerRequest::UserInfoRequest => PeerMessageCode::UserInfoRequest,
        PeerRequest::UserInfoReply(_) => PeerMessageCode::UserInfoReply,
        PeerRequest::TransferRequest(_) => PeerMessageCode::TransferRequest,
        PeerRequest::TransferReply(_) => PeerMessageCode::TransferReply,
        PeerRequest::PlaceInQueueReply(_) => PeerMessageCode::PlaceInQueueReply,
        PeerRequest::UploadFailed(_) => PeerMessageCode::UploadFailed,
        PeerRequest::QueueFailed(_) => PeerMessageCode::QueueFailed,
        _ => PeerMessageCode::Unknown,
    }
}

/// The response that a request reads back as.
pub open spec fn response_view(r: &PeerRequest) -> PeerResponseView {
    match r {
        PeerRequest::SharesRequest => PeerResponseView::SharesRequest,
        PeerRequest::UserInfoRequest => PeerResponseView::UserInfoRequest,
        PeerRequest::UserInfoReply(info) => PeerResponseView::UserInfoReply(info@),
        PeerRequest::TransferRequest(t) => PeerResponseView::TransferRequest(t@),
        PeerRequest::TransferReply(t) => PeerResponseView::TransferReply(t@),
        PeerRequest::PlaceInQueueReply(x) => PeerResponseView::PlaceInQueueReply(x@),
        PeerRequest::UploadFailed(x) => PeerResponseView::UploadFailed(x@),
        PeerRequest::QueueFailed(x) => PeerResponseView::QueueFailed(x@),
        _ => PeerResponseView::Unknown,
    }
}

/// A message of a header whose length counts the code and `body`, then
/// `body`, is found whole by `check`, which leaves the position at `body`.
proof fn lemma_framed(w: Seq<u8>, rest: Seq<u8>, code: PeerMessageCode, body: Seq<u8>)
    requires
        code != PeerMessageCode::Unknown,
        4 + body.len() <= u32::MAX,
        w == ser_peer_header((4 + body.len()) as u32, code) + body,
    ensures
        spec_check(w + rest, 0) == Ok::<(PeerMessageHeader, int), SlskError>(
            (PeerMessageHeader { code, message_len: body.len() as usize }, 8),
        ),
        holds_at(w + rest, 8, body),
        w.len() == 8 + body.len(),
{
    broadcast use crate::frame::group_wire_lemmas;

    let s = w + rest;
    assert(holds_at(s, 0, w)) by {
        assert(s.subrange(0, w.len() as int) =~= w);
    }
    lemma_holds_part(s, 0, w, 0, le32((4 + body.len()) as u32));
    lemma_u32_at(s, 0, (4 + body.len()) as u32);
    lemma_holds_part(s, 0, w, 4, le32(code.spec_value()));
    lemma_u32_at(s, 4, code.spec_value());
    lemma_holds_part(s, 0, w, 8, body);
    crate::peers::messages::p2p::lemma_peer_code_roundtrip(code);
}

proof fn lemma_user_info_reply_roundtrip(v: UserInfoView, rest: Seq<u8>)
    requires
        user_info_roundtrips(v) && UserInfo::spec_len(v) <= u32::MAX,
    ensures
        spec_check(UserInfo::spec_bytes(v) + rest, 0) == Ok::<(PeerMessageHeader, int), SlskError>(
            (
                PeerMessageHeader {
                    code: PeerMessageCode::UserInfoReply,
                    message_len: (UserInfo::spec_bytes(v).len() - 8) as usize,
                },
                8,
            ),
        ),
        UserInfo::spec_parse(UserInfo::spec_bytes(v) + rest, 8) == Ok::<(UserInfoView, int), SlskError>(
            (v, UserInfo::spec_bytes(v).len() as int),
        ),
        8 <= UserInfo::spec_bytes(v).len() <= u32::MAX + 4,
{
    broadcast use crate::frame::group_wire_lemmas;

    let w = UserInfo::spec_bytes(v);
    let body = UserInfo::spec_body(v);
    assert(w =~= ser_peer_header((4 + body.len()) as u32, PeerMessageCode::UserInfoReply) + body);
    lemma_framed(w, rest, PeerMessageCode::UserInfoReply, body);
    lemma_user_info_body(w + rest, 8, v);
}

proof fn lemma_transfer_request_roundtrip(v: (u32, u32, Seq<char>, Option<u64>), rest: Seq<u8>)
    requires
        transfer_request_roundtrips(v) && TransferRequest::spec_len(v) <= u32::MAX,
    ensures
        spec_check(TransferRequest::spec_bytes(v) + rest, 0) == Ok::<(PeerMessageHeader, int), SlskError>(
            (
                PeerMessageHeader {
                    code: PeerMessageCode::TransferRequest,
                    message_len: (TransferRequest::spec_bytes(v).len() - 8) as usize,
                },
                8,
            ),
        ),
        TransferRequest::spec_parse(TransferRequest::spec_bytes(v) + rest, 8) == Ok::<((u32, u32, Seq<char>, Option<u64>), int), SlskError>(
            (v, TransferRequest::spec_bytes(v).len() as int),
        ),
        8 <= TransferRequest::spec_bytes(v).len() <= u32::MAX + 4,
{
    broadcast use crate::frame::group_wire_lemmas;

    let w = TransferRequest::spec_bytes(v);
    let body = TransferRequest::spec_body(v);
    assert(w =~= ser_peer_header((4 + body.len()) as u32, PeerMessageCode::TransferRequest) + body);
    lemma_framed(w, rest, PeerMessageCode::TransferRequest, body);
    lemma_transfer_request_body(w + rest, 8, v);
}

proof fn lemma_transfer_reply_roundtrip(v: TransferReplyView, rest: Seq<u8>)
    requires
        (v matches TransferReplyView::TransferRejected { reason, .. } ==> str_bytes(reason) <= u32::MAX) && TransferReply::spec_len(v) <= u32::MAX,
    ensures
        spec_check(TransferReply::spec_bytes(v) + rest, 0) == Ok::<(PeerMessageHeader, int), SlskError>(
            (
                PeerMessageHeader {
                    code: PeerMessageCode::TransferReply,
                    message_len: (TransferReply::spec_bytes(v).len() - 8) as usize,
                },
                8,
            ),
        ),
        TransferReply::spec_parse(TransferReply::spec_bytes(v) + rest, 8) == Ok::<(TransferReplyView, int), SlskError>(
            (v, TransferReply::spec_bytes(v).len() as int),
        ),
        8 <= TransferReply::spec_bytes(v).len() <= u32::MAX + 4,
{
    broadcast use crate::frame::group_wire_lemmas;

    let w = TransferReply::spec_bytes(v);
    let body = TransferReply::spec_body(v);
    assert(w =~= ser_peer_header((4 + body.len()) as u32, PeerMessageCode::TransferReply) + body);
    lemma_framed(w, rest, PeerMessageCode::TransferReply, body);
    lemma_transfer_reply_body(w + rest, 8, v);
}

proof fn lemma_place_in_queue_reply_roundtrip(v: (Seq<char>, Seq<char>), rest: Seq<u8>)
    requires
        str_bytes(v.0) <= u32::MAX && str_bytes(v.1) <= u32::MAX && PlaceInQueueReply::spec_len(v) <= u32::MAX,
    ensures
        spec_check(PlaceInQueueReply::spec_bytes(v) + rest, 0) == Ok::<(PeerMessageHeader, int), SlskError>(
            (
                PeerMessageHeader {
                    code: PeerMessageCode::PlaceInQueueReply,
                    message_len: (PlaceInQueueReply::spec_bytes(v).len() - 8) as usize,
                },
                8,
            ),
        ),
        PlaceInQueueReply::spec_parse(PlaceInQueueReply::spec_bytes(v) + rest, 8) == Ok::<((Seq<char>, Seq<char>), int), SlskError>(
            (v, PlaceInQueueReply::spec_bytes(v).len() as int),
        ),
        8 <= PlaceInQueueReply::spec_bytes(v).len() <= u32::MAX + 4,
{
    broadcast use crate::frame::group_wire_lemmas;

    let w = PlaceInQueueReply::spec_bytes(v);
    let body = ser_str(v.0) + ser_str(v.1);
    assert(w =~= ser_peer_header((4 + body.len()) as u32, PeerMessageCode::PlaceInQueueReply) + body);
    lemma_framed(w, rest, PeerMessageCode::PlaceInQueueReply, body);
    lemma_two_strings_body(w + rest, 8, v.0, v.1);
}

proof fn lemma_queue_failed_roundtrip(v: (Seq<char>, Seq<char>), rest: Seq<u8>)
    requires
        str_bytes(v.0) <= u32::MAX && str_bytes(v.1) <= u32::MAX && QueueFailed::spec_len(v) <= u32::MAX,
    ensures
        spec_check(QueueFailed::spec_bytes(v) + rest, 0) == Ok::<(PeerMessageHeader, int), SlskError>(
            (
                PeerMessageHeader {
                    code: PeerMessageCode::QueueFailed,
                    message_len: (QueueFailed::spec_bytes(v).len() - 8) as usize,
                },
                8,
            ),
        ),
        QueueFailed::spec_parse(QueueFailed::spec_bytes(v) + rest, 8) == Ok::<((Seq<char>, Seq<char>), int), SlskError>(
            (v, QueueFailed::spec_bytes(v).len() as int),
        ),
        8 <= QueueFailed::spec_bytes(v).len() <= u32::MAX + 4,
{
    broadcast use crate::frame::group_wire_lemmas;

    let w = QueueFailed::spec_bytes(v);
    let body = ser_str(v.0) + ser_str(v.1);
    assert(w =~= ser_peer_header((4 + body.len()) as u32, PeerMessageCode::QueueFailed) + body);
    lemma_framed(w, rest, PeerMessageCode::QueueFailed, body);
    lemma_two_strings_body(w + rest, 8, v.0, v.1);
}

proof fn lemma_upload_failed_roundtrip(v: Seq<char>, rest: Seq<u8>)
    requires
        str_bytes(v) + 8 <= u32::MAX,
    ensures
        spec_check(UploadFailed::spec_bytes(v) + rest, 0) == Ok::<(PeerMessageHeader, int), SlskError>(
            (
                PeerMessageHeader {
                    code: PeerMessageCode::UploadFailed,
                    message_len: (UploadFailed::spec_bytes(v).len() - 8) as usize,
                },
                8,
            ),
        ),
        UploadFailed::spec_parse(UploadFailed::spec_bytes(v) + rest, 8) == Ok::<(Seq<char>, int), SlskError>(
            (v, UploadFailed::spec_bytes(v).len() as int),
        ),
        8 <= UploadFailed::spec_bytes(v).len() <= u32::MAX + 4,
{
    broadcast use crate::frame::group_wire_lemmas;

    let w = UploadFailed::spec_bytes(v);
    let body = ser_str(v);
    assert(w =~= ser_peer_header((4 + body.len()) as u32, PeerMessageCode::UploadFailed) + body);
    lemma_framed(w, rest, PeerMessageCode::UploadFailed, body);
    lemma_str_at(w + rest, 8, v);
}

/// What a peer writes is what the other peer reads: for a request that reads
/// back, `check` finds the whole message with its code, and the body parses
/// to the matching response, up to the end of the message, whatever follows.
#[verifier::spinoff_prover]
#[verifier::rlimit(60)]
pub proof fn lemma_peer_request_roundtrip(r: PeerRequest, rest: Seq<u8>)
    requires
        r.spec_fits(),
        request_roundtrips(&r),
    ensures
        ({
            let w = r.spec_bytes();
            let s = w + rest;
            &&& spec_check(s, 0) == Ok::<(PeerMessageHeader, int), SlskError>(
                (
                    PeerMessageHeader { code: request_code(&r), message_len: (w.len() - 8) as usize },
                    8,
                ),
            )
            &&& PeerResponse::spec_parse(s, 8, request_code(&r)) == Ok::<
                (PeerResponseView, int),
                SlskError,
            >((response_view(&r), w.len() as int))
            &&& 8 <= w.len() <= u32::MAX + 4
        }),
{
    let w = r.spec_bytes();
    match r {
        PeerRequest::SharesRequest => {
            assert(w =~= ser_peer_header(4, PeerMessageCode::SharesRequest) + Seq::<u8>::empty());
            lemma_framed(w, rest, PeerMessageCode::SharesRequest, Seq::empty());
            crate::frame::lemma_le32(4);
            assert(w.len() == 8);
        },
        PeerRequest::UserInfoRequest => {
            assert(w =~= ser_peer_header(4, PeerMessageCode::UserInfoRequest) + Seq::<u8>::empty());
            lemma_framed(w, rest, PeerMessageCode::UserInfoRequest, Seq::empty());
            crate::frame::lemma_le32(4);
            crate::frame::lemma_le32(15);
            assert(w.len() == 8);
        },
        PeerRequest::UserInfoReply(info) => lemma_user_info_reply_roundtrip(info@, rest),
        PeerRequest::TransferRequest(t) => lemma_transfer_request_roundtrip(t@, rest),
        PeerRequest::TransferReply(t) => lemma_transfer_reply_roundtrip(t@, rest),
        PeerRequest::PlaceInQueueReply(x) => lemma_place_in_queue_reply_roundtrip(x@, rest),
        PeerRequest::QueueFailed(x) => lemma_queue_failed_roundtrip(x@, rest),
        PeerRequest::UploadFailed(x) => lemma_upload_failed_roundtrip(x@, rest),
        _ => {},
    }
}

/// The variant that a peer message with code `code` reads as: the message
/// that the code names; a queue upload and a place in queue request read as
/// a user information request, and a search request and unknown codes as
/// `Unknown`.
pub open spec fn peer_variant_for_code(code: PeerMessageCode, v: PeerResponseView) -> bool {
    match code {
        PeerMessageCode::SharesRequest => v is SharesRequest,
        PeerMessageCode::SharesReply => v is SharesReply,
        PeerMessageCode::SearchRequest => v is Unknown,
        PeerMessageCode::SearchReply => v is SearchReply,
        PeerMessageCode::UserInfoRequest => v is UserInfoRequest,
        PeerMessageCode::UserInfoReply => v is UserInfoReply,
        PeerMessageCode::FolderContentsRequest => v is FolderContentsRequest,
        PeerMessageCode::FolderContentsReply => v is FolderContentsReply,
        PeerMessageCode::TransferRequest => v is TransferRequest,
        PeerMessageCode::TransferReply => v is TransferReply,
        PeerMessageCode::UploadPlacehold => v is UploadPlaceholder,
        PeerMessageCode::QueueUpload => v is UserInfoRequest,
        PeerMessageCode::PlaceInQueueReply => v is PlaceInQueueReply,
        PeerMessageCode::UploadFailed => v is UploadFailed,
        PeerMessageCode::QueueFailed => v is QueueFailed,
        PeerMessageCode::PlaceInQueueRequest => v is UserInfoRequest,
        PeerMessageCode::UploadQueueNotification => v is UploadQueueNotification,
        PeerMessageCode::Unknown => v is Unknown,
    }
}

/// Reading a peer message gives the variant that its code stands for,
/// whatever the body holds.
pub proof fn lemma_peer_variant_follows_code(
    s: Seq<u8>,
    p: int,
    code: PeerMessageCode,
    v: PeerResponseView,
    q: int,
)
    requires
        PeerResponse::spec_parse(s, p, code) == Ok::<(PeerResponseView, int), SlskError>((v, q)),
    ensures
        peer_variant_for_code(code, v),
{
}

/// A shares reply that is written reads back as a shares reply: when the
/// compressed list fits the length field and the list fits the room that the
/// parser inflates into, `check` finds a message with the code `SharesReply`
/// and its body reads as `SharesReply` holding the same directories.
pub proof fn lemma_written_shares_reply_reads_back(
    v: Seq<crate::peers::messages::p2p::shared_directories::DirectoryView>,
    before: Seq<u8>,
    after: Seq<u8>,
    res: Result<(), SlskError>,
)
    requires
        crate::peers::messages::p2p::shared_directories::compressed_written(
            before,
            after,
            res,
            crate::peers::messages::p2p::shared_directories::spec_shares_payload(v),
            PeerMessageCode::SharesReply,
        ),
        crate::peers::messages::p2p::shared_directories::shares_roundtrip(v),
        crate::peers::messages::p2p::zlib::spec_zlib_compress(
            crate::peers::messages::p2p::shared_directories::spec_shares_payload(v),
        ).len() + 4 <= u32::MAX,
        crate::peers::messages::p2p::shared_directories::spec_shares_payload(v).len()
            < crate::peers::messages::p2p::shared_directories::SHARES_INFLATE_CAPACITY,
    ensures
        res is Ok,
        crate::peers::messages::p2p::spec_check(after, before.len() as int) matches Ok((h, q))
            && h.code == PeerMessageCode::SharesReply && q == before.len() + 8
            && PeerResponse::spec_parse(after, q, h.code) == Ok::<(PeerResponseView, int), SlskError>(
            (PeerResponseView::SharesReply(v), q),
        ),
{
    crate::peers::messages::p2p::shared_directories::lemma_written_shares_read_back(
        v,
        before,
        after,
        res,
    );
}

} // verus!
