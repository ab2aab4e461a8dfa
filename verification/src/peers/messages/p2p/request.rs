//! Peer messages that we send.
use crate::frame::{le32, str_bytes};
use crate::peers::messages::p2p::folder_content::FolderContentsRequest;
use crate::peers::messages::p2p::search::{spec_search_payload, SearchReply};
use crate::peers::messages::p2p::shared_directories::{
    compressed_written, spec_shares_payload, SharedDirectories,
};
use crate::peers::messages::p2p::transfer::{
    PlaceInQueueReply, PlaceInQueueRequest, QueueFailed, TransferReply, TransferRequest,
    UploadFailed,
};
use crate::peers::messages::p2p::user_info::UserInfo;
use crate::peers::messages::p2p::{
    ser_peer_header, ser_peer_str_msg, write_peer_header, write_str_msg, PeerMessageCode,
    PEER_MSG_HEADER_LEN,
};
use crate::SlskError;
use vstd::prelude::*;

verus! {

/// A message that we send to a peer.
#[derive(Debug)]
pub enum PeerRequest {
    SharesRequest,
    SharesReply(SharedDirectories),
    SearchReply(SearchReply),
    UserInfoRequest,
    UserInfoReply(UserInfo),
    FolderContentsRequest(FolderContentsRequest),
    FolderContentsReply(SharedDirectories),
    TransferRequest(TransferRequest),
    TransferReply(TransferReply),
    UploadPlaceholder,
    QueueUpload { filename: String },
    PlaceInQueueReply(PlaceInQueueReply),
    UploadFailed(UploadFailed),
    QueueFailed(QueueFailed),
    PlaceInQueueRequest(PlaceInQueueRequest),
    UploadQueueNotification,
    Unknown,
}

impl PeerRequest {
    pub open spec fn spec_kind(&self) -> Seq<char> {
        match self {
            PeerRequest::SharesRequest => "SharesRequest"@,
            PeerRequest::SharesReply(_) => "SharesReply"@,
            PeerRequest::SearchReply(_) => "SearchReply"@,
            PeerRequest::UserInfoRequest => "UserInfoRequest"@,
            PeerRequest::UserInfoReply(_) => "UserInfoReply"@,
            PeerRequest::FolderContentsRequest(_) => "FolderContentsRequest"@,
            PeerRequest::FolderContentsReply(_) => "FolderContentsReply"@,
            PeerRequest::TransferRequest(_) => "TransferRequest"@,
            PeerRequest::TransferReply(_) => "TransferReply"@,
            PeerRequest::UploadPlaceholder => "UploadPlaceholder"@,
            PeerRequest::QueueUpload { .. } => "QueueUpload"@,
            PeerRequest::PlaceInQueueReply(_) => "PlaceInQueueReply"@,
            PeerRequest::UploadFailed(_) => "UploadFailed"@,
            PeerRequest::QueueFailed(_) => "QueueFailed"@,
            PeerRequest::PlaceInQueueRequest(_) => "PlaceInQueueRequest"@,
            PeerRequest::UploadQueueNotification => "UploadQueueNotification"@,
            PeerRequest::Unknown => "Unknown"@,
        }
    }

    /// Name of the message kind, for logging.
    pub fn kind(&self) -> (name: &str)
        ensures
            name@ == self.spec_kind(),
    {
        match self {
            PeerRequest::SharesRequest => "SharesRequest",
            PeerRequest::SharesReply(_) => "SharesReply",
            PeerRequest::SearchReply(_) => "SearchReply",
            PeerRequest::UserInfoRequest => "UserInfoRequest",
            PeerRequest::UserInfoReply(_) => "UserInfoReply",
            PeerRequest::FolderContentsRequest(_) => "FolderContentsRequest",
            PeerRequest::FolderContentsReply(_) => "FolderContentsReply",
            PeerRequest::TransferRequest(_) => "TransferRequest",
            PeerRequest::TransferReply(_) => "TransferReply",
            PeerRequest::UploadPlaceholder => "UploadPlaceholder",
            PeerRequest::QueueUpload { .. } => "QueueUpload",
            PeerRequest::PlaceInQueueReply(_) => "PlaceInQueueReply",
            PeerRequest::UploadFailed(_) => "UploadFailed",
            PeerRequest::QueueFailed(_) => "QueueFailed",
            PeerRequest::PlaceInQueueRequest(_) => "PlaceInQueueRequest",
            PeerRequest::UploadQueueNotification => "UploadQueueNotification",
            PeerRequest::Unknown => "Unknown",
        }
    }

    /// Whether the lengths of the message fit their `u32` fields.
    pub open spec fn spec_fits(&self) -> bool {
        match self {
            PeerRequest::UserInfoReply(info) => UserInfo::spec_len(info@) <= u32::MAX,
            PeerRequest::FolderContentsRequest(r) => FolderContentsRequest::spec_len(r@)
                <= u32::MAX,
            PeerRequest::TransferRequest(r) => TransferRequest::spec_len(r@) <= u32::MAX,
            PeerRequest::TransferReply(r) => TransferReply::spec_len(r@) <= u32::MAX,
            PeerRequest::QueueUpload { filename } => str_bytes(filename@) + PEER_MSG_HEADER_LEN
                <= u32::MAX,
            PeerRequest::PlaceInQueueReply(r) => PlaceInQueueReply::spec_len(r@) <= u32::MAX,
            PeerRequest::UploadFailed(r) => str_bytes(r@) + PEER_MSG_HEADER_LEN <= u32::MAX,
            PeerRequest::QueueFailed(r) => QueueFailed::spec_len(r@) <= u32::MAX,
            PeerRequest::PlaceInQueueRequest(r) => str_bytes(r@) + PEER_MSG_HEADER_LEN
                <= u32::MAX,
            _ => true,
        }
    }

    /// The bytes written for a message without compressed body. Requests
    /// for shares and for user information are a bare header; an upload
    /// placeholder, an upload queue notification and an unknown message
    /// write nothing.
    pub open spec fn spec_bytes(&self) -> Seq<u8> {
        match self {
            PeerRequest::SharesRequest => ser_peer_header(4, PeerMessageCode::SharesRequest),
            PeerRequest::UserInfoRequest => ser_peer_header(4, PeerMessageCode::UserInfoRequest),
            PeerRequest::UserInfoReply(info) => UserInfo::spec_bytes(info@),
            PeerRequest::FolderContentsRequest(r) => FolderContentsRequest::spec_bytes(r@),
            PeerRequest::TransferRequest(r) => TransferRequest::spec_bytes(r@),
            PeerRequest::TransferReply(r) => TransferReply::spec_bytes(r@),
            PeerRequest::QueueUpload { filename } => ser_peer_str_msg(
                filename@,
                PeerMessageCode::QueueUpload,
            ),
            PeerRequest::PlaceInQueueReply(r) => PlaceInQueueReply::spec_bytes(r@),
            PeerRequest::UploadFailed(r) => UploadFailed::spec_bytes(r@),
            PeerRequest::QueueFailed(r) => QueueFailed::spec_bytes(r@),
            PeerRequest::PlaceInQueueRequest(r) => PlaceInQueueRequest::spec_bytes(r@),
            _ => Seq::empty(),
        }
    }

    /// Writes the message. Shares replies, folder contents replies (sent with
    /// the code `SharesReply`) and search replies are compressed, and fail,
    /// writing nothing, only when the compressed body is too long for its
    /// length field; every other message is written whole.
    pub fn write_to_buf(&self, buffer: &mut Vec<u8>) -> (res: Result<(), SlskError>)
        requires
            self.spec_fits(),
        ensures
            match self {
                PeerRequest::SharesReply(dirs) => compressed_written(
                    old(buffer)@,
                    final(buffer)@,
                    res,
                    spec_shares_payload(dirs@),
                    PeerMessageCode::SharesReply,
                ),
                PeerRequest::FolderContentsReply(dirs) => compressed_written(
                    old(buffer)@,
                    final(buffer)@,
                    res,
                    spec_shares_payload(dirs@),
                    PeerMessageCode::SharesReply,
                ),
                PeerRequest::SearchReply(reply) => compressed_written(
                    old(buffer)@,
                    final(buffer)@,
                    res,
                    spec_search_payload(reply@),
                    PeerMessageCode::SearchReply,
                ),
                _ => res is Ok && final(buffer)@ == old(buffer)@ + self.spec_bytes(),
            },
    {
        match self {
            PeerRequest::SharesRequest => {
                write_peer_header(buffer, 4, PeerMessageCode::SharesRequest);
            },
            PeerRequest::SharesReply(shared_dirs) => {
                return shared_dirs.write_to_buf(buffer);
            },
            PeerRequest::SearchReply(search_reply) => {
                return search_reply.write_to_buf(buffer);
            },
            PeerRequest::UserInfoRequest => {
                write_peer_header(buffer, 4, PeerMessageCode::UserInfoRequest);
            },
            PeerRequest::UserInfoReply(user_info) => user_info.write_to_buf(buffer),
            PeerRequest::FolderContentsRequest(request) => request.write_to_buf(buffer),
            PeerRequest::FolderContentsReply(reply) => {
                return reply.write_to_buf(buffer);
            },
            PeerRequest::TransferRequest(request) => request.write_to_buf(buffer),
            PeerRequest::TransferReply(reply) => reply.write_to_buf(buffer),
            PeerRequest::UploadPlaceholder => {
                assert(final(buffer)@ =~= old(buffer)@ + self.spec_bytes());
            },
            PeerRequest::QueueUpload { filename } => {
                write_str_msg(filename.as_str(), PeerMessageCode::QueueUpload, buffer);
            },
            PeerRequest::PlaceInQueueReply(reply) => reply.write_to_buf(buffer),
            PeerRequest::UploadFailed(failed) => failed.write_to_buf(buffer),
            PeerRequest::QueueFailed(failed) => failed.write_to_buf(buffer),
            PeerRequest::PlaceInQueueRequest(request) => request.write_to_buf(buffer),
            PeerRequest::UploadQueueNotification => {
                assert(final(buffer)@ =~= old(buffer)@ + self.spec_bytes());
            },
            PeerRequest::Unknown => {
                assert(final(buffer)@ =~= old(buffer)@ + self.spec_bytes());
            },
        }
        Ok(())
    }
}

/// Each peer message that is written whole carries, after its length
/// field, the protocol's number of its code: 4 shares request, 15 user info
/// request, 16 user info reply, 36 folder contents request, 40 transfer
/// request, 41 transfer reply, 43 queue upload, 44 place in queue reply, 46
/// upload failed, 50 queue failed, 51 place in queue request.
#[verifier::spinoff_prover]
pub proof fn lemma_peer_request_code_numbers(r: &PeerRequest)
    ensures
        match r {
            PeerRequest::SharesRequest => r.spec_bytes().subrange(4, 8) == le32(4),
            PeerRequest::UserInfoRequest => r.spec_bytes().subrange(4, 8) == le32(15),
            PeerRequest::UserInfoReply(_) => r.spec_bytes().subrange(4, 8) == le32(16),
            PeerRequest::FolderContentsRequest(_) => r.spec_bytes().subrange(4, 8) == le32(36),
            PeerRequest::TransferRequest(_) => r.spec_bytes().subrange(4, 8) == le32(40),
            PeerRequest::TransferReply(_) => r.spec_bytes().subrange(4, 8) == le32(41),
            PeerRequest::QueueUpload { .. } => r.spec_bytes().subrange(4, 8) == le32(43),
            PeerRequest::PlaceInQueueReply(_) => r.spec_bytes().subrange(4, 8) == le32(44),
            PeerRequest::UploadFailed(_) => r.spec_bytes().subrange(4, 8) == le32(46),
            PeerRequest::QueueFailed(_) => r.spec_bytes().subrange(4, 8) == le32(50),
            PeerRequest::PlaceInQueueRequest(_) => r.spec_bytes().subrange(4, 8) == le32(51),
            _ => true,
        },
{
    match r {
        PeerRequest::SharesRequest => {
            assert(r.spec_bytes().subrange(4, 8) =~= le32(4)) by {
                broadcast use crate::frame::group_wire_lemmas;

            }
        },
        PeerRequest::UserInfoRequest => {
            assert(r.spec_bytes().subrange(4, 8) =~= le32(15)) by {
                broadcast use crate::frame::group_wire_lemmas;

            }
        },
        PeerRequest::UserInfoReply(_) => {
            assert(r.spec_bytes().subrange(4, 8) =~= le32(16)) by {
                broadcast use crate::frame::group_wire_lemmas;

            }
        },
        PeerRequest::FolderContentsRequest(_) => {
            assert(r.spec_bytes().subrange(4, 8) =~= le32(36)) by {
                broadcast use crate::frame::group_wire_lemmas;

            }
        },
        PeerRequest::TransferRequest(_) => {
            assert(r.spec_bytes().subrange(4, 8) =~= le32(40)) by {
                broadcast use crate::frame::group_wire_lemmas;

            }
        },
        PeerRequest::TransferReply(_) => {
            assert(r.spec_bytes().subrange(4, 8) =~= le32(41)) by {
                broadcast use crate::frame::group_wire_lemmas;

            }
        },
        PeerRequest::QueueUpload { .. } => {
            assert(r.spec_bytes().subrange(4, 8) =~= le32(43)) by {
                broadcast use crate::frame::group_wire_lemmas;

            }
        },
        PeerRequest::PlaceInQueueReply(_) => {
            assert(r.spec_bytes().subrange(4, 8) =~= le32(44)) by {
                broadcast use crate::frame::group_wire_lemmas;

            }
        },
        PeerRequest::UploadFailed(_) => {
            assert(r.spec_bytes().subrange(4, 8) =~= le32(46)) by {
                broadcast use crate::frame::group_wire_lemmas;

            }
        },
        PeerRequest::QueueFailed(_) => {
            assert(r.spec_bytes().subrange(4, 8) =~= le32(50)) by {
                broadcast use crate::frame::group_wire_lemmas;

            }
        },
        PeerRequest::PlaceInQueueRequest(_) => {
            assert(r.spec_bytes().subrange(4, 8) =~= le32(51)) by {
                broadcast use crate::frame::group_wire_lemmas;

            }
        },
        _ => {},
    }
}

} // verus!
