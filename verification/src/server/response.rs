//! Messages that the server sends us.
use crate::frame::{item, read_list, sp_bool, sp_list, sp_str, sp_u32, views, ParseBytes, Read, Reader};
use crate::server::chat::{ChatMessage, PrivateMessage};
use crate::server::distributed::EmbeddedDistributedMessage;
use crate::server::interest::{Interests, ItemRecommendations, Recommendations};
use crate::server::login::LoginResponse;
use crate::server::peer::{Peer, PeerAddress, PeerConnectionRequest, PeerConnectionTicket};
use crate::server::room::{
    RoomJoined, RoomList, RoomTicker, RoomTickers, RoomUsers, UserJoinedRoom, UserRoomEvent,
};
use crate::server::search::SearchQuery;
use crate::server::user::{
    ItemSimilarUsers, UserAdded, UserList, UserStats, UserStatus, UsersWithStatus,
};
use crate::server::{Header, MessageCode, HEADER_LEN};
use crate::{ProtocolHeader, SlskError};
use vstd::prelude::*;

verus! {

/// All incoming messages from the Soulseek server.
#[derive(Debug)]
pub enum ServerResponse {
    LoginResponse(LoginResponse),
    ListenPort(u32),
    PeerAddress(PeerAddress),
    UserAdded(UserAdded),
    UserRemoved(UserRoomEvent),
    UserStatus(UserStatus),
    ChatMessage(ChatMessage),
    RoomJoined(RoomJoined),
    RoomLeft(String),
    PrivateMessage(PrivateMessage),
    UserJoinedRoom(UserJoinedRoom),
    UserLeftRoom(UserRoomEvent),
    PeerConnectionRequest(PeerConnectionRequest),
    SearchReply(SearchQuery),
    UserStats(UserStats),
    KickedFromServer,
    Recommendations(Recommendations),
    GlobalRecommendations(Recommendations),
    UserInterests(Interests),
    RoomList(RoomList),
    AdminMessage(String),
    PrivilegedUsers(UserList),
    ParentMinSpeed(u32),
    ParentSpeedRatio(u32),
    TimeLeft(u32),
    EmbeddedMessage(EmbeddedDistributedMessage),
    PossibleParents(Vec<Peer>),
    WishlistInterval(u32),
    SimilarUsers(UsersWithStatus),
    ItemRecommendations(ItemRecommendations),
    ItemSimilarUsers(ItemSimilarUsers),
    RoomTickers(RoomTickers),
    RoomTickersAdded(RoomTicker),
    RoomTickersRemoved(UserRoomEvent),
    PrivateRoomUsers(RoomUsers),
    PrivateRoomUserAdded(UserRoomEvent),
    PrivateRoomUserRemoved(UserRoomEvent),
    PrivateRoomUnknown(String),
    PrivateRoomAdded(String),
    PrivateRoomRemoved(String),
    PrivateRoomInvitationEnabled(bool),
    NewPassword(String),
    RoomOperatorAdd(UserRoomEvent),
    RoomOperatorRemove(String),
    RoomOperatorAdded(String),
    RoomOperatorRemoved(String),
    RoomOperators(RoomUsers),
    PublicChatMessage(ChatMessage),
    CantConnectToPeer(PeerConnectionTicket),
    CantCreateRoom(String),
    /// A message with a code that is not parsed: its length, its code, and
    /// the bytes that follow the header.
    Unknown(u32, u32, Vec<u8>),
}

/// Checking the buffer for a whole message: `Incomplete` while the header or
/// the body announced by the header is not all there, the header otherwise.
pub open spec fn spec_check(s: Seq<u8>, p: int) -> Read<Header> {
    if s.len() - p < HEADER_LEN {
        Err(SlskError::Incomplete)
    } else {
        match Header::spec_read(s, p) {
            Err(e) => Err(e),
            Ok((h, q)) => if s.len() - q < h.message_len {
                Err(SlskError::Incomplete)
            } else {
                Ok((h, q))
            },
        }
    }
}

/// What parsing the body of a message with header `h`, at position `p` of
/// `s`, gives: the message that the header's code selects, with its body read
/// as that message's wire format, or the error of that reading. Codes that
/// the client does not handle give `Unknown` with every byte from `p` on.
pub open spec fn spec_response(h: Header, s: Seq<u8>, p: int, res: Result<ServerResponse, SlskError>) -> bool {
    match h.code {
        MessageCode::Login => match LoginResponse::spec_parse(s, p) {
            Ok((v, _)) => res matches Ok(ServerResponse::LoginResponse(x)) && x@ == v,
            Err(e) => res == Err::<ServerResponse, SlskError>(e),
        },
        MessageCode::SetListenPort => match sp_u32(s, p) {
            Ok((v, _)) => res matches Ok(ServerResponse::ListenPort(x)) && x@ == v,
            Err(e) => res == Err::<ServerResponse, SlskError>(e),
        },
        MessageCode::GetPeerAddress => match PeerAddress::spec_parse(s, p) {
            Ok((v, _)) => res matches Ok(ServerResponse::PeerAddress(x)) && x@ == v,
            Err(e) => res == Err::<ServerResponse, SlskError>(e),
        },
        MessageCode::AddUser => match UserAdded::spec_parse(s, p) {
            Ok((v, _)) => res matches Ok(ServerResponse::UserAdded(x)) && x@ == v,
            Err(e) => res == Err::<ServerResponse, SlskError>(e),
        },
        MessageCode::RemoveUser => match UserRoomEvent::spec_parse(s, p) {
            Ok((v, _)) => res matches Ok(ServerResponse::UserRemoved(x)) && x@ == v,
            Err(e) => res == Err::<ServerResponse, SlskError>(e),
        },
        MessageCode::GetUserStatus => match UserStatus::spec_parse(s, p) {
            Ok((v, _)) => res matches Ok(ServerResponse::UserStatus(x)) && x@ == v,
            Err(e) => res == Err::<ServerResponse, SlskError>(e),
        },
        MessageCode::SayInChatRoom => match ChatMessage::spec_parse(s, p) {
            Ok((v, _)) => res matches Ok(ServerResponse::ChatMessage(x)) && x@ == v,
            Err(e) => res == Err::<ServerResponse, SlskError>(e),
        },
        MessageCode::JoinRoom => match RoomJoined::spec_parse(s, p, h.message_len as int) {
            Ok((v, _)) => res matches Ok(ServerResponse::RoomJoined(x)) && x@ == v,
            Err(e) => res == Err::<ServerResponse, SlskError>(e),
        },
        MessageCode::LeaveRoom => match sp_str(s, p) {
            Ok((v, _)) => res matches Ok(ServerResponse::RoomLeft(x)) && x@ == v,
            Err(e) => res == Err::<ServerResponse, SlskError>(e),
        },
        MessageCode::PrivateMessages => match PrivateMessage::spec_parse(s, p) {
            Ok((v, _)) => res matches Ok(ServerResponse::PrivateMessage(x)) && x@ == v,
            Err(e) => res == Err::<ServerResponse, SlskError>(e),
        },
        MessageCode::UserJoinedRoom => match UserJoinedRoom::spec_parse(s, p) {
            Ok((v, _)) => res matches Ok(ServerResponse::UserJoinedRoom(x)) && x@ == v,
            Err(e) => res == Err::<ServerResponse, SlskError>(e),
        },
        MessageCode::UserLeftRoom => match UserRoomEvent::spec_parse(s, p) {
            Ok((v, _)) => res matches Ok(ServerResponse::UserLeftRoom(x)) && x@ == v,
            Err(e) => res == Err::<ServerResponse, SlskError>(e),
        },
        MessageCode::ConnectToPeer => match PeerConnectionRequest::spec_parse(s, p) {
            Ok((v, _)) => res matches Ok(ServerResponse::PeerConnectionRequest(x)) && x@ == v,
            Err(e) => res == Err::<ServerResponse, SlskError>(e),
        },
        MessageCode::FileSearch => match SearchQuery::spec_parse(s, p) {
            Ok((v, _)) => res matches Ok(ServerResponse::SearchReply(x)) && x@ == v,
            Err(e) => res == Err::<ServerResponse, SlskError>(e),
        },
        MessageCode::GetUserStats => match UserStats::spec_parse(s, p) {
            Ok((v, _)) => res matches Ok(ServerResponse::UserStats(x)) && x@ == v,
            Err(e) => res == Err::<ServerResponse, SlskError>(e),
        },
        MessageCode::KickedFromServer => res matches Ok(ServerResponse::KickedFromServer),
        MessageCode::GetRecommendations => match Recommendations::spec_parse(s, p) {
            Ok((v, _)) => res matches Ok(ServerResponse::Recommendations(x)) && x@ == v,
            Err(e) => res == Err::<ServerResponse, SlskError>(e),
        },
        MessageCode::GetGlobalRecommendations => match Recommendations::spec_parse(s, p) {
            Ok((v, _)) => res matches Ok(ServerResponse::GlobalRecommendations(x)) && x@ == v,
            Err(e) => res == Err::<ServerResponse, SlskError>(e),
        },
        MessageCode::GetUserInterests => match Interests::spec_parse(s, p) {
            Ok((v, _)) => res matches Ok(ServerResponse::UserInterests(x)) && x@ == v,
            Err(e) => res == Err::<ServerResponse, SlskError>(e),
        },
        MessageCode::RoomList => match RoomList::spec_parse(s, p) {
            Ok((v, _)) => res matches Ok(ServerResponse::RoomList(x)) && x@ == v,
            Err(e) => res == Err::<ServerResponse, SlskError>(e),
        },
        MessageCode::GlobalAdminMessage => match sp_str(s, p) {
            Ok((v, _)) => res matches Ok(ServerResponse::AdminMessage(x)) && x@ == v,
            Err(e) => res == Err::<ServerResponse, SlskError>(e),
        },
        MessageCode::PrivilegedUsers => match UserList::spec_parse(s, p) {
            Ok((v, _)) => res matches Ok(ServerResponse::PrivilegedUsers(x)) && x@ == v,
            Err(e) => res == Err::<ServerResponse, SlskError>(e),
        },
        MessageCode::ParentMinSpeed => match sp_u32(s, p) {
            Ok((v, _)) => res matches Ok(ServerResponse::ParentMinSpeed(x)) && x@ == v,
            Err(e) => res == Err::<ServerResponse, SlskError>(e),
        },
        MessageCode::ParentSpeedRatio => match sp_u32(s, p) {
            Ok((v, _)) => res matches Ok(ServerResponse::ParentSpeedRatio(x)) && x@ == v,
            Err(e) => res == Err::<ServerResponse, SlskError>(e),
        },
        MessageCode::CheckPrivileges => match sp_u32(s, p) {
            Ok((v, _)) => res matches Ok(ServerResponse::TimeLeft(x)) && x@ == v,
            Err(e) => res == Err::<ServerResponse, SlskError>(e),
        },
        MessageCode::EmbeddedMessage => match EmbeddedDistributedMessage::spec_parse(s, p) {
            Ok((v, _)) => res matches Ok(ServerResponse::EmbeddedMessage(x)) && x@ == v,
            Err(e) => res == Err::<ServerResponse, SlskError>(e),
        },
        MessageCode::PossibleParents => match sp_list(s, p, item::<Peer>()) {
            Ok((v, _)) => res matches Ok(ServerResponse::PossibleParents(x)) && views(x@) == v,
            Err(e) => res == Err::<ServerResponse, SlskError>(e),
        },
        MessageCode::WishlistInterval => match sp_u32(s, p) {
            Ok((v, _)) => res matches Ok(ServerResponse::WishlistInterval(x)) && x@ == v,
            Err(e) => res == Err::<ServerResponse, SlskError>(e),
        },
        MessageCode::GetSimilarUsers => match UsersWithStatus::spec_parse(s, p) {
            Ok((v, _)) => res matches Ok(ServerResponse::SimilarUsers(x)) && x@ == v,
            Err(e) => res == Err::<ServerResponse, SlskError>(e),
        },
        MessageCode::GetItemRecommendations => match ItemRecommendations::spec_parse(s, p) {
            Ok((v, _)) => res matches Ok(ServerResponse::ItemRecommendations(x)) && x@ == v,
            Err(e) => res == Err::<ServerResponse, SlskError>(e),
        },
        MessageCode::GetItemSimilarUsers => match ItemSimilarUsers::spec_parse(s, p) {
            Ok((v, _)) => res matches Ok(ServerResponse::ItemSimilarUsers(x)) && x@ == v,
            Err(e) => res == Err::<ServerResponse, SlskError>(e),
        },
        MessageCode::RoomTickers => match RoomTickers::spec_parse(s, p) {
            Ok((v, _)) => res matches Ok(ServerResponse::RoomTickers(x)) && x@ == v,
            Err(e) => res == Err::<ServerResponse, SlskError>(e),
        },
        MessageCode::RoomTickerAdd => match RoomTicker::spec_parse(s, p) {
            Ok((v, _)) => res matches Ok(ServerResponse::RoomTickersAdded(x)) && x@ == v,
            Err(e) => res == Err::<ServerResponse, SlskError>(e),
        },
        MessageCode::RoomTickerRemove => match UserRoomEvent::spec_parse(s, p) {
            Ok((v, _)) => res matches Ok(ServerResponse::RoomTickersRemoved(x)) && x@ == v,
            Err(e) => res == Err::<ServerResponse, SlskError>(e),
        },
        MessageCode::PrivateRoomUsers => match RoomUsers::spec_parse(s, p) {
            Ok((v, _)) => res matches Ok(ServerResponse::PrivateRoomUsers(x)) && x@ == v,
            Err(e) => res == Err::<ServerResponse, SlskError>(e),
        },
        MessageCode::PrivateRoomAddUser => match UserRoomEvent::spec_parse(s, p) {
            Ok((v, _)) => res matches Ok(ServerResponse::PrivateRoomUserAdded(x)) && x@ == v,
            Err(e) => res == Err::<ServerResponse, SlskError>(e),
        },
        MessageCode::PrivateRoomRemoveUser => match UserRoomEvent::spec_parse(s, p) {
            Ok((v, _)) => res matches Ok(ServerResponse::PrivateRoomUserRemoved(x)) && x@ == v,
            Err(e) => res == Err::<ServerResponse, SlskError>(e),
        },
        MessageCode::PrivateRoomUnknown => match sp_str(s, p) {
            Ok((v, _)) => res matches Ok(ServerResponse::PrivateRoomUnknown(x)) && x@ == v,
            Err(e) => res == Err::<ServerResponse, SlskError>(e),
        },
        MessageCode::PrivateRoomAdded => match sp_str(s, p) {
            Ok((v, _)) => res matches Ok(ServerResponse::PrivateRoomAdded(x)) && x@ == v,
            Err(e) => res == Err::<ServerResponse, SlskError>(e),
        },
        MessageCode::PrivateRoomRemoved => match sp_str(s, p) {
            Ok((v, _)) => res matches Ok(ServerResponse::PrivateRoomRemoved(x)) && x@ == v,
            Err(e) => res == Err::<ServerResponse, SlskError>(e),
        },
        MessageCode::PrivateRoomToggle => match sp_bool(s, p) {
            Ok((v, _)) => res matches Ok(ServerResponse::PrivateRoomInvitationEnabled(x)) && x@ == v,
            Err(e) => res == Err::<ServerResponse, SlskError>(e),
        },
        MessageCode::NewPassword => match sp_str(s, p) {
            Ok((v, _)) => res matches Ok(ServerResponse::NewPassword(x)) && x@ == v,
            Err(e) => res == Err::<ServerResponse, SlskError>(e),
        },
        MessageCode::PrivateRoomAddOperator => match UserRoomEvent::spec_parse(s, p) {
            Ok((v, _)) => res matches Ok(ServerResponse::RoomOperatorAdd(x)) && x@ == v,
            Err(e) => res == Err::<ServerResponse, SlskError>(e),
        },
        MessageCode::PrivateRoomRemoveOperator => match sp_str(s, p) {
            Ok((v, _)) => res matches Ok(ServerResponse::RoomOperatorRemove(x)) && x@ == v,
            Err(e) => res == Err::<ServerResponse, SlskError>(e),
        },
        MessageCode::PrivateRoomOperatorRemoved => match sp_str(s, p) {
            Ok((v, _)) => res matches Ok(ServerResponse::RoomOperatorAdded(x)) && x@ == v,
            Err(e) => res == Err::<ServerResponse, SlskError>(e),
        },
        MessageCode::PrivateRoomOperatorAdded => match sp_str(s, p) {
            Ok((v, _)) => res matches Ok(ServerResponse::RoomOperatorRemoved(x)) && x@ == v,
            Err(e) => res == Err::<ServerResponse, SlskError>(e),
        },
        MessageCode::RoomOperators => match RoomUsers::spec_parse(s, p) {
            Ok((v, _)) => res matches Ok(ServerResponse::RoomOperators(x)) && x@ == v,
            Err(e) => res == Err::<ServerResponse, SlskError>(e),
        },
        MessageCode::PublicChatMessage => match ChatMessage::spec_parse(s, p) {
            Ok((v, _)) => res matches Ok(ServerResponse::PublicChatMessage(x)) && x@ == v,
            Err(e) => res == Err::<ServerResponse, SlskError>(e),
        },
        MessageCode::CantConnectToPeer => match PeerConnectionTicket::spec_parse(s, p) {
            Ok((v, _)) => res matches Ok(ServerResponse::CantConnectToPeer(x)) && x@ == v,
            Err(e) => res == Err::<ServerResponse, SlskError>(e),
        },
        MessageCode::CantCreateRoom => match sp_str(s, p) {
            Ok((v, _)) => res matches Ok(ServerResponse::CantCreateRoom(x)) && x@ == v,
            Err(e) => res == Err::<ServerResponse, SlskError>(e),
        },
        MessageCode::AcknowledgePrivateMessage | MessageCode::SetOnlineStatus | MessageCode::SharedFoldersAndFiles | MessageCode::UserSearch | MessageCode::InterestAdd | MessageCode::InterestRemove | MessageCode::AdminCommand | MessageCode::ExactFileSearch | MessageCode::HaveNoParents | MessageCode::ParentsIp | MessageCode::AcceptChildren | MessageCode::WishlistSearch | MessageCode::SetRoomTicker | MessageCode::HatedInterestAdd | MessageCode::HatedInterestRemove | MessageCode::RoomSearch | MessageCode::SendUploadSpeed | MessageCode::GivePrivileges | MessageCode::BranchLevel | MessageCode::BranchRoot | MessageCode::ChildDepth | MessageCode::PrivateRoomDropMembership | MessageCode::PrivateRoomDropOwnership | MessageCode::MessageUsers | MessageCode::AskPublicChat | MessageCode::StopPublicChat | MessageCode::Unknown => res matches Ok(ServerResponse::Unknown(len, code, bytes)) && len
            == h.message_len as u32 && code == h.code.spec_code() && bytes@ == s.subrange(
            p,
            s.len() as int,
        ),
    }
}


/// Where the reader stands after a successful `parse` of the body of a
/// message with header `h` that starts at `p`: after the fields that the
/// message's wire format reads; at `p` for a message without fields and for
/// `Unknown`, whose bytes are copied without moving.
pub open spec fn spec_response_end(h: Header, s: Seq<u8>, p: int) -> int {
    match h.code {
        MessageCode::Login => match LoginResponse::spec_parse(s, p) {
            Ok((_, q)) => q,
            Err(_) => p,
        },
        MessageCode::SetListenPort => match sp_u32(s, p) {
            Ok((_, q)) => q,
            Err(_) => p,
        },
        MessageCode::GetPeerAddress => match PeerAddress::spec_parse(s, p) {
            Ok((_, q)) => q,
            Err(_) => p,
        },
        MessageCode::AddUser => match UserAdded::spec_parse(s, p) {
            Ok((_, q)) => q,
            Err(_) => p,
        },
        MessageCode::RemoveUser => match UserRoomEvent::spec_parse(s, p) {
            Ok((_, q)) => q,
            Err(_) => p,
        },
        MessageCode::GetUserStatus => match UserStatus::spec_parse(s, p) {
            Ok((_, q)) => q,
            Err(_) => p,
        },
        MessageCode::SayInChatRoom => match ChatMessage::spec_parse(s, p) {
            Ok((_, q)) => q,
            Err(_) => p,
        },
        MessageCode::JoinRoom => match RoomJoined::spec_parse(s, p, h.message_len as int) {
            Ok((_, q)) => q,
            Err(_) => p,
        },
        MessageCode::LeaveRoom => match sp_str(s, p) {
            Ok((_, q)) => q,
            Err(_) => p,
        },
        MessageCode::PrivateMessages => match PrivateMessage::spec_parse(s, p) {
            Ok((_, q)) => q,
            Err(_) => p,
        },
        MessageCode::UserJoinedRoom => match UserJoinedRoom::spec_parse(s, p) {
            Ok((_, q)) => q,
            Err(_) => p,
        },
        MessageCode::UserLeftRoom => match UserRoomEvent::spec_parse(s, p) {
            Ok((_, q)) => q,
            Err(_) => p,
        },
        MessageCode::ConnectToPeer => match PeerConnectionRequest::spec_parse(s, p) {
            Ok((_, q)) => q,
            Err(_) => p,
        },
        MessageCode::FileSearch => match SearchQuery::spec_parse(s, p) {
            Ok((_, q)) => q,
            Err(_) => p,
        },
        MessageCode::GetUserStats => match UserStats::spec_parse(s, p) {
            Ok((_, q)) => q,
            Err(_) => p,
        },
        MessageCode::KickedFromServer => p,
        MessageCode::GetRecommendations => match Recommendations::spec_parse(s, p) {
            Ok((_, q)) => q,
            Err(_) => p,
        },
        MessageCode::GetGlobalRecommendations => match Recommendations::spec_parse(s, p) {
            Ok((_, q)) => q,
            Err(_) => p,
        },
        MessageCode::GetUserInterests => match Interests::spec_parse(s, p) {
            Ok((_, q)) => q,
            Err(_) => p,
        },
        MessageCode::RoomList => match RoomList::spec_parse(s, p) {
            Ok((_, q)) => q,
            Err(_) => p,
        },
        MessageCode::GlobalAdminMessage => match sp_str(s, p) {
            Ok((_, q)) => q,
            Err(_) => p,
        },
        MessageCode::PrivilegedUsers => match UserList::spec_parse(s, p) {
            Ok((_, q)) => q,
            Err(_) => p,
        },
        MessageCode::ParentMinSpeed => match sp_u32(s, p) {
            Ok((_, q)) => q,
            Err(_) => p,
        },
        MessageCode::ParentSpeedRatio => match sp_u32(s, p) {
            Ok((_, q)) => q,
            Err(_) => p,
        },
        MessageCode::CheckPrivileges => match sp_u32(s, p) {
            Ok((_, q)) => q,
            Err(_) => p,
        },
        MessageCode::EmbeddedMessage => match EmbeddedDistributedMessage::spec_parse(s, p) {
            Ok((_, q)) => q,
            Err(_) => p,
        },
        MessageCode::PossibleParents => match sp_list(s, p, item::<Peer>()) {
            Ok((_, q)) => q,
            Err(_) => p,
        },
        MessageCode::WishlistInterval => match sp_u32(s, p) {
            Ok((_, q)) => q,
            Err(_) => p,
        },
        MessageCode::GetSimilarUsers => match UsersWithStatus::spec_parse(s, p) {
            Ok((_, q)) => q,
            Err(_) => p,
        },
        MessageCode::GetItemRecommendations => match ItemRecommendations::spec_parse(s, p) {
            Ok((_, q)) => q,
            Err(_) => p,
        },
        MessageCode::GetItemSimilarUsers => match ItemSimilarUsers::spec_parse(s, p) {
            Ok((_, q)) => q,
            Err(_) => p,
        },
        MessageCode::RoomTickers => match RoomTickers::spec_parse(s, p) {
            Ok((_, q)) => q,
            Err(_) => p,
        },
        MessageCode::RoomTickerAdd => match RoomTicker::spec_parse(s, p) {
            Ok((_, q)) => q,
            Err(_) => p,
        },
        MessageCode::RoomTickerRemove => match UserRoomEvent::spec_parse(s, p) {
            Ok((_, q)) => q,
            Err(_) => p,
        },
        MessageCode::PrivateRoomUsers => match RoomUsers::spec_parse(s, p) {
            Ok((_, q)) => q,
            Err(_) => p,
        },
        MessageCode::PrivateRoomAddUser => match UserRoomEvent::spec_parse(s, p) {
            Ok((_, q)) => q,
            Err(_) => p,
        },
        MessageCode::PrivateRoomRemoveUser => match UserRoomEvent::spec_parse(s, p) {
            Ok((_, q)) => q,
            Err(_) => p,
        },
        MessageCode::PrivateRoomUnknown => match sp_str(s, p) {
            Ok((_, q)) => q,
            Err(_) => p,
        },
        MessageCode::PrivateRoomAdded => match sp_str(s, p) {
            Ok((_, q)) => q,
            Err(_) => p,
        },
        MessageCode::PrivateRoomRemoved => match sp_str(s, p) {
            Ok((_, q)) => q,
            Err(_) => p,
        },
        MessageCode::PrivateRoomToggle => match sp_bool(s, p) {
            Ok((_, q)) => q,
            Err(_) => p,
        },
        MessageCode::NewPassword => match sp_str(s, p) {
            Ok((_, q)) => q,
            Err(_) => p,
        },
        MessageCode::PrivateRoomAddOperator => match UserRoomEvent::spec_parse(s, p) {
            Ok((_, q)) => q,
            Err(_) => p,
        },
        MessageCode::PrivateRoomRemoveOperator => match sp_str(s, p) {
            Ok((_, q)) => q,
            Err(_) => p,
        },
        MessageCode::PrivateRoomOperatorRemoved => match sp_str(s, p) {
            Ok((_, q)) => q,
            Err(_) => p,
        },
        MessageCode::PrivateRoomOperatorAdded => match sp_str(s, p) {
            Ok((_, q)) => q,
            Err(_) => p,
        },
        MessageCode::RoomOperators => match RoomUsers::spec_parse(s, p) {
            Ok((_, q)) => q,
            Err(_) => p,
        },
        MessageCode::PublicChatMessage => match ChatMessage::spec_parse(s, p) {
            Ok((_, q)) => q,
            Err(_) => p,
        },
        MessageCode::CantConnectToPeer => match PeerConnectionTicket::spec_parse(s, p) {
            Ok((_, q)) => q,
            Err(_) => p,
        },
        MessageCode::CantCreateRoom => match sp_str(s, p) {
            Ok((_, q)) => q,
            Err(_) => p,
        },
        MessageCode::AcknowledgePrivateMessage | MessageCode::SetOnlineStatus | MessageCode::SharedFoldersAndFiles | MessageCode::UserSearch | MessageCode::InterestAdd | MessageCode::InterestRemove | MessageCode::AdminCommand | MessageCode::ExactFileSearch | MessageCode::HaveNoParents | MessageCode::ParentsIp | MessageCode::AcceptChildren | MessageCode::WishlistSearch | MessageCode::SetRoomTicker | MessageCode::HatedInterestAdd | MessageCode::HatedInterestRemove | MessageCode::RoomSearch | MessageCode::SendUploadSpeed | MessageCode::GivePrivileges | MessageCode::BranchLevel | MessageCode::BranchRoot | MessageCode::ChildDepth | MessageCode::PrivateRoomDropMembership | MessageCode::PrivateRoomDropOwnership | MessageCode::MessageUsers | MessageCode::AskPublicChat | MessageCode::StopPublicChat | MessageCode::Unknown => p,
    }
}

impl ServerResponse {
    /// Checks that the buffer holds a whole message and reads its header.
    pub fn check(src: &mut Reader) -> (res: Result<Header, SlskError>)
        ensures
            final(src).data() == old(src).data(),
            crate::frame::read_matches(res, spec_check(old(src).data(), old(src).position()), final(src).position()),
    {
        if src.remaining() < HEADER_LEN as usize {
            return Err(SlskError::Incomplete);
        }
        let header = Header::read(src)?;
        if src.remaining() < header.message_len() {
            Err(SlskError::Incomplete)
        } else {
            Ok(header)
        }
    }

    /// Parses the body of a message whose header has been read.
    pub fn parse(src: &mut Reader, header: &Header) -> (res: Result<ServerResponse, SlskError>)
        ensures
            final(src).data() == old(src).data(),
            spec_response(*header, old(src).data(), old(src).position(), res),
            res is Ok ==> final(src).position() == spec_response_end(
                *header,
                old(src).data(),
                old(src).position(),
            ),
    {
        match header.code {
            MessageCode::Login => {
                let x = LoginResponse::parse(src)?;
                Ok(ServerResponse::LoginResponse(x))
            },
            MessageCode::SetListenPort => {
                let x = src.read_u32()?;
                Ok(ServerResponse::ListenPort(x))
            },
            MessageCode::GetPeerAddress => {
                let x = PeerAddress::parse(src)?;
                Ok(ServerResponse::PeerAddress(x))
            },
            MessageCode::AddUser => {
                let x = UserAdded::parse(src)?;
                Ok(ServerResponse::UserAdded(x))
            },
            MessageCode::RemoveUser => {
                let x = UserRoomEvent::parse(src)?;
                Ok(ServerResponse::UserRemoved(x))
            },
            MessageCode::GetUserStatus => {
                let x = UserStatus::parse(src)?;
                Ok(ServerResponse::UserStatus(x))
            },
            MessageCode::SayInChatRoom => {
                let x = ChatMessage::parse(src)?;
                Ok(ServerResponse::ChatMessage(x))
            },
            MessageCode::JoinRoom => {
                let x = RoomJoined::parse(src, header.message_len)?;
                Ok(ServerResponse::RoomJoined(x))
            },
            MessageCode::LeaveRoom => {
                let x = src.read_string()?;
                Ok(ServerResponse::RoomLeft(x))
            },
            MessageCode::PrivateMessages => {
                let x = PrivateMessage::parse(src)?;
                Ok(ServerResponse::PrivateMessage(x))
            },
            MessageCode::UserJoinedRoom => {
                let x = UserJoinedRoom::parse(src)?;
                Ok(ServerResponse::UserJoinedRoom(x))
            },
            MessageCode::UserLeftRoom => {
                let x = UserRoomEvent::parse(src)?;
                Ok(ServerResponse::UserLeftRoom(x))
            },
            MessageCode::ConnectToPeer => {
                let x = PeerConnectionRequest::parse(src)?;
                Ok(ServerResponse::PeerConnectionRequest(x))
            },
            MessageCode::FileSearch => {
                let x = SearchQuery::parse(src)?;
                Ok(ServerResponse::SearchReply(x))
            },
            MessageCode::GetUserStats => {
                let x = UserStats::parse(src)?;
                Ok(ServerResponse::UserStats(x))
            },
            MessageCode::KickedFromServer => Ok(ServerResponse::KickedFromServer),
            MessageCode::GetRecommendations => {
                let x = Recommendations::parse(src)?;
                Ok(ServerResponse::Recommendations(x))
            },
            MessageCode::GetGlobalRecommendations => {
                let x = Recommendations::parse(src)?;
                Ok(ServerResponse::GlobalRecommendations(x))
            },
            MessageCode::GetUserInterests => {
                let x = Interests::parse(src)?;
                Ok(ServerResponse::UserInterests(x))
            },
            MessageCode::RoomList => {
                let x = RoomList::parse(src)?;
                Ok(ServerResponse::RoomList(x))
            },
            MessageCode::GlobalAdminMessage => {
                let x = src.read_string()?;
                Ok(ServerResponse::AdminMessage(x))
            },
            MessageCode::PrivilegedUsers => {
                let x = UserList::parse(src)?;
                Ok(ServerResponse::PrivilegedUsers(x))
            },
            MessageCode::ParentMinSpeed => {
                let x = src.read_u32()?;
                Ok(ServerResponse::ParentMinSpeed(x))
            },
            MessageCode::ParentSpeedRatio => {
                let x = src.read_u32()?;
                Ok(ServerResponse::ParentSpeedRatio(x))
            },
            MessageCode::CheckPrivileges => {
                let x = src.read_u32()?;
                Ok(ServerResponse::TimeLeft(x))
            },
            MessageCode::EmbeddedMessage => {
                let x = EmbeddedDistributedMessage::parse(src)?;
                Ok(ServerResponse::EmbeddedMessage(x))
            },
            MessageCode::PossibleParents => {
                let x = read_list::<Peer>(src)?;
                Ok(ServerResponse::PossibleParents(x))
            },
            MessageCode::WishlistInterval => {
                let x = src.read_u32()?;
                Ok(ServerResponse::WishlistInterval(x))
            },
            MessageCode::GetSimilarUsers => {
                let x = UsersWithStatus::parse(src)?;
                Ok(ServerResponse::SimilarUsers(x))
            },
            MessageCode::GetItemRecommendations => {
                let x = ItemRecommendations::parse(src)?;
                Ok(ServerResponse::ItemRecommendations(x))
            },
            MessageCode::GetItemSimilarUsers => {
                let x = ItemSimilarUsers::parse(src)?;
                Ok(ServerResponse::ItemSimilarUsers(x))
            },
            MessageCode::RoomTickers => {
                let x = RoomTickers::parse(src)?;
                Ok(ServerResponse::RoomTickers(x))
            },
            MessageCode::RoomTickerAdd => {
                let x = RoomTicker::parse(src)?;
                Ok(ServerResponse::RoomTickersAdded(x))
            },
            MessageCode::RoomTickerRemove => {
                let x = UserRoomEvent::parse(src)?;
                Ok(ServerResponse::RoomTickersRemoved(x))
            },
            MessageCode::PrivateRoomUsers => {
                let x = RoomUsers::parse(src)?;
                Ok(ServerResponse::PrivateRoomUsers(x))
            },
            MessageCode::PrivateRoomAddUser => {
                let x = UserRoomEvent::parse(src)?;
                Ok(ServerResponse::PrivateRoomUserAdded(x))
            },
            MessageCode::PrivateRoomRemoveUser => {
                let x = UserRoomEvent::parse(src)?;
                Ok(ServerResponse::PrivateRoomUserRemoved(x))
            },
            MessageCode::PrivateRoomUnknown => {
                let x = src.read_string()?;
                Ok(ServerResponse::PrivateRoomUnknown(x))
            },
            MessageCode::PrivateRoomAdded => {
                let x = src.read_string()?;
                Ok(ServerResponse::PrivateRoomAdded(x))
            },
            MessageCode::PrivateRoomRemoved => {
                let x = src.read_string()?;
                Ok(ServerResponse::PrivateRoomRemoved(x))
            },
            MessageCode::PrivateRoomToggle => {
                let x = src.read_bool()?;
                Ok(ServerResponse::PrivateRoomInvitationEnabled(x))
            },
            MessageCode::NewPassword => {
                let x = src.read_string()?;
                Ok(ServerResponse::NewPassword(x))
            },
            MessageCode::PrivateRoomAddOperator => {
                let x = UserRoomEvent::parse(src)?;
                Ok(ServerResponse::RoomOperatorAdd(x))
            },
            MessageCode::PrivateRoomRemoveOperator => {
                let x = src.read_string()?;
                Ok(ServerResponse::RoomOperatorRemove(x))
            },
            MessageCode::PrivateRoomOperatorRemoved => {
                let x = src.read_string()?;
                Ok(ServerResponse::RoomOperatorAdded(x))
            },
            MessageCode::PrivateRoomOperatorAdded => {
                let x = src.read_string()?;
                Ok(ServerResponse::RoomOperatorRemoved(x))
            },
            MessageCode::RoomOperators => {
                let x = RoomUsers::parse(src)?;
                Ok(ServerResponse::RoomOperators(x))
            },
            MessageCode::PublicChatMessage => {
                let x = ChatMessage::parse(src)?;
                Ok(ServerResponse::PublicChatMessage(x))
            },
            MessageCode::CantConnectToPeer => {
                let x = PeerConnectionTicket::parse(src)?;
                Ok(ServerResponse::CantConnectToPeer(x))
            },
            MessageCode::CantCreateRoom => {
                let x = src.read_string()?;
                Ok(ServerResponse::CantCreateRoom(x))
            },
            _ => Ok(
                ServerResponse::Unknown(header.message_len as u32, header.code.code(), src.chunk()),
            ),
        }
    }

    pub open spec fn spec_kind(&self) -> Seq<char> {
        match self {
            ServerResponse::LoginResponse(_) => "LoginResponse"@,
            ServerResponse::ListenPort(_) => "ListenPort"@,
            ServerResponse::PeerAddress(_) => "PeerAddress"@,
            ServerResponse::UserAdded(_) => "UserAdded"@,
            ServerResponse::UserRemoved(_) => "UserRemoved"@,
            ServerResponse::UserStatus(_) => "UserStatus"@,
            ServerResponse::ChatMessage(_) => "ChatMessage"@,
            ServerResponse::RoomJoined(_) => "RoomJoined"@,
            ServerResponse::RoomLeft(_) => "RoomLeft"@,
            ServerResponse::PrivateMessage(_) => "PrivateMessage"@,
            ServerResponse::UserJoinedRoom(_) => "UserJoinedRoom"@,
            ServerResponse::UserLeftRoom(_) => "UserLeftRoom"@,
            ServerResponse::PeerConnectionRequest(_) => "PeerConnectionRequest"@,
            ServerResponse::SearchReply(_) => "SearchReply"@,
            ServerResponse::UserStats(_) => "UserStats"@,
            ServerResponse::KickedFromServer => "KickedFromServer"@,
            ServerResponse::Recommendations(_) => "Recommendations"@,
            ServerResponse::GlobalRecommendations(_) => "GlobalRecommendations"@,
            ServerResponse::UserInterests(_) => "UserInterests"@,
            ServerResponse::RoomList(_) => "RoomList"@,
            ServerResponse::AdminMessage(_) => "AdminMessage"@,
            ServerResponse::PrivilegedUsers(_) => "PrivilegedUsers"@,
            ServerResponse::ParentMinSpeed(_) => "ParentMinSpeed"@,
            ServerResponse::ParentSpeedRatio(_) => "ParentSpeedRatio"@,
            ServerResponse::TimeLeft(_) => "TimeLeft"@,
            ServerResponse::EmbeddedMessage(_) => "EmbeddedMessage"@,
            ServerResponse::PossibleParents(_) => "PossibleParents"@,
            ServerResponse::WishlistInterval(_) => "WishlistInterval"@,
            ServerResponse::SimilarUsers(_) => "SimilarUsers"@,
            ServerResponse::ItemRecommendations(_) => "ItemRecommendations"@,
            ServerResponse::ItemSimilarUsers(_) => "ItemSimilarUsers"@,
            ServerResponse::RoomTickers(_) => "RoomTickers"@,
            ServerResponse::RoomTickersAdded(_) => "RoomTickersAdded"@,
            ServerResponse::RoomTickersRemoved(_) => "RoomTickersRemoved"@,
            ServerResponse::PrivateRoomUsers(_) => "PrivateRoomUsers"@,
            ServerResponse::PrivateRoomUserAdded(_) => "PrivateRoomUserAdded"@,
            ServerResponse::PrivateRoomUserRemoved(_) => "PrivateRoomUserRemoved"@,
            ServerResponse::PrivateRoomUnknown(_) => "PrivateRoomUnknown"@,
            ServerResponse::PrivateRoomAdded(_) => "PrivateRoomAdded"@,
            ServerResponse::PrivateRoomRemoved(_) => "PrivateRoomRemoved"@,
            ServerResponse::PrivateRoomInvitationEnabled(_) => "PrivateRoomInvitationEnabled"@,
            ServerResponse::NewPassword(_) => "NewPassword"@,
            ServerResponse::RoomOperatorAdd(_) => "RoomOperatorAdd"@,
            ServerResponse::RoomOperatorRemove(_) => "RoomOperatorRemove"@,
            ServerResponse::RoomOperatorAdded(_) => "RoomOperatorAdded"@,
            ServerResponse::RoomOperatorRemoved(_) => "RoomOperatorRemoved"@,
            ServerResponse::RoomOperators(_) => "RoomOperators"@,
            ServerResponse::PublicChatMessage(_) => "PublicChatMessage"@,
            ServerResponse::CantConnectToPeer(_) => "CantConnectToPeer"@,
            ServerResponse::CantCreateRoom(_) => "CantCreateRoom"@,
            ServerResponse::Unknown(..) => "Unknown"@,
        }
    }

    /// Name of the message kind, for logging.
    pub fn kind(&self) -> (name: &str)
        ensures
            name@ == self.spec_kind(),
    {
        match self {
            ServerResponse::LoginResponse(_) => "LoginResponse",
            ServerResponse::ListenPort(_) => "ListenPort",
            ServerResponse::PeerAddress(_) => "PeerAddress",
            ServerResponse::UserAdded(_) => "UserAdded",
            ServerResponse::UserRemoved(_) => "UserRemoved",
            ServerResponse::UserStatus(_) => "UserStatus",
            ServerResponse::ChatMessage(_) => "ChatMessage",
            ServerResponse::RoomJoined(_) => "RoomJoined",
            ServerResponse::RoomLeft(_) => "RoomLeft",
            ServerResponse::PrivateMessage(_) => "PrivateMessage",
            ServerResponse::UserJoinedRoom(_) => "UserJoinedRoom",
            ServerResponse::UserLeftRoom(_) => "UserLeftRoom",
            ServerResponse::PeerConnectionRequest(_) => "PeerConnectionRequest",
            ServerResponse::SearchReply(_) => "SearchReply",
            ServerResponse::UserStats(_) => "UserStats",
            ServerResponse::KickedFromServer => "KickedFromServer",
            ServerResponse::Recommendations(_) => "Recommendations",
            ServerResponse::GlobalRecommendations(_) => "GlobalRecommendations",
            ServerResponse::UserInterests(_) => "UserInterests",
            ServerResponse::RoomList(_) => "RoomList",
            ServerResponse::AdminMessage(_) => "AdminMessage",
            ServerResponse::PrivilegedUsers(_) => "PrivilegedUsers",
            ServerResponse::ParentMinSpeed(_) => "ParentMinSpeed",
            ServerResponse::ParentSpeedRatio(_) => "ParentSpeedRatio",
            ServerResponse::TimeLeft(_) => "TimeLeft",
            ServerResponse::EmbeddedMessage(_) => "EmbeddedMessage",
            ServerResponse::PossibleParents(_) => "PossibleParents",
            ServerResponse::WishlistInterval(_) => "WishlistInterval",
            ServerResponse::SimilarUsers(_) => "SimilarUsers",
            ServerResponse::ItemRecommendations(_) => "ItemRecommendations",
            ServerResponse::ItemSimilarUsers(_) => "ItemSimilarUsers",
            ServerResponse::RoomTickers(_) => "RoomTickers",
            ServerResponse::RoomTickersAdded(_) => "RoomTickersAdded",
            ServerResponse::RoomTickersRemoved(_) => "RoomTickersRemoved",
            ServerResponse::PrivateRoomUsers(_) => "PrivateRoomUsers",
            ServerResponse::PrivateRoomUserAdded(_) => "PrivateRoomUserAdded",
            ServerResponse::PrivateRoomUserRemoved(_) => "PrivateRoomUserRemoved",
            ServerResponse::PrivateRoomUnknown(_) => "PrivateRoomUnknown",
            ServerResponse::PrivateRoomAdded(_) => "PrivateRoomAdded",
            ServerResponse::PrivateRoomRemoved(_) => "PrivateRoomRemoved",
            ServerResponse::PrivateRoomInvitationEnabled(_) => "PrivateRoomInvitationEnabled",
            ServerResponse::NewPassword(_) => "NewPassword",
            ServerResponse::RoomOperatorAdd(_) => "RoomOperatorAdd",
            ServerResponse::RoomOperatorRemove(_) => "RoomOperatorRemove",
            ServerResponse::RoomOperatorAdded(_) => "RoomOperatorAdded",
            ServerResponse::RoomOperatorRemoved(_) => "RoomOperatorRemoved",
            ServerResponse::RoomOperators(_) => "RoomOperators",
            ServerResponse::PublicChatMessage(_) => "PublicChatMessage",
            ServerResponse::CantConnectToPeer(_) => "CantConnectToPeer",
            ServerResponse::CantCreateRoom(_) => "CantCreateRoom",
            ServerResponse::Unknown(..) => "Unknown",
        }
    }
}

/// The position of a response's variant in the declaration of
/// [`ServerResponse`], whatever the variant holds.
pub open spec fn response_variant(r: ServerResponse) -> int {
    match r {
        ServerResponse::LoginResponse(_) => 0,
        ServerResponse::ListenPort(_) => 1,
        ServerResponse::PeerAddress(_) => 2,
        ServerResponse::UserAdded(_) => 3,
        ServerResponse::UserRemoved(_) => 4,
        ServerResponse::UserStatus(_) => 5,
        ServerResponse::ChatMessage(_) => 6,
        ServerResponse::RoomJoined(_) => 7,
        ServerResponse::RoomLeft(_) => 8,
        ServerResponse::PrivateMessage(_) => 9,
        ServerResponse::UserJoinedRoom(_) => 10,
        ServerResponse::UserLeftRoom(_) => 11,
        ServerResponse::PeerConnectionRequest(_) => 12,
        ServerResponse::SearchReply(_) => 13,
        ServerResponse::UserStats(_) => 14,
        ServerResponse::KickedFromServer => 15,
        ServerResponse::Recommendations(_) => 16,
        ServerResponse::GlobalRecommendations(_) => 17,
        ServerResponse::UserInterests(_) => 18,
        ServerResponse::RoomList(_) => 19,
        ServerResponse::AdminMessage(_) => 20,
        ServerResponse::PrivilegedUsers(_) => 21,
        ServerResponse::ParentMinSpeed(_) => 22,
        ServerResponse::ParentSpeedRatio(_) => 23,
        ServerResponse::TimeLeft(_) => 24,
        ServerResponse::EmbeddedMessage(_) => 25,
        ServerResponse::PossibleParents(_) => 26,
        ServerResponse::WishlistInterval(_) => 27,
        ServerResponse::SimilarUsers(_) => 28,
        ServerResponse::ItemRecommendations(_) => 29,
        ServerResponse::ItemSimilarUsers(_) => 30,
        ServerResponse::RoomTickers(_) => 31,
        ServerResponse::RoomTickersAdded(_) => 32,
        ServerResponse::RoomTickersRemoved(_) => 33,
        ServerResponse::PrivateRoomUsers(_) => 34,
        ServerResponse::PrivateRoomUserAdded(_) => 35,
        ServerResponse::PrivateRoomUserRemoved(_) => 36,
        ServerResponse::PrivateRoomUnknown(_) => 37,
        ServerResponse::PrivateRoomAdded(_) => 38,
        ServerResponse::PrivateRoomRemoved(_) => 39,
        ServerResponse::PrivateRoomInvitationEnabled(_) => 40,
        ServerResponse::NewPassword(_) => 41,
        ServerResponse::RoomOperatorAdd(_) => 42,
        ServerResponse::RoomOperatorRemove(_) => 43,
        ServerResponse::RoomOperatorAdded(_) => 44,
        ServerResponse::RoomOperatorRemoved(_) => 45,
        ServerResponse::RoomOperators(_) => 46,
        ServerResponse::PublicChatMessage(_) => 47,
        ServerResponse::CantConnectToPeer(_) => 48,
        ServerResponse::CantCreateRoom(_) => 49,
        ServerResponse::Unknown(..) => 50,
    }
}

/// The name of the variant at position `i`.
pub open spec fn response_kind_name(i: int) -> Seq<char> {
    if i == 0 {
        "LoginResponse"@
    } else if i == 1 {
        "ListenPort"@
    } else if i == 2 {
        "PeerAddress"@
    } else if i == 3 {
        "UserAdded"@
    } else if i == 4 {
        "UserRemoved"@
    } else if i == 5 {
        "UserStatus"@
    } else if i == 6 {
        "ChatMessage"@
    } else if i == 7 {
        "RoomJoined"@
    } else if i == 8 {
        "RoomLeft"@
    } else if i == 9 {
        "PrivateMessage"@
    } else if i == 10 {
        "UserJoinedRoom"@
    } else if i == 11 {
        "UserLeftRoom"@
    } else if i == 12 {
        "PeerConnectionRequest"@
    } else if i == 13 {
        "SearchReply"@
    } else if i == 14 {
        "UserStats"@
    } else if i == 15 {
        "KickedFromServer"@
    } else if i == 16 {
        "Recommendations"@
    } else if i == 17 {
        "GlobalRecommendations"@
    } else if i == 18 {
        "UserInterests"@
    } else if i == 19 {
        "RoomList"@
    } else if i == 20 {
        "AdminMessage"@
    } else if i == 21 {
        "PrivilegedUsers"@
    } else if i == 22 {
        "ParentMinSpeed"@
    } else if i == 23 {
        "ParentSpeedRatio"@
    } else if i == 24 {
        "TimeLeft"@
    } else if i == 25 {
        "EmbeddedMessage"@
    } else if i == 26 {
        "PossibleParents"@
    } else if i == 27 {
        "WishlistInterval"@
    } else if i == 28 {
        "SimilarUsers"@
    } else if i == 29 {
        "ItemRecommendations"@
    } else if i == 30 {
        "ItemSimilarUsers"@
    } else if i == 31 {
        "RoomTickers"@
    } else if i == 32 {
        "RoomTickersAdded"@
    } else if i == 33 {
        "RoomTickersRemoved"@
    } else if i == 34 {
        "PrivateRoomUsers"@
    } else if i == 35 {
        "PrivateRoomUserAdded"@
    } else if i == 36 {
        "PrivateRoomUserRemoved"@
    } else if i == 37 {
        "PrivateRoomUnknown"@
    } else if i == 38 {
        "PrivateRoomAdded"@
    } else if i == 39 {
        "PrivateRoomRemoved"@
    } else if i == 40 {
        "PrivateRoomInvitationEnabled"@
    } else if i == 41 {
        "NewPassword"@
    } else if i == 42 {
        "RoomOperatorAdd"@
    } else if i == 43 {
        "RoomOperatorRemove"@
    } else if i == 44 {
        "RoomOperatorAdded"@
    } else if i == 45 {
        "RoomOperatorRemoved"@
    } else if i == 46 {
        "RoomOperators"@
    } else if i == 47 {
        "PublicChatMessage"@
    } else if i == 48 {
        "CantConnectToPeer"@
    } else if i == 49 {
        "CantCreateRoom"@
    } else if i == 50 {
        "Unknown"@
    } else {
        Seq::empty()
    }
}

/// The position of the variant whose name is `name`, told apart by its
/// length and three of its characters; -1 for any other text.
spec fn response_kind_position(name: Seq<char>) -> int {
    if name.len() == 13 && name[0] == 'L' && name[name.len() - 1] == 'e' && name[name.len() - 2] == 's' {
        0
    } else if name.len() == 10 && name[0] == 'L' && name[name.len() - 1] == 't' && name[name.len() - 2] == 'r' {
        1
    } else if name.len() == 11 && name[0] == 'P' && name[name.len() - 1] == 's' && name[name.len() - 2] == 's' {
        2
    } else if name.len() == 9 && name[0] == 'U' && name[name.len() - 1] == 'd' && name[name.len() - 2] == 'e' {
        3
    } else if name.len() == 11 && name[0] == 'U' && name[name.len() - 1] == 'd' && name[name.len() - 2] == 'e' {
        4
    } else if name.len() == 10 && name[0] == 'U' && name[name.len() - 1] == 's' && name[name.len() - 2] == 'u' {
        5
    } else if name.len() == 11 && name[0] == 'C' && name[name.len() - 1] == 'e' && name[name.len() - 2] == 'g' {
        6
    } else if name.len() == 10 && name[0] == 'R' && name[name.len() - 1] == 'd' && name[name.len() - 2] == 'e' {
        7
    } else if name.len() == 8 && name[0] == 'R' && name[name.len() - 1] == 't' && name[name.len() - 2] == 'f' {
        8
    } else if name.len() == 14 && name[0] == 'P' && name[name.len() - 1] == 'e' && name[name.len() - 2] == 'g' {
        9
    } else if name.len() == 14 && name[0] == 'U' && name[name.len() - 1] == 'm' && name[name.len() - 2] == 'o' {
        10
    } else if name.len() == 12 && name[0] == 'U' && name[name.len() - 1] == 'm' && name[name.len() - 2] == 'o' {
        11
    } else if name.len() == 21 && name[0] == 'P' && name[name.len() - 1] == 't' && name[name.len() - 2] == 's' {
        12
    } else if name.len() == 11 && name[0] == 'S' && name[name.len() - 1] == 'y' && name[name.len() - 2] == 'l' {
        13
    } else if name.len() == 9 && name[0] == 'U' && name[name.len() - 1] == 's' && name[name.len() - 2] == 't' {
        14
    } else if name.len() == 16 && name[0] == 'K' && name[name.len() - 1] == 'r' && name[name.len() - 2] == 'e' {
        15
    } else if name.len() == 15 && name[0] == 'R' && name[name.len() - 1] == 's' && name[name.len() - 2] == 'n' {
        16
    } else if name.len() == 21 && name[0] == 'G' && name[name.len() - 1] == 's' && name[name.len() - 2] == 'n' {
        17
    } else if name.len() == 13 && name[0] == 'U' && name[name.len() - 1] == 's' && name[name.len() - 2] == 't' {
        18
    } else if name.len() == 8 && name[0] == 'R' && name[name.len() - 1] == 't' && name[name.len() - 2] == 's' {
        19
    } else if name.len() == 12 && name[0] == 'A' && name[name.len() - 1] == 'e' && name[name.len() - 2] == 'g' {
        20
    } else if name.len() == 15 && name[0] == 'P' && name[name.len() - 1] == 's' && name[name.len() - 2] == 'r' {
        21
    } else if name.len() == 14 && name[0] == 'P' && name[name.len() - 1] == 'd' && name[name.len() - 2] == 'e' {
        22
    } else if name.len() == 16 && name[0] == 'P' && name[name.len() - 1] == 'o' && name[name.len() - 2] == 'i' {
        23
    } else if name.len() == 8 && name[0] == 'T' && name[name.len() - 1] == 't' && name[name.len() - 2] == 'f' {
        24
    } else if name.len() == 15 && name[0] == 'E' && name[name.len() - 1] == 'e' && name[name.len() - 2] == 'g' {
        25
    } else if name.len() == 15 && name[0] == 'P' && name[name.len() - 1] == 's' && name[name.len() - 2] == 't' {
        26
    } else if name.len() == 16 && name[0] == 'W' && name[name.len() - 1] == 'l' && name[name.len() - 2] == 'a' {
        27
    } else if name.len() == 12 && name[0] == 'S' && name[name.len() - 1] == 's' && name[name.len() - 2] == 'r' {
        28
    } else if name.len() == 19 && name[0] == 'I' && name[name.len() - 1] == 's' && name[name.len() - 2] == 'n' {
        29
    } else if name.len() == 16 && name[0] == 'I' && name[name.len() - 1] == 's' && name[name.len() - 2] == 'r' {
        30
    } else if name.len() == 11 && name[0] == 'R' && name[name.len() - 1] == 's' && name[name.len() - 2] == 'r' {
        31
    } else if name.len() == 16 && name[0] == 'R' && name[name.len() - 1] == 'd' && name[name.len() - 2] == 'e' {
        32
    } else if name.len() == 18 && name[0] == 'R' && name[name.len() - 1] == 'd' && name[name.len() - 2] == 'e' {
        33
    } else if name.len() == 16 && name[0] == 'P' && name[name.len() - 1] == 's' && name[name.len() - 2] == 'r' {
        34
    } else if name.len() == 20 && name[0] == 'P' && name[name.len() - 1] == 'd' && name[name.len() - 2] == 'e' {
        35
    } else if name.len() == 22 && name[0] == 'P' && name[name.len() - 1] == 'd' && name[name.len() - 2] == 'e' {
        36
    } else if name.len() == 18 && name[0] == 'P' && name[name.len() - 1] == 'n' && name[name.len() - 2] == 'w' {
        37
    } else if name.len() == 16 && name[0] == 'P' && name[name.len() - 1] == 'd' && name[name.len() - 2] == 'e' {
        38
    } else if name.len() == 18 && name[0] == 'P' && name[name.len() - 1] == 'd' && name[name.len() - 2] == 'e' {
        39
    } else if name.len() == 28 && name[0] == 'P' && name[name.len() - 1] == 'd' && name[name.len() - 2] == 'e' {
        40
    } else if name.len() == 11 && name[0] == 'N' && name[name.len() - 1] == 'd' && name[name.len() - 2] == 'r' {
        41
    } else if name.len() == 15 && name[0] == 'R' && name[name.len() - 1] == 'd' && name[name.len() - 2] == 'd' {
        42
    } else if name.len() == 18 && name[0] == 'R' && name[name.len() - 1] == 'e' && name[name.len() - 2] == 'v' {
        43
    } else if name.len() == 17 && name[0] == 'R' && name[name.len() - 1] == 'd' && name[name.len() - 2] == 'e' {
        44
    } else if name.len() == 19 && name[0] == 'R' && name[name.len() - 1] == 'd' && name[name.len() - 2] == 'e' {
        45
    } else if name.len() == 13 && name[0] == 'R' && name[name.len() - 1] == 's' && name[name.len() - 2] == 'r' {
        46
    } else if name.len() == 17 && name[0] == 'P' && name[name.len() - 1] == 'e' && name[name.len() - 2] == 'g' {
        47
    } else if name.len() == 17 && name[0] == 'C' && name[name.len() - 1] == 'r' && name[name.len() - 2] == 'e' {
        48
    } else if name.len() == 14 && name[0] == 'C' && name[name.len() - 1] == 'm' && name[name.len() - 2] == 'o' {
        49
    } else if name.len() == 7 && name[0] == 'U' && name[name.len() - 1] == 'n' && name[name.len() - 2] == 'w' {
        50
    } else {
        -1
    }
}

proof fn lemma_response_kind_position(r: ServerResponse)
    ensures
        r.spec_kind() == response_kind_name(response_variant(r)),
        response_kind_position(r.spec_kind()) == response_variant(r),
{
    match r {
        ServerResponse::LoginResponse(_) => {
            reveal_strlit("LoginResponse");
        },
        ServerResponse::ListenPort(_) => {
            reveal_strlit("ListenPort");
        },
        ServerResponse::PeerAddress(_) => {
            reveal_strlit("PeerAddress");
        },
        ServerResponse::UserAdded(_) => {
            reveal_strlit("UserAdded");
        },
        ServerResponse::UserRemoved(_) => {
            reveal_strlit("UserRemoved");
        },
        ServerResponse::UserStatus(_) => {
            reveal_strlit("UserStatus");
        },
        ServerResponse::ChatMessage(_) => {
            reveal_strlit("ChatMessage");
        },
        ServerResponse::RoomJoined(_) => {
            reveal_strlit("RoomJoined");
        },
        ServerResponse::RoomLeft(_) => {
            reveal_strlit("RoomLeft");
        },
        ServerResponse::PrivateMessage(_) => {
            reveal_strlit("PrivateMessage");
        },
        ServerResponse::UserJoinedRoom(_) => {
            reveal_strlit("UserJoinedRoom");
        },
        ServerResponse::UserLeftRoom(_) => {
            reveal_strlit("UserLeftRoom");
        },
        ServerResponse::PeerConnectionRequest(_) => {
            reveal_strlit("PeerConnectionRequest");
        },
        ServerResponse::SearchReply(_) => {
            reveal_strlit("SearchReply");
        },
        ServerResponse::UserStats(_) => {
            reveal_strlit("UserStats");
        },
        ServerResponse::KickedFromServer => {
            reveal_strlit("KickedFromServer");
        },
        ServerResponse::Recommendations(_) => {
            reveal_strlit("Recommendations");
        },
        ServerResponse::GlobalRecommendations(_) => {
            reveal_strlit("GlobalRecommendations");
        },
        ServerResponse::UserInterests(_) => {
            reveal_strlit("UserInterests");
        },
        ServerResponse::RoomList(_) => {
            reveal_strlit("RoomList");
        },
        ServerResponse::AdminMessage(_) => {
            reveal_strlit("AdminMessage");
        },
        ServerResponse::PrivilegedUsers(_) => {
            reveal_strlit("PrivilegedUsers");
        },
        ServerResponse::ParentMinSpeed(_) => {
            reveal_strlit("ParentMinSpeed");
        },
        ServerResponse::ParentSpeedRatio(_) => {
            reveal_strlit("ParentSpeedRatio");
        },
        ServerResponse::TimeLeft(_) => {
            reveal_strlit("TimeLeft");
        },
        ServerResponse::EmbeddedMessage(_) => {
            reveal_strlit("EmbeddedMessage");
        },
        ServerResponse::PossibleParents(_) => {
            reveal_strlit("PossibleParents");
        },
        ServerResponse::WishlistInterval(_) => {
            reveal_strlit("WishlistInterval");
        },
        ServerResponse::SimilarUsers(_) => {
            reveal_strlit("SimilarUsers");
        },
        ServerResponse::ItemRecommendations(_) => {
            reveal_strlit("ItemRecommendations");
        },
        ServerResponse::ItemSimilarUsers(_) => {
            reveal_strlit("ItemSimilarUsers");
        },
        ServerResponse::RoomTickers(_) => {
            reveal_strlit("RoomTickers");
        },
        ServerResponse::RoomTickersAdded(_) => {
            reveal_strlit("RoomTickersAdded");
        },
        ServerResponse::RoomTickersRemoved(_) => {
            reveal_strlit("RoomTickersRemoved");
        },
        ServerResponse::PrivateRoomUsers(_) => {
            reveal_strlit("PrivateRoomUsers");
        },
        ServerResponse::PrivateRoomUserAdded(_) => {
            reveal_strlit("PrivateRoomUserAdded");
        },
        ServerResponse::PrivateRoomUserRemoved(_) => {
            reveal_strlit("PrivateRoomUserRemoved");
        },
        ServerResponse::PrivateRoomUnknown(_) => {
            reveal_strlit("PrivateRoomUnknown");
        },
        ServerResponse::PrivateRoomAdded(_) => {
            reveal_strlit("PrivateRoomAdded");
        },
        ServerResponse::PrivateRoomRemoved(_) => {
            reveal_strlit("PrivateRoomRemoved");
        },
        ServerResponse::PrivateRoomInvitationEnabled(_) => {
            reveal_strlit("PrivateRoomInvitationEnabled");
        },
        ServerResponse::NewPassword(_) => {
            reveal_strlit("NewPassword");
        },
        ServerResponse::RoomOperatorAdd(_) => {
            reveal_strlit("RoomOperatorAdd");
        },
        ServerResponse::RoomOperatorRemove(_) => {
            reveal_strlit("RoomOperatorRemove");
        },
        ServerResponse::RoomOperatorAdded(_) => {
            reveal_strlit("RoomOperatorAdded");
        },
        ServerResponse::RoomOperatorRemoved(_) => {
            reveal_strlit("RoomOperatorRemoved");
        },
        ServerResponse::RoomOperators(_) => {
            reveal_strlit("RoomOperators");
        },
        ServerResponse::PublicChatMessage(_) => {
            reveal_strlit("PublicChatMessage");
        },
        ServerResponse::CantConnectToPeer(_) => {
            reveal_strlit("CantConnectToPeer");
        },
        ServerResponse::CantCreateRoom(_) => {
            reveal_strlit("CantCreateRoom");
        },
        ServerResponse::Unknown(..) => {
            reveal_strlit("Unknown");
        },
    }
}

/// Two responses have the same kind exactly when they are the same variant:
/// `kind` names each variant apart and ignores what the variant holds.
pub proof fn lemma_response_kind_injective(a: ServerResponse, b: ServerResponse)
    ensures
        (a.spec_kind() == b.spec_kind()) <==> (response_variant(a) == response_variant(b)),
        a.spec_kind().len() > 0,
{
    lemma_response_kind_position(a);
    lemma_response_kind_position(b);
}

/// The variant that a message with code `c` parses to, as the protocol pairs
/// them: the answer to each request the client sends, and each message the
/// server pushes; a code the client does not read gives `Unknown`.
pub open spec fn response_variant_for_code(c: MessageCode, r: ServerResponse) -> bool {
    match c {
        MessageCode::Login => r is LoginResponse,
        MessageCode::SetListenPort => r is ListenPort,
        MessageCode::GetPeerAddress => r is PeerAddress,
        MessageCode::AddUser => r is UserAdded,
        MessageCode::RemoveUser => r is UserRemoved,
        MessageCode::GetUserStatus => r is UserStatus,
        MessageCode::SayInChatRoom => r is ChatMessage,
        MessageCode::JoinRoom => r is RoomJoined,
        MessageCode::LeaveRoom => r is RoomLeft,
        MessageCode::UserJoinedRoom => r is UserJoinedRoom,
        MessageCode::UserLeftRoom => r is UserLeftRoom,
        MessageCode::ConnectToPeer => r is PeerConnectionRequest,
        MessageCode::PrivateMessages => r is PrivateMessage,
        MessageCode::FileSearch => r is SearchReply,
        MessageCode::GetUserStats => r is UserStats,
        MessageCode::KickedFromServer => r is KickedFromServer,
        MessageCode::GetRecommendations => r is Recommendations,
        MessageCode::GetGlobalRecommendations => r is GlobalRecommendations,
        MessageCode::GetUserInterests => r is UserInterests,
        MessageCode::RoomList => r is RoomList,
        MessageCode::GlobalAdminMessage => r is AdminMessage,
        MessageCode::PrivilegedUsers => r is PrivilegedUsers,
        MessageCode::ParentMinSpeed => r is ParentMinSpeed,
        MessageCode::ParentSpeedRatio => r is ParentSpeedRatio,
        MessageCode::CheckPrivileges => r is TimeLeft,
        MessageCode::EmbeddedMessage => r is EmbeddedMessage,
        MessageCode::PossibleParents => r is PossibleParents,
        MessageCode::WishlistInterval => r is WishlistInterval,
        MessageCode::GetSimilarUsers => r is SimilarUsers,
        MessageCode::GetItemRecommendations => r is ItemRecommendations,
        MessageCode::GetItemSimilarUsers => r is ItemSimilarUsers,
        MessageCode::RoomTickers => r is RoomTickers,
        MessageCode::RoomTickerAdd => r is RoomTickersAdded,
        MessageCode::RoomTickerRemove => r is RoomTickersRemoved,
        MessageCode::PrivateRoomUsers => r is PrivateRoomUsers,
        MessageCode::PrivateRoomAddUser => r is PrivateRoomUserAdded,
        MessageCode::PrivateRoomRemoveUser => r is PrivateRoomUserRemoved,
        MessageCode::PrivateRoomUnknown => r is PrivateRoomUnknown,
        MessageCode::PrivateRoomAdded => r is PrivateRoomAdded,
        MessageCode::PrivateRoomRemoved => r is PrivateRoomRemoved,
        MessageCode::PrivateRoomToggle => r is PrivateRoomInvitationEnabled,
        MessageCode::NewPassword => r is NewPassword,
        MessageCode::PrivateRoomAddOperator => r is RoomOperatorAdd,
        MessageCode::PrivateRoomRemoveOperator => r is RoomOperatorRemove,
        MessageCode::PrivateRoomOperatorAdded => r is RoomOperatorRemoved,
        MessageCode::PrivateRoomOperatorRemoved => r is RoomOperatorAdded,
        MessageCode::RoomOperators => r is RoomOperators,
        MessageCode::PublicChatMessage => r is PublicChatMessage,
        MessageCode::CantConnectToPeer => r is CantConnectToPeer,
        MessageCode::CantCreateRoom => r is CantCreateRoom,
        _ => r is Unknown,
    }
}

/// Parsing a server message gives the variant that its code stands for,
/// whatever the body holds.
pub proof fn lemma_response_variant_follows_code(
    h: Header,
    s: Seq<u8>,
    p: int,
    r: ServerResponse,
)
    requires
        spec_response(h, s, p, Ok(r)),
    ensures
        response_variant_for_code(h.code, r),
{
}

} // verus!
