//! Requests that we send to the server.
use crate::frame::{le32, lemma_le32, ser_str, str_bytes, views};
use crate::message_common::{spec_type_code, ConnectionType};
use crate::server::admin::{lemma_strs_len_prefix, lemma_strs_rep_len, strs_len, AdminCommand};
use crate::server::chat::{GroupMessage, SayInChat};
use crate::server::login::LoginRequest;
use crate::server::peer::{PeerConnectionTicket, RequestConnectionToPeer};
use crate::server::privilege::PrivilegesGift;
use crate::server::room::{Ticker, UserRoomEvent};
use crate::server::search::{RoomSearchQuery, SearchQuery, SearchRequest};
use crate::server::shares::SharedFolderAndFiles;
use crate::server::{
    ser_bool_msg, ser_empty_msg, ser_header, ser_str_msg, ser_u32_msg, write_bool_msg, write_empty_msg,
    write_str_msg, write_u32_msg, MessageCode, HEADER_LEN,
};
use vstd::bytes::spec_u32_from_le_bytes;
use vstd::prelude::*;

verus! {

/// All outgoing messages we can send to the soulseek server.
#[derive(Debug)]
pub enum ServerRequest {
    ///  **Description** : Send your username, password, and client version.
    ///
    /// **Response** : `ServerResponse::LoginResponse`
    Login(LoginRequest),
    ///  **Description** : We send this to the server to indicate the port number that we listen on (2234 by default).
    ///
    /// **Response** : no message
    SetListenPort(u32),
    ///  **Description** : We send this to the server to ask for a peer's address (IP address and port), given the peer's username.
    ///
    /// **Response** : no message
    GetPeerAddress(String),
    ///  **Description** : Used to be kept updated about a user's stats. When a user's stats have changed, the server
    ///  sends a [`ServerRequest::GetUserStats`] response message with the new user stats.
    ///
    /// **Response** : `ServerResponse::UserAdded`
    AddUser(String),
    ///  **Description** : Used when we no longer want to be kept updated about a user's stats.
    ///
    /// **Response** : `ServerResponse::UserRemoved`
    RemoveUser(String),
    ///  **Description** : We want to known if a user has gone away or has returned.
    ///
    /// **Response** : `ServerResponse::UserStatus`
    GetUserStatus(String),
    ///  **Description** : We want to say something in the chatroom.
    ///
    /// **Response** : `ServerResponse::ChatMessage`
    ///
    /// **Note** : once [`ServerRequest::EnablePublicChat`] has been sent we will receive chat message
    /// continuously.
    SendChatMessage(SayInChat),
    ///  **Description** : We want to join a room.
    ///
    /// **Response** : `ServerResponse::RoomJoined`
    JoinRoom(String),
    ///  **Description** : We send this to the server when we want to leave a room.
    ///
    /// **Response** : `ServerResponse::RoomLeft`
    LeaveRoom(String),
    /// **Description** : Either we ask server to tell someone else we want to establish a connection with them.
    ///
    /// **Response** : `ServerResponse::ConnectToPeer`
    ConnectToPeer(RequestConnectionToPeer),
    ///  **Description** : We send this to the server to confirm that we received a
    /// private message. If we don't send it, the server will keep sending the chat phrase to us.
    ///
    /// **Response** : no message
    AcknowledgePrivateMessage(u32),
    ///  **Description** : We send this to the server when we search for something. Alternatively,
    /// the server sends this message outside the distributed network to tell us that someone
    /// is searching for something, currently used for UserSearch and RoomSearch requests.
    ///
    /// **Response** : `ServerResponse::SearchReply`
    FileSearch(SearchRequest),
    ///  **Description** : We send our new status to the server. Status is a way to define whether you're available or busy.
    ///
    ///-1 = Unknown
    /// 0 = Offline
    /// 1 = Away
    /// 2 = Online
    ///
    /// **Response** : no message
    SetOnlineStatus(u32),
    ///  **Description** :We send this to server to indicate the number of folder and files that we share.
    ///
    /// **Response** : no message
    SharedFolderAndFiles(SharedFolderAndFiles),
    /// **Description** : The server sends this to indicate a change in a user’s statistics,
    /// if we’ve requested to watch the user in AddUser previously. A user’s stats can also be
    /// requested by sending a GetUserStats message to the server, but AddUser should be used instead.
    ///
    /// **Response** : `ServerResponse::UserStats`
    GetUserStats(String),
    ///  **Description** : We send this to the server when we search a specific user's shares. The ticket/search id
    /// is a random number generated by the client and is used to track the search results
    ///
    /// **Response** : no message
    UserSearch(SearchQuery),
    ///  **Description** :
    ///
    /// **Response** : no message
    AddLinkedInterest(String),
    ///  **Description** :
    ///
    /// **Response** : no message
    RemoveLinkedInterest(String),
    ///  **Description** : We ask the server to send us a list of personal recommendations and a number for each.
    ///
    /// **Response** : `ServerResponse::Recommendations`
    Recommendations,
    ///  **Description** : We ask the server to send us a list of global recommendations and a number for each.
    ///
    /// **Response** : `ServerResponse::Recommendations`
    GlobalRecommendations,
    ///  **Description** : We ask the server for a user's liked and hated interests. The server responds with a list of interests.
    ///
    /// **Response** : `ServerResponse::Interests`
    GetUserInterest(String),
    ///  **Description** : Unknown
    ///
    /// **Response** : no message
    AdminCommand(AdminCommand),
    ///  **Description** : The server tells us a list of rooms and the number of users in them.
    /// When connecting to the server, the server only sends us rooms with at least 5 users.
    /// A few select rooms are also excluded, such as nicotine and The Lobby. Requesting the room
    /// list yields a response containing the missing rooms.
    ///
    /// **Response** :  `ServerResponse::RoomList`
    RoomList,
    /// **Description** : We inform the server if we have a distributed parent or not. If not, the server eventually
    /// sends us a PossibleParents message with a list of 10 possible parents to connect to.
    ///
    /// **Response** : no message
    NoParents(bool),
    ///  **Description** : We ask the server how much time we have left of our privileges.
    /// The server responds with the remaining time, in seconds.
    ///
    /// **Response** :  `ServerResponse::TimeLeft`
    CheckPrivileges,
    ///  **Description** : We tell the server if we want to accept child nodes.
    ///
    /// **Response** : no message
    AcceptChildren(bool),
    ///  **Description** : unknown.
    ///
    /// **Response** : no message
    WishlistSearch(SearchRequest),
    ///  **Description** : The server sends us a list of similar users related to our interests.
    ///
    /// **Response** :  `ServerResponse::SimilarUsers`
    GetSimilarUsers,
    ///  **Description** :The server sends us a list of recommendations related to a specific item,
    /// which is usually present in the like/dislike list or an existing recommendation list.
    ///
    /// **Response** :  `ServerResponse::ItemRecommendations`
    GetItemRecommendations(String),
    ///  **Description** :The server sends us a list of similar users related to a specific item,
    /// which is usually present in the like/dislike list or recommendation list.
    ///
    /// **Response** :  `ServerResponse::ItemSimilarUsers`
    GetItemSimilarUsers(String),
    ///  **Description** : We send this to the server when we change our own ticker in a chat room.
    ///
    /// **Response** : no message
    SetRoomTicker(Ticker),
    ///  **Description** : We send this to the server when we add an item to our hate list.
    ///
    /// **Response** : no message
    AddHatedInterest(String),
    ///  **Description** : We send this to the server when we remove an item from our hate list.
    ///
    /// **Response** : no message
    RemoveHatedInterest(String),
    ///  **Description** : We send this to the server to search files shared by users who have
    /// joined a specific chat room. The ticket/search id is a random number generated by the
    /// client and is used to track the search results.
    ///
    /// **Response** : no message
    RoomSearch(RoomSearchQuery),
    ///  **Description** : We send this after a finished upload to let the server update the
    /// speed statistics for ourselves.
    /// public chat.
    ///
    /// **Response** : no message
    SendUploadSpeed(u32),
    ///  **Description** : We give (part of) our privileges, specified in days, to another user on *
    /// the network.
    /// public chat.
    ///
    /// **Response** : no message
    GivePrivileges(PrivilegesGift),
    ///  **Description** : We tell the server what our position is in our branch (xth generation) on
    /// the distributed network.
    /// public chat.
    ///
    /// **Response** : no message
    BranchLevel(u32),
    ///  **Description** : We tell the server the username of the root of the branch we're in on the
    /// distributed network.
    ///
    /// **Response** : no message
    BranchRoot(String),
    ///  **Description** : We tell the server the maximum number of generation of children we have on
    /// the distributed network.
    ///
    /// **Response** : no message
    ChildDepth(u32),
    ///  **Description** : We send this to inform the server that we've added a user to a private room.
    ///
    /// **Response** : no message
    AddUserToPrivateRoom(UserRoomEvent),
    ///  **Description** : We send this to inform the server that we've removed a user from a private room.
    ///
    /// **Response** : no message
    RemoveUserFromPrivateRoom(UserRoomEvent),
    ///  **Description** : We send this to the server to remove our own membership of a private room.
    ///
    /// **Response** : no message
    PrivateRoomDropMemberShip(String),
    ///  **Description** : We send this to the server to stop owning a private room.
    ///
    /// **Response** : no message
    PrivateRoomDropOwnerShip(String),
    ///  **Description** : Unknown purpose
    ///
    /// **Response** : room : String
    PrivateRoomUnknown(String),
    ///  **Description** : We send this when we want to enable or disable invitations to private rooms.
    ///
    /// **Response** :  `ServerResponse::PrivateRoomInvitationEnabled`
    PrivateRoomToggle(bool),
    ///  **Description** : We send this to the server to change our password. We receive a response if our password changes.
    ///
    /// **Response** :  `ServerResponse::NewPassword`
    NewPassWord(String),
    ///  **Description** : We send this to the server to add private room operator abilities to a user.
    ///
    /// **Response** :  `ServerResponse::RoomOperatorAdd`
    PrivateRoomAddOperator(UserRoomEvent),
    ///  **Description** : The server send us this message when our operator abilities are removed in a private room.
    ///
    /// **Response** :  `ServerResponse::RoomOperatorRemove`
    PrivateRoomRemoveOperator(String),
    ///  **Description** : Sends a broadcast private message to the given list of users.
    ///
    /// **Response** : no message
    MessageUsers(GroupMessage),
    ///  **Description** : We ask the server to send us messages from all public rooms, also known as
    /// public chat.
    ///
    /// **Response** : no message
    EnablePublicChat,
    ///  **Description** : We ask the server to stop sending us messages from all public rooms, also known
    /// as public chat.
    ///
    /// **Response** : no message
    DisablePublicChat,
    ///  **Description** : We send this to say we can't connect to peer after it has asked
    /// us to connect. We receive this if we asked peer to connect and it can't do this. This message means a connection can't be established either way.
    ///
    /// **Response** : no message
    CantConnectToPeer(PeerConnectionTicket),
    /// A request that the client does not know how to write yet.
    Unimplemented,
}

/// The bytes written for a request: header (length, then code) and body.
pub open spec fn spec_request_bytes(r: &ServerRequest) -> Seq<u8> {
    match r {
        ServerRequest::Login(x) => LoginRequest::spec_bytes(x@),
        ServerRequest::SetListenPort(x) => ser_u32_msg(*x, MessageCode::SetListenPort),
        ServerRequest::GetPeerAddress(x) => ser_str_msg(x@, MessageCode::GetPeerAddress),
        ServerRequest::AddUser(x) => ser_str_msg(x@, MessageCode::AddUser),
        ServerRequest::RemoveUser(x) => ser_str_msg(x@, MessageCode::RemoveUser),
        ServerRequest::GetUserStatus(x) => ser_str_msg(x@, MessageCode::GetUserStatus),
        ServerRequest::SendChatMessage(x) => SayInChat::spec_bytes(x@),
        ServerRequest::JoinRoom(x) => ser_str_msg(x@, MessageCode::JoinRoom),
        ServerRequest::LeaveRoom(x) => ser_str_msg(x@, MessageCode::LeaveRoom),
        ServerRequest::ConnectToPeer(x) => RequestConnectionToPeer::spec_bytes(x@),
        ServerRequest::AcknowledgePrivateMessage(x) => ser_u32_msg(*x, MessageCode::AcknowledgePrivateMessage),
        ServerRequest::FileSearch(x) => SearchRequest::spec_bytes(x@, MessageCode::FileSearch),
        ServerRequest::SetOnlineStatus(x) => ser_u32_msg(*x, MessageCode::SetOnlineStatus),
        ServerRequest::SharedFolderAndFiles(x) => SharedFolderAndFiles::spec_bytes(x@),
        ServerRequest::GetUserStats(x) => ser_str_msg(x@, MessageCode::GetUserStats),
        ServerRequest::UserSearch(x) => SearchQuery::spec_bytes(x@),
        ServerRequest::AddLinkedInterest(x) => ser_str_msg(x@, MessageCode::InterestAdd),
        ServerRequest::RemoveLinkedInterest(x) => ser_str_msg(x@, MessageCode::InterestRemove),
        ServerRequest::Recommendations => ser_empty_msg(MessageCode::GetRecommendations),
        ServerRequest::GlobalRecommendations => ser_empty_msg(MessageCode::GetGlobalRecommendations),
        ServerRequest::GetUserInterest(x) => ser_str_msg(x@, MessageCode::GetUserInterests),
        ServerRequest::AdminCommand(x) => AdminCommand::spec_bytes(x@),
        ServerRequest::RoomList => ser_empty_msg(MessageCode::RoomList),
        ServerRequest::NoParents(x) => ser_bool_msg(*x, MessageCode::HaveNoParents),
        ServerRequest::CheckPrivileges => ser_empty_msg(MessageCode::CheckPrivileges),
        ServerRequest::AcceptChildren(x) => ser_bool_msg(*x, MessageCode::AcceptChildren),
        ServerRequest::WishlistSearch(x) => SearchRequest::spec_bytes(x@, MessageCode::WishlistSearch),
        ServerRequest::GetSimilarUsers => ser_empty_msg(MessageCode::GetSimilarUsers),
        ServerRequest::GetItemRecommendations(x) => ser_str_msg(x@, MessageCode::GetItemRecommendations),
        ServerRequest::GetItemSimilarUsers(x) => ser_str_msg(x@, MessageCode::GetItemSimilarUsers),
        ServerRequest::SetRoomTicker(x) => Ticker::spec_bytes(x@),
        ServerRequest::AddHatedInterest(x) => ser_str_msg(x@, MessageCode::HatedInterestAdd),
        ServerRequest::RemoveHatedInterest(x) => ser_str_msg(x@, MessageCode::HatedInterestRemove),
        ServerRequest::RoomSearch(x) => RoomSearchQuery::spec_bytes(x@),
        ServerRequest::SendUploadSpeed(x) => ser_u32_msg(*x, MessageCode::SendUploadSpeed),
        ServerRequest::GivePrivileges(x) => PrivilegesGift::spec_bytes(x@),
        ServerRequest::BranchLevel(x) => ser_u32_msg(*x, MessageCode::BranchLevel),
        ServerRequest::BranchRoot(x) => ser_str_msg(x@, MessageCode::BranchRoot),
        ServerRequest::ChildDepth(x) => ser_u32_msg(*x, MessageCode::ChildDepth),
        ServerRequest::AddUserToPrivateRoom(x) => UserRoomEvent::spec_bytes(x@, MessageCode::PrivateRoomAddUser),
        ServerRequest::RemoveUserFromPrivateRoom(x) => UserRoomEvent::spec_bytes(x@, MessageCode::PrivateRoomRemoveUser),
        ServerRequest::PrivateRoomDropMemberShip(x) => ser_str_msg(x@, MessageCode::PrivateRoomDropMembership),
        ServerRequest::PrivateRoomDropOwnerShip(x) => ser_str_msg(x@, MessageCode::PrivateRoomDropOwnership),
        ServerRequest::PrivateRoomUnknown(x) => ser_str_msg(x@, MessageCode::PrivateRoomUnknown),
        ServerRequest::PrivateRoomToggle(x) => ser_bool_msg(*x, MessageCode::PrivateRoomToggle),
        ServerRequest::NewPassWord(x) => ser_str_msg(x@, MessageCode::NewPassword),
        ServerRequest::PrivateRoomAddOperator(x) => UserRoomEvent::spec_bytes(x@, MessageCode::PrivateRoomAddOperator),
        ServerRequest::PrivateRoomRemoveOperator(x) => ser_str_msg(x@, MessageCode::PrivateRoomRemoveOperator),
        ServerRequest::MessageUsers(x) => GroupMessage::spec_bytes(x@),
        ServerRequest::EnablePublicChat => ser_empty_msg(MessageCode::AskPublicChat),
        ServerRequest::DisablePublicChat => ser_empty_msg(MessageCode::StopPublicChat),
        ServerRequest::CantConnectToPeer(x) => PeerConnectionTicket::spec_bytes(x@),
        ServerRequest::Unimplemented => Seq::empty(),
    }
}

/// Whether the length fields of a request fit in a `u32`, a connection
/// request names a connection type that has a code, and the request is not
/// `Unimplemented`, which has no wire form.
pub open spec fn spec_request_fits(r: &ServerRequest) -> bool {
    match r {
        ServerRequest::Login(x) => LoginRequest::spec_len(x@) <= u32::MAX,
        ServerRequest::SetListenPort(x) => true,
        ServerRequest::GetPeerAddress(x) => str_bytes(x@) + HEADER_LEN <= u32::MAX,
        ServerRequest::AddUser(x) => str_bytes(x@) + HEADER_LEN <= u32::MAX,
        ServerRequest::RemoveUser(x) => str_bytes(x@) + HEADER_LEN <= u32::MAX,
        ServerRequest::GetUserStatus(x) => str_bytes(x@) + HEADER_LEN <= u32::MAX,
        ServerRequest::SendChatMessage(x) => SayInChat::spec_len(x@) <= u32::MAX,
        ServerRequest::JoinRoom(x) => str_bytes(x@) + HEADER_LEN <= u32::MAX,
        ServerRequest::LeaveRoom(x) => str_bytes(x@) + HEADER_LEN <= u32::MAX,
        ServerRequest::ConnectToPeer(x) => x.connection_type != ConnectionType::HandShake && RequestConnectionToPeer::spec_len(x@) <= u32::MAX,
        ServerRequest::AcknowledgePrivateMessage(x) => true,
        ServerRequest::FileSearch(x) => SearchRequest::spec_len(x@) <= u32::MAX,
        ServerRequest::SetOnlineStatus(x) => true,
        ServerRequest::SharedFolderAndFiles(x) => true,
        ServerRequest::GetUserStats(x) => str_bytes(x@) + HEADER_LEN <= u32::MAX,
        ServerRequest::UserSearch(x) => SearchQuery::spec_len(x@) <= u32::MAX,
        ServerRequest::AddLinkedInterest(x) => str_bytes(x@) + HEADER_LEN <= u32::MAX,
        ServerRequest::RemoveLinkedInterest(x) => str_bytes(x@) + HEADER_LEN <= u32::MAX,
        ServerRequest::Recommendations => true,
        ServerRequest::GlobalRecommendations => true,
        ServerRequest::GetUserInterest(x) => str_bytes(x@) + HEADER_LEN <= u32::MAX,
        ServerRequest::AdminCommand(x) => AdminCommand::spec_len(x@) <= u32::MAX,
        ServerRequest::RoomList => true,
        ServerRequest::NoParents(x) => true,
        ServerRequest::CheckPrivileges => true,
        ServerRequest::AcceptChildren(x) => true,
        ServerRequest::WishlistSearch(x) => SearchRequest::spec_len(x@) <= u32::MAX,
        ServerRequest::GetSimilarUsers => true,
        ServerRequest::GetItemRecommendations(x) => str_bytes(x@) + HEADER_LEN <= u32::MAX,
        ServerRequest::GetItemSimilarUsers(x) => str_bytes(x@) + HEADER_LEN <= u32::MAX,
        ServerRequest::SetRoomTicker(x) => Ticker::spec_len(x@) <= u32::MAX,
        ServerRequest::AddHatedInterest(x) => str_bytes(x@) + HEADER_LEN <= u32::MAX,
        ServerRequest::RemoveHatedInterest(x) => str_bytes(x@) + HEADER_LEN <= u32::MAX,
        ServerRequest::RoomSearch(x) => RoomSearchQuery::spec_len(x@) <= u32::MAX,
        ServerRequest::SendUploadSpeed(x) => true,
        ServerRequest::GivePrivileges(x) => PrivilegesGift::spec_len(x@) <= u32::MAX,
        ServerRequest::BranchLevel(x) => true,
        ServerRequest::BranchRoot(x) => str_bytes(x@) + HEADER_LEN <= u32::MAX,
        ServerRequest::ChildDepth(x) => true,
        ServerRequest::AddUserToPrivateRoom(x) => UserRoomEvent::spec_len(x@) <= u32::MAX,
        ServerRequest::RemoveUserFromPrivateRoom(x) => UserRoomEvent::spec_len(x@) <= u32::MAX,
        ServerRequest::PrivateRoomDropMemberShip(x) => str_bytes(x@) + HEADER_LEN <= u32::MAX,
        ServerRequest::PrivateRoomDropOwnerShip(x) => str_bytes(x@) + HEADER_LEN <= u32::MAX,
        ServerRequest::PrivateRoomUnknown(x) => str_bytes(x@) + HEADER_LEN <= u32::MAX,
        ServerRequest::PrivateRoomToggle(x) => true,
        ServerRequest::NewPassWord(x) => str_bytes(x@) + HEADER_LEN <= u32::MAX,
        ServerRequest::PrivateRoomAddOperator(x) => UserRoomEvent::spec_len(x@) <= u32::MAX,
        ServerRequest::PrivateRoomRemoveOperator(x) => str_bytes(x@) + HEADER_LEN <= u32::MAX,
        ServerRequest::MessageUsers(x) => 4 + GroupMessage::spec_body(x@).len() <= u32::MAX,
        ServerRequest::EnablePublicChat => true,
        ServerRequest::DisablePublicChat => true,
        ServerRequest::CantConnectToPeer(x) => PeerConnectionTicket::spec_len(x@) <= u32::MAX,
        ServerRequest::Unimplemented => false,
    }
}

impl ServerRequest {
    /// Writes the request to the buffer.
    pub fn write_to_buf(&self, buffer: &mut Vec<u8>)
        requires
            spec_request_fits(self),
        ensures
            final(buffer)@ == old(buffer)@ + spec_request_bytes(self),
    {
        match self {
            ServerRequest::Login(x) => x.write_to_buf(buffer),
            ServerRequest::SetListenPort(x) => write_u32_msg(*x, MessageCode::SetListenPort, buffer),
            ServerRequest::GetPeerAddress(x) => write_str_msg(x.as_str(), MessageCode::GetPeerAddress, buffer),
            ServerRequest::AddUser(x) => write_str_msg(x.as_str(), MessageCode::AddUser, buffer),
            ServerRequest::RemoveUser(x) => write_str_msg(x.as_str(), MessageCode::RemoveUser, buffer),
            ServerRequest::GetUserStatus(x) => write_str_msg(x.as_str(), MessageCode::GetUserStatus, buffer),
            ServerRequest::SendChatMessage(x) => x.write_to_buf(buffer),
            ServerRequest::JoinRoom(x) => write_str_msg(x.as_str(), MessageCode::JoinRoom, buffer),
            ServerRequest::LeaveRoom(x) => write_str_msg(x.as_str(), MessageCode::LeaveRoom, buffer),
            ServerRequest::ConnectToPeer(x) => x.write_to_buf(buffer),
            ServerRequest::AcknowledgePrivateMessage(x) => write_u32_msg(*x, MessageCode::AcknowledgePrivateMessage, buffer),
            ServerRequest::FileSearch(x) => x.write_to_buf_with_code(buffer, MessageCode::FileSearch),
            ServerRequest::SetOnlineStatus(x) => write_u32_msg(*x, MessageCode::SetOnlineStatus, buffer),
            ServerRequest::SharedFolderAndFiles(x) => x.write_to_buf(buffer),
            ServerRequest::GetUserStats(x) => write_str_msg(x.as_str(), MessageCode::GetUserStats, buffer),
            ServerRequest::UserSearch(x) => x.write_to_buf(buffer),
            ServerRequest::AddLinkedInterest(x) => write_str_msg(x.as_str(), MessageCode::InterestAdd, buffer),
            ServerRequest::RemoveLinkedInterest(x) => write_str_msg(x.as_str(), MessageCode::InterestRemove, buffer),
            ServerRequest::Recommendations => write_empty_msg(MessageCode::GetRecommendations, buffer),
            ServerRequest::GlobalRecommendations => write_empty_msg(MessageCode::GetGlobalRecommendations, buffer),
            ServerRequest::GetUserInterest(x) => write_str_msg(x.as_str(), MessageCode::GetUserInterests, buffer),
            ServerRequest::AdminCommand(x) => x.write_to_buf(buffer),
            ServerRequest::RoomList => write_empty_msg(MessageCode::RoomList, buffer),
            ServerRequest::NoParents(x) => write_bool_msg(*x, MessageCode::HaveNoParents, buffer),
            ServerRequest::CheckPrivileges => write_empty_msg(MessageCode::CheckPrivileges, buffer),
            ServerRequest::AcceptChildren(x) => write_bool_msg(*x, MessageCode::AcceptChildren, buffer),
            ServerRequest::WishlistSearch(x) => x.write_to_buf_with_code(buffer, MessageCode::WishlistSearch),
            ServerRequest::GetSimilarUsers => write_empty_msg(MessageCode::GetSimilarUsers, buffer),
            ServerRequest::GetItemRecommendations(x) => write_str_msg(x.as_str(), MessageCode::GetItemRecommendations, buffer),
            ServerRequest::GetItemSimilarUsers(x) => write_str_msg(x.as_str(), MessageCode::GetItemSimilarUsers, buffer),
            ServerRequest::SetRoomTicker(x) => x.write_to_buf(buffer),
            ServerRequest::AddHatedInterest(x) => write_str_msg(x.as_str(), MessageCode::HatedInterestAdd, buffer),
            ServerRequest::RemoveHatedInterest(x) => write_str_msg(x.as_str(), MessageCode::HatedInterestRemove, buffer),
            ServerRequest::RoomSearch(x) => x.write_to_buf(buffer),
            ServerRequest::SendUploadSpeed(x) => write_u32_msg(*x, MessageCode::SendUploadSpeed, buffer),
            ServerRequest::GivePrivileges(x) => x.write_to_buf(buffer),
            ServerRequest::BranchLevel(x) => write_u32_msg(*x, MessageCode::BranchLevel, buffer),
            ServerRequest::BranchRoot(x) => write_str_msg(x.as_str(), MessageCode::BranchRoot, buffer),
            ServerRequest::ChildDepth(x) => write_u32_msg(*x, MessageCode::ChildDepth, buffer),
            ServerRequest::AddUserToPrivateRoom(x) => x.write_to_buf_with_code(buffer, MessageCode::PrivateRoomAddUser),
            ServerRequest::RemoveUserFromPrivateRoom(x) => x.write_to_buf_with_code(buffer, MessageCode::PrivateRoomRemoveUser),
            ServerRequest::PrivateRoomDropMemberShip(x) => write_str_msg(x.as_str(), MessageCode::PrivateRoomDropMembership, buffer),
            ServerRequest::PrivateRoomDropOwnerShip(x) => write_str_msg(x.as_str(), MessageCode::PrivateRoomDropOwnership, buffer),
            ServerRequest::PrivateRoomUnknown(x) => write_str_msg(x.as_str(), MessageCode::PrivateRoomUnknown, buffer),
            ServerRequest::PrivateRoomToggle(x) => write_bool_msg(*x, MessageCode::PrivateRoomToggle, buffer),
            ServerRequest::NewPassWord(x) => write_str_msg(x.as_str(), MessageCode::NewPassword, buffer),
            ServerRequest::PrivateRoomAddOperator(x) => x.write_to_buf_with_code(buffer, MessageCode::PrivateRoomAddOperator),
            ServerRequest::PrivateRoomRemoveOperator(x) => write_str_msg(x.as_str(), MessageCode::PrivateRoomRemoveOperator, buffer),
            ServerRequest::MessageUsers(x) => x.write_to_buf(buffer),
            ServerRequest::EnablePublicChat => write_empty_msg(MessageCode::AskPublicChat, buffer),
            ServerRequest::DisablePublicChat => write_empty_msg(MessageCode::StopPublicChat, buffer),
            ServerRequest::CantConnectToPeer(x) => x.write_to_buf(buffer),
            ServerRequest::Unimplemented => {},
        }
    }

    /// The bytes of the request.
    pub fn to_bytes(&self) -> (bytes: Vec<u8>)
        requires
            spec_request_fits(self),
        ensures
            bytes@ == spec_request_bytes(self),
    {
        let mut buffer: Vec<u8> = Vec::new();
        self.write_to_buf(&mut buffer);
        assert(buffer@ =~= spec_request_bytes(self));
        buffer
    }

    pub open spec fn spec_kind(&self) -> Seq<char> {
        match self {
            ServerRequest::Login(_) => "Login"@,
            ServerRequest::SetListenPort(_) => "SetListenPort"@,
            ServerRequest::GetPeerAddress(_) => "GetPeerAddress"@,
            ServerRequest::AddUser(_) => "AddUser"@,
            ServerRequest::RemoveUser(_) => "RemoveUser"@,
            ServerRequest::GetUserStatus(_) => "GetUserStatus"@,
            ServerRequest::SendChatMessage(_) => "SendChatMessage"@,
            ServerRequest::JoinRoom(_) => "JoinRoom"@,
            ServerRequest::LeaveRoom(_) => "LeaveRoom"@,
            ServerRequest::ConnectToPeer(_) => "ConnectToPeer"@,
            ServerRequest::AcknowledgePrivateMessage(_) => "AcknowledgePrivateMessage"@,
            ServerRequest::FileSearch(_) => "FileSearch"@,
            ServerRequest::SetOnlineStatus(_) => "SetOnlineStatus"@,
            ServerRequest::SharedFolderAndFiles(_) => "SharedFolderAndFiles"@,
            ServerRequest::GetUserStats(_) => "GetUserStats"@,
            ServerRequest::UserSearch(_) => "UserSearch"@,
            ServerRequest::AddLinkedInterest(_) => "AddLinkedInterest"@,
            ServerRequest::RemoveLinkedInterest(_) => "RemoveLinkedInterest"@,
            ServerRequest::Recommendations => "Recommendations"@,
            ServerRequest::GlobalRecommendations => "GlobalRecommendations"@,
            ServerRequest::GetUserInterest(_) => "GetUserInterest"@,
            ServerRequest::AdminCommand(_) => "AdminCommand"@,
            ServerRequest::RoomList => "RoomList"@,
            ServerRequest::NoParents(_) => "NoParent"@,
            ServerRequest::CheckPrivileges => "CheckPrivileges"@,
            ServerRequest::AcceptChildren(_) => "AcceptChildren"@,
            ServerRequest::WishlistSearch(_) => "WishlistSearch"@,
            ServerRequest::GetSimilarUsers => "GetSimilarUsers"@,
            ServerRequest::GetItemRecommendations(_) => "GetItemRecommendations"@,
            ServerRequest::GetItemSimilarUsers(_) => "GetItemSimilarUsers"@,
            ServerRequest::SetRoomTicker(_) => "SetRoomTicker"@,
            ServerRequest::AddHatedInterest(_) => "AddHatedInterest"@,
            ServerRequest::RemoveHatedInterest(_) => "RemoveHatedInterest"@,
            ServerRequest::RoomSearch(_) => "RoomSearch"@,
            ServerRequest::SendUploadSpeed(_) => "SendUploadSpeed"@,
            ServerRequest::GivePrivileges(_) => "GivePrivileges"@,
            ServerRequest::BranchLevel(_) => "BranchLevel"@,
            ServerRequest::BranchRoot(_) => "BranchRoot"@,
            ServerRequest::ChildDepth(_) => "ChildDepth"@,
            ServerRequest::AddUserToPrivateRoom(_) => "AddUserToPrivateRoom"@,
            ServerRequest::RemoveUserFromPrivateRoom(_) => "RemoveUserFromPrivateRoom"@,
            ServerRequest::PrivateRoomDropMemberShip(_) => "PrivateRoomDropMemberShip"@,
            ServerRequest::PrivateRoomDropOwnerShip(_) => "PrivateRoomDropOwnerShip"@,
            ServerRequest::PrivateRoomUnknown(_) => "PrivateRoomUnknown"@,
            ServerRequest::PrivateRoomToggle(_) => "PrivateRoomToggle"@,
            ServerRequest::NewPassWord(_) => "NewPassWord"@,
            ServerRequest::PrivateRoomAddOperator(_) => "PrivateRoomAddOperator"@,
            ServerRequest::PrivateRoomRemoveOperator(_) => "PrivateRoomRemoveOperator"@,
            ServerRequest::MessageUsers(_) => "MessageUsers"@,
            ServerRequest::EnablePublicChat => "EnablePublicChat"@,
            ServerRequest::DisablePublicChat => "DisablePublicChat"@,
            ServerRequest::CantConnectToPeer(_) => "CantConnectToPeer"@,
            ServerRequest::Unimplemented => "Unimplemented"@,
        }
    }

    /// Name of the request kind, for logging.
    pub fn kind(&self) -> (name: &str)
        ensures
            name@ == self.spec_kind(),
    {
        match self {
            ServerRequest::Login(_) => "Login",
            ServerRequest::SetListenPort(_) => "SetListenPort",
            ServerRequest::GetPeerAddress(_) => "GetPeerAddress",
            ServerRequest::AddUser(_) => "AddUser",
            ServerRequest::RemoveUser(_) => "RemoveUser",
            ServerRequest::GetUserStatus(_) => "GetUserStatus",
            ServerRequest::SendChatMessage(_) => "SendChatMessage",
            ServerRequest::JoinRoom(_) => "JoinRoom",
            ServerRequest::LeaveRoom(_) => "LeaveRoom",
            ServerRequest::ConnectToPeer(_) => "ConnectToPeer",
            ServerRequest::AcknowledgePrivateMessage(_) => "AcknowledgePrivateMessage",
            ServerRequest::FileSearch(_) => "FileSearch",
            ServerRequest::SetOnlineStatus(_) => "SetOnlineStatus",
            ServerRequest::SharedFolderAndFiles(_) => "SharedFolderAndFiles",
            ServerRequest::GetUserStats(_) => "GetUserStats",
            ServerRequest::UserSearch(_) => "UserSearch",
            ServerRequest::AddLinkedInterest(_) => "AddLinkedInterest",
            ServerRequest::RemoveLinkedInterest(_) => "RemoveLinkedInterest",
            ServerRequest::Recommendations => "Recommendations",
            ServerRequest::GlobalRecommendations => "GlobalRecommendations",
            ServerRequest::GetUserInterest(_) => "GetUserInterest",
            ServerRequest::AdminCommand(_) => "AdminCommand",
            ServerRequest::RoomList => "RoomList",
            ServerRequest::NoParents(_) => "NoParent",
            ServerRequest::CheckPrivileges => "CheckPrivileges",
            ServerRequest::AcceptChildren(_) => "AcceptChildren",
            ServerRequest::WishlistSearch(_) => "WishlistSearch",
            ServerRequest::GetSimilarUsers => "GetSimilarUsers",
            ServerRequest::GetItemRecommendations(_) => "GetItemRecommendations",
            ServerRequest::GetItemSimilarUsers(_) => "GetItemSimilarUsers",
            ServerRequest::SetRoomTicker(_) => "SetRoomTicker",
            ServerRequest::AddHatedInterest(_) => "AddHatedInterest",
            ServerRequest::RemoveHatedInterest(_) => "RemoveHatedInterest",
            ServerRequest::RoomSearch(_) => "RoomSearch",
            ServerRequest::SendUploadSpeed(_) => "SendUploadSpeed",
            ServerRequest::GivePrivileges(_) => "GivePrivileges",
            ServerRequest::BranchLevel(_) => "BranchLevel",
            ServerRequest::BranchRoot(_) => "BranchRoot",
            ServerRequest::ChildDepth(_) => "ChildDepth",
            ServerRequest::AddUserToPrivateRoom(_) => "AddUserToPrivateRoom",
            ServerRequest::RemoveUserFromPrivateRoom(_) => "RemoveUserFromPrivateRoom",
            ServerRequest::PrivateRoomDropMemberShip(_) => "PrivateRoomDropMemberShip",
            ServerRequest::PrivateRoomDropOwnerShip(_) => "PrivateRoomDropOwnerShip",
            ServerRequest::PrivateRoomUnknown(_) => "PrivateRoomUnknown",
            ServerRequest::PrivateRoomToggle(_) => "PrivateRoomToggle",
            ServerRequest::NewPassWord(_) => "NewPassWord",
            ServerRequest::PrivateRoomAddOperator(_) => "PrivateRoomAddOperator",
            ServerRequest::PrivateRoomRemoveOperator(_) => "PrivateRoomRemoveOperator",
            ServerRequest::MessageUsers(_) => "MessageUsers",
            ServerRequest::EnablePublicChat => "EnablePublicChat",
            ServerRequest::DisablePublicChat => "DisablePublicChat",
            ServerRequest::CantConnectToPeer(_) => "CantConnectToPeer",
            ServerRequest::Unimplemented => "Unimplemented",
        }
    }
}

/// The position of a request's variant in the declaration of
/// [`ServerRequest`], whatever the variant holds.
pub open spec fn request_variant(r: &ServerRequest) -> int {
    match r {
        ServerRequest::Login(_) => 0,
        ServerRequest::SetListenPort(_) => 1,
        ServerRequest::GetPeerAddress(_) => 2,
        ServerRequest::AddUser(_) => 3,
        ServerRequest::RemoveUser(_) => 4,
        ServerRequest::GetUserStatus(_) => 5,
        ServerRequest::SendChatMessage(_) => 6,
        ServerRequest::JoinRoom(_) => 7,
        ServerRequest::LeaveRoom(_) => 8,
        ServerRequest::ConnectToPeer(_) => 9,
        ServerRequest::AcknowledgePrivateMessage(_) => 10,
        ServerRequest::FileSearch(_) => 11,
        ServerRequest::SetOnlineStatus(_) => 12,
        ServerRequest::SharedFolderAndFiles(_) => 13,
        ServerRequest::GetUserStats(_) => 14,
        ServerRequest::UserSearch(_) => 15,
        ServerRequest::AddLinkedInterest(_) => 16,
        ServerRequest::RemoveLinkedInterest(_) => 17,
        ServerRequest::Recommendations => 18,
        ServerRequest::GlobalRecommendations => 19,
        ServerRequest::GetUserInterest(_) => 20,
        ServerRequest::AdminCommand(_) => 21,
        ServerRequest::RoomList => 22,
        ServerRequest::NoParents(_) => 23,
        ServerRequest::CheckPrivileges => 24,
        ServerRequest::AcceptChildren(_) => 25,
        ServerRequest::WishlistSearch(_) => 26,
        ServerRequest::GetSimilarUsers => 27,
        ServerRequest::GetItemRecommendations(_) => 28,
        ServerRequest::GetItemSimilarUsers(_) => 29,
        ServerRequest::SetRoomTicker(_) => 30,
        ServerRequest::AddHatedInterest(_) => 31,
        ServerRequest::RemoveHatedInterest(_) => 32,
        ServerRequest::RoomSearch(_) => 33,
        ServerRequest::SendUploadSpeed(_) => 34,
        ServerRequest::GivePrivileges(_) => 35,
        ServerRequest::BranchLevel(_) => 36,
        ServerRequest::BranchRoot(_) => 37,
        ServerRequest::ChildDepth(_) => 38,
        ServerRequest::AddUserToPrivateRoom(_) => 39,
        ServerRequest::RemoveUserFromPrivateRoom(_) => 40,
        ServerRequest::PrivateRoomDropMemberShip(_) => 41,
        ServerRequest::PrivateRoomDropOwnerShip(_) => 42,
        ServerRequest::PrivateRoomUnknown(_) => 43,
        ServerRequest::PrivateRoomToggle(_) => 44,
        ServerRequest::NewPassWord(_) => 45,
        ServerRequest::PrivateRoomAddOperator(_) => 46,
        ServerRequest::PrivateRoomRemoveOperator(_) => 47,
        ServerRequest::MessageUsers(_) => 48,
        ServerRequest::EnablePublicChat => 49,
        ServerRequest::DisablePublicChat => 50,
        ServerRequest::CantConnectToPeer(_) => 51,
        ServerRequest::Unimplemented => 52,
    }
}

/// The name of the variant at position `i`.
pub open spec fn request_kind_name(i: int) -> Seq<char> {
    if i == 0 {
        "Login"@
    } else if i == 1 {
        "SetListenPort"@
    } else if i == 2 {
        "GetPeerAddress"@
    } else if i == 3 {
        "AddUser"@
    } else if i == 4 {
        "RemoveUser"@
    } else if i == 5 {
        "GetUserStatus"@
    } else if i == 6 {
        "SendChatMessage"@
    } else if i == 7 {
        "JoinRoom"@
    } else if i == 8 {
        "LeaveRoom"@
    } else if i == 9 {
        "ConnectToPeer"@
    } else if i == 10 {
        "AcknowledgePrivateMessage"@
    } else if i == 11 {
        "FileSearch"@
    } else if i == 12 {
        "SetOnlineStatus"@
    } else if i == 13 {
        "SharedFolderAndFiles"@
    } else if i == 14 {
        "GetUserStats"@
    } else if i == 15 {
        "UserSearch"@
    } else if i == 16 {
        "AddLinkedInterest"@
    } else if i == 17 {
        "RemoveLinkedInterest"@
    } else if i == 18 {
        "Recommendations"@
    } else if i == 19 {
        "GlobalRecommendations"@
    } else if i == 20 {
        "GetUserInterest"@
    } else if i == 21 {
        "AdminCommand"@
    } else if i == 22 {
        "RoomList"@
    } else if i == 23 {
        "NoParent"@
    } else if i == 24 {
        "CheckPrivileges"@
    } else if i == 25 {
        "AcceptChildren"@
    } else if i == 26 {
        "WishlistSearch"@
    } else if i == 27 {
        "GetSimilarUsers"@
    } else if i == 28 {
        "GetItemRecommendations"@
    } else if i == 29 {
        "GetItemSimilarUsers"@
    } else if i == 30 {
        "SetRoomTicker"@
    } else if i == 31 {
        "AddHatedInterest"@
    } else if i == 32 {
        "RemoveHatedInterest"@
    } else if i == 33 {
        "RoomSearch"@
    } else if i == 34 {
        "SendUploadSpeed"@
    } else if i == 35 {
        "GivePrivileges"@
    } else if i == 36 {
        "BranchLevel"@
    } else if i == 37 {
        "BranchRoot"@
    } else if i == 38 {
        "ChildDepth"@
    } else if i == 39 {
        "AddUserToPrivateRoom"@
    } else if i == 40 {
        "RemoveUserFromPrivateRoom"@
    } else if i == 41 {
        "PrivateRoomDropMemberShip"@
    } else if i == 42 {
        "PrivateRoomDropOwnerShip"@
    } else if i == 43 {
        "PrivateRoomUnknown"@
    } else if i == 44 {
        "PrivateRoomToggle"@
    } else if i == 45 {
        "NewPassWord"@
    } else if i == 46 {
        "PrivateRoomAddOperator"@
    } else if i == 47 {
        "PrivateRoomRemoveOperator"@
    } else if i == 48 {
        "MessageUsers"@
    } else if i == 49 {
        "EnablePublicChat"@
    } else if i == 50 {
        "DisablePublicChat"@
    } else if i == 51 {
        "CantConnectToPeer"@
    } else if i == 52 {
        "Unimplemented"@
    } else {
        Seq::empty()
    }
}

/// The position of the variant whose name is `name`, told apart by its
/// length and three of its characters; -1 for any other text.
spec fn request_kind_position(name: Seq<char>) -> int {
    if name.len() == 5 && name[0] == 'L' && name[name.len() - 1] == 'n' && name[name.len() - 2] == 'i' {
        0
    } else if name.len() == 13 && name[0] == 'S' && name[name.len() - 1] == 't' && name[name.len() - 2] == 'r' {
        1
    } else if name.len() == 14 && name[0] == 'G' && name[name.len() - 1] == 's' && name[name.len() - 2] == 's' {
        2
    } else if name.len() == 7 && name[0] == 'A' && name[name.len() - 1] == 'r' && name[name.len() - 2] == 'e' {
        3
    } else if name.len() == 10 && name[0] == 'R' && name[name.len() - 1] == 'r' && name[name.len() - 2] == 'e' {
        4
    } else if name.len() == 13 && name[0] == 'G' && name[name.len() - 1] == 's' && name[name.len() - 2] == 'u' {
        5
    } else if name.len() == 15 && name[0] == 'S' && name[name.len() - 1] == 'e' && name[name.len() - 2] == 'g' {
        6
    } else if name.len() == 8 && name[0] == 'J' && name[name.len() - 1] == 'm' && name[name.len() - 2] == 'o' {
        7
    } else if name.len() == 9 && name[0] == 'L' && name[name.len() - 1] == 'm' && name[name.len() - 2] == 'o' {
        8
    } else if name.len() == 13 && name[0] == 'C' && name[name.len() - 1] == 'r' && name[name.len() - 2] == 'e' {
        9
    } else if name.len() == 25 && name[0] == 'A' && name[name.len() - 1] == 'e' && name[name.len() - 2] == 'g' {
        10
    } else if name.len() == 10 && name[0] == 'F' && name[name.len() - 1] == 'h' && name[name.len() - 2] == 'c' {
        11
    } else if name.len() == 15 && name[0] == 'S' && name[name.len() - 1] == 's' && name[name.len() - 2] == 'u' {
        12
    } else if name.len() == 20 && name[0] == 'S' && name[name.len() - 1] == 's' && name[name.len() - 2] == 'e' {
        13
    } else if name.len() == 12 && name[0] == 'G' && name[name.len() - 1] == 's' && name[name.len() - 2] == 't' {
        14
    } else if name.len() == 10 && name[0] == 'U' && name[name.len() - 1] == 'h' && name[name.len() - 2] == 'c' {
        15
    } else if name.len() == 17 && name[0] == 'A' && name[name.len() - 1] == 't' && name[name.len() - 2] == 's' {
        16
    } else if name.len() == 20 && name[0] == 'R' && name[name.len() - 1] == 't' && name[name.len() - 2] == 's' {
        17
    } else if name.len() == 15 && name[0] == 'R' && name[name.len() - 1] == 's' && name[name.len() - 2] == 'n' {
        18
    } else if name.len() == 21 && name[0] == 'G' && name[name.len() - 1] == 's' && name[name.len() - 2] == 'n' {
        19
    } else if name.len() == 15 && name[0] == 'G' && name[name.len() - 1] == 't' && name[name.len() - 2] == 's' {
        20
    } else if name.len() == 12 && name[0] == 'A' && name[name.len() - 1] == 'd' && name[name.len() - 2] == 'n' {
        21
    } else if name.len() == 8 && name[0] == 'R' && name[name.len() - 1] == 't' && name[name.len() - 2] == 's' {
        22
    } else if name.len() == 8 && name[0] == 'N' && name[name.len() - 1] == 't' && name[name.len() - 2] == 'n' {
        23
    } else if name.len() == 15 && name[0] == 'C' && name[name.len() - 1] == 's' && name[name.len() - 2] == 'e' {
        24
    } else if name.len() == 14 && name[0] == 'A' && name[name.len() - 1] == 'n' && name[name.len() - 2] == 'e' {
        25
    } else if name.len() == 14 && name[0] == 'W' && name[name.len() - 1] == 'h' && name[name.len() - 2] == 'c' {
        26
    } else if name.len() == 15 && name[0] == 'G' && name[name.len() - 1] == 's' && name[name.len() - 2] == 'r' {
        27
    } else if name.len() == 22 && name[0] == 'G' && name[name.len() - 1] == 's' && name[name.len() - 2] == 'n' {
        28
    } else if name.len() == 19 && name[0] == 'G' && name[name.len() - 1] == 's' && name[name.len() - 2] == 'r' {
        29
    } else if name.len() == 13 && name[0] == 'S' && name[name.len() - 1] == 'r' && name[name.len() - 2] == 'e' {
        30
    } else if name.len() == 16 && name[0] == 'A' && name[name.len() - 1] == 't' && name[name.len() - 2] == 's' {
        31
    } else if name.len() == 19 && name[0] == 'R' && name[name.len() - 1] == 't' && name[name.len() - 2] == 's' {
        32
    } else if name.len() == 10 && name[0] == 'R' && name[name.len() - 1] == 'h' && name[name.len() - 2] == 'c' {
        33
    } else if name.len() == 15 && name[0] == 'S' && name[name.len() - 1] == 'd' && name[name.len() - 2] == 'e' {
        34
    } else if name.len() == 14 && name[0] == 'G' && name[name.len() - 1] == 's' && name[name.len() - 2] == 'e' {
        35
    } else if name.len() == 11 && name[0] == 'B' && name[name.len() - 1] == 'l' && name[name.len() - 2] == 'e' {
        36
    } else if name.len() == 10 && name[0] == 'B' && name[name.len() - 1] == 't' && name[name.len() - 2] == 'o' {
        37
    } else if name.len() == 10 && name[0] == 'C' && name[name.len() - 1] == 'h' && name[name.len() - 2] == 't' {
        38
    } else if name.len() == 20 && name[0] == 'A' && name[name.len() - 1] == 'm' && name[name.len() - 2] == 'o' {
        39
    } else if name.len() == 25 && name[0] == 'R' && name[name.len() - 1] == 'm' && name[name.len() - 2] == 'o' {
        40
    } else if name.len() == 25 && name[0] == 'P' && name[name.len() - 1] == 'p' && name[name.len() - 2] == 'i' {
        41
    } else if name.len() == 24 && name[0] == 'P' && name[name.len() - 1] == 'p' && name[name.len() - 2] == 'i' {
        42
    } else if name.len() == 18 && name[0] == 'P' && name[name.len() - 1] == 'n' && name[name.len() - 2] == 'w' {
        43
    } else if name.len() == 17 && name[0] == 'P' && name[name.len() - 1] == 'e' && name[name.len() - 2] == 'l' {
        44
    } else if name.len() == 11 && name[0] == 'N' && name[name.len() - 1] == 'd' && name[name.len() - 2] == 'r' {
        45
    } else if name.len() == 22 && name[0] == 'P' && name[name.len() - 1] == 'r' && name[name.len() - 2] == 'o' {
        46
    } else if name.len() == 25 && name[0] == 'P' && name[name.len() - 1] == 'r' && name[name.len() - 2] == 'o' {
        47
    } else if name.len() == 12 && name[0] == 'M' && name[name.len() - 1] == 's' && name[name.len() - 2] == 'r' {
        48
    } else if name.len() == 16 && name[0] == 'E' && name[name.len() - 1] == 't' && name[name.len() - 2] == 'a' {
        49
    } else if name.len() == 17 && name[0] == 'D' && name[name.len() - 1] == 't' && name[name.len() - 2] == 'a' {
        50
    } else if name.len() == 17 && name[0] == 'C' && name[name.len() - 1] == 'r' && name[name.len() - 2] == 'e' {
        51
    } else if name.len() == 13 && name[0] == 'U' && name[name.len() - 1] == 'd' && name[name.len() - 2] == 'e' {
        52
    } else {
        -1
    }
}

proof fn lemma_request_kind_position(r: &ServerRequest)
    ensures
        r.spec_kind() == request_kind_name(request_variant(r)),
        request_kind_position(r.spec_kind()) == request_variant(r),
{
    match r {
        ServerRequest::Login(_) => {
            reveal_strlit("Login");
        },
        ServerRequest::SetListenPort(_) => {
            reveal_strlit("SetListenPort");
        },
        ServerRequest::GetPeerAddress(_) => {
            reveal_strlit("GetPeerAddress");
        },
        ServerRequest::AddUser(_) => {
            reveal_strlit("AddUser");
        },
        ServerRequest::RemoveUser(_) => {
            reveal_strlit("RemoveUser");
        },
        ServerRequest::GetUserStatus(_) => {
            reveal_strlit("GetUserStatus");
        },
        ServerRequest::SendChatMessage(_) => {
            reveal_strlit("SendChatMessage");
        },
        ServerRequest::JoinRoom(_) => {
            reveal_strlit("JoinRoom");
        },
        ServerRequest::LeaveRoom(_) => {
            reveal_strlit("LeaveRoom");
        },
        ServerRequest::ConnectToPeer(_) => {
            reveal_strlit("ConnectToPeer");
        },
        ServerRequest::AcknowledgePrivateMessage(_) => {
            reveal_strlit("AcknowledgePrivateMessage");
        },
        ServerRequest::FileSearch(_) => {
            reveal_strlit("FileSearch");
        },
        ServerRequest::SetOnlineStatus(_) => {
            reveal_strlit("SetOnlineStatus");
        },
        ServerRequest::SharedFolderAndFiles(_) => {
            reveal_strlit("SharedFolderAndFiles");
        },
        ServerRequest::GetUserStats(_) => {
            reveal_strlit("GetUserStats");
        },
        ServerRequest::UserSearch(_) => {
            reveal_strlit("UserSearch");
        },
        ServerRequest::AddLinkedInterest(_) => {
            reveal_strlit("AddLinkedInterest");
        },
        ServerRequest::RemoveLinkedInterest(_) => {
            reveal_strlit("RemoveLinkedInterest");
        },
        ServerRequest::Recommendations => {
            reveal_strlit("Recommendations");
        },
        ServerRequest::GlobalRecommendations => {
            reveal_strlit("GlobalRecommendations");
        },
        ServerRequest::GetUserInterest(_) => {
            reveal_strlit("GetUserInterest");
        },
        ServerRequest::AdminCommand(_) => {
            reveal_strlit("AdminCommand");
        },
        ServerRequest::RoomList => {
            reveal_strlit("RoomList");
        },
        ServerRequest::NoParents(_) => {
            reveal_strlit("NoParent");
        },
        ServerRequest::CheckPrivileges => {
            reveal_strlit("CheckPrivileges");
        },
        ServerRequest::AcceptChildren(_) => {
            reveal_strlit("AcceptChildren");
        },
        ServerRequest::WishlistSearch(_) => {
            reveal_strlit("WishlistSearch");
        },
        ServerRequest::GetSimilarUsers => {
            reveal_strlit("GetSimilarUsers");
        },
        ServerRequest::GetItemRecommendations(_) => {
            reveal_strlit("GetItemRecommendations");
        },
        ServerRequest::GetItemSimilarUsers(_) => {
            reveal_strlit("GetItemSimilarUsers");
        },
        ServerRequest::SetRoomTicker(_) => {
            reveal_strlit("SetRoomTicker");
        },
        ServerRequest::AddHatedInterest(_) => {
            reveal_strlit("AddHatedInterest");
        },
        ServerRequest::RemoveHatedInterest(_) => {
            reveal_strlit("RemoveHatedInterest");
        },
        ServerRequest::RoomSearch(_) => {
            reveal_strlit("RoomSearch");
        },
        ServerRequest::SendUploadSpeed(_) => {
            reveal_strlit("SendUploadSpeed");
        },
        ServerRequest::GivePrivileges(_) => {
            reveal_strlit("GivePrivileges");
        },
        ServerRequest::BranchLevel(_) => {
            reveal_strlit("BranchLevel");
        },
        ServerRequest::BranchRoot(_) => {
            reveal_strlit("BranchRoot");
        },
        ServerRequest::ChildDepth(_) => {
            reveal_strlit("ChildDepth");
        },
        ServerRequest::AddUserToPrivateRoom(_) => {
            reveal_strlit("AddUserToPrivateRoom");
        },
        ServerRequest::RemoveUserFromPrivateRoom(_) => {
            reveal_strlit("RemoveUserFromPrivateRoom");
        },
        ServerRequest::PrivateRoomDropMemberShip(_) => {
            reveal_strlit("PrivateRoomDropMemberShip");
        },
        ServerRequest::PrivateRoomDropOwnerShip(_) => {
            reveal_strlit("PrivateRoomDropOwnerShip");
        },
        ServerRequest::PrivateRoomUnknown(_) => {
            reveal_strlit("PrivateRoomUnknown");
        },
        ServerRequest::PrivateRoomToggle(_) => {
            reveal_strlit("PrivateRoomToggle");
        },
        ServerRequest::NewPassWord(_) => {
            reveal_strlit("NewPassWord");
        },
        ServerRequest::PrivateRoomAddOperator(_) => {
            reveal_strlit("PrivateRoomAddOperator");
        },
        ServerRequest::PrivateRoomRemoveOperator(_) => {
            reveal_strlit("PrivateRoomRemoveOperator");
        },
        ServerRequest::MessageUsers(_) => {
            reveal_strlit("MessageUsers");
        },
        ServerRequest::EnablePublicChat => {
            reveal_strlit("EnablePublicChat");
        },
        ServerRequest::DisablePublicChat => {
            reveal_strlit("DisablePublicChat");
        },
        ServerRequest::CantConnectToPeer(_) => {
            reveal_strlit("CantConnectToPeer");
        },
        ServerRequest::Unimplemented => {
            reveal_strlit("Unimplemented");
        },
    }
}

/// Two requests have the same kind exactly when they are the same variant:
/// `kind` names each variant apart and ignores what the variant holds.
pub proof fn lemma_request_kind_injective(a: &ServerRequest, b: &ServerRequest)
    ensures
        (a.spec_kind() == b.spec_kind()) <==> (request_variant(a) == request_variant(b)),
        a.spec_kind().len() > 0,
{
    lemma_request_kind_position(a);
    lemma_request_kind_position(b);
}

/// Bytes whose first four hold, little-endian, the number of bytes that
/// follow them.
pub open spec fn length_prefixed(b: Seq<u8>) -> bool {
    b.len() >= 8 && spec_u32_from_le_bytes(b.subrange(0, 4)) == b.len() - 4
}

/// Bytes that start with the length field `len`, which counts the bytes
/// after it.
proof fn lemma_header_prefix(b: Seq<u8>, len: u32)
    requires
        b.len() >= 8,
        b.subrange(0, 4) == le32(len),
        len == b.len() - 4,
    ensures
        length_prefixed(b),
{
    crate::frame::lemma_le32(len);
}

/// The length field of every request that can be written counts the bytes
/// that follow it: the code and the body.
#[verifier::spinoff_prover]
#[verifier::rlimit(50)]
pub proof fn lemma_request_length_prefix(r: &ServerRequest)
    requires
        spec_request_fits(r),
    ensures
        length_prefixed(spec_request_bytes(r)),
{
    broadcast use crate::frame::group_wire_lemmas;

    let b = spec_request_bytes(r);
    match r {
        ServerRequest::Login(x) => {
            assert(b.subrange(0, 4) =~= le32(LoginRequest::spec_len(x@) as u32));
            lemma_header_prefix(b, LoginRequest::spec_len(x@) as u32);
        },
        ServerRequest::SetListenPort(x) => {
            assert(b.subrange(0, 4) =~= le32(HEADER_LEN));
            lemma_header_prefix(b, HEADER_LEN);
        },
        ServerRequest::GetPeerAddress(x) => {
            assert(b.subrange(0, 4) =~= le32((str_bytes(x@) + HEADER_LEN) as u32));
            lemma_header_prefix(b, (str_bytes(x@) + HEADER_LEN) as u32);
        },
        ServerRequest::AddUser(x) => {
            assert(b.subrange(0, 4) =~= le32((str_bytes(x@) + HEADER_LEN) as u32));
            lemma_header_prefix(b, (str_bytes(x@) + HEADER_LEN) as u32);
        },
        ServerRequest::RemoveUser(x) => {
            assert(b.subrange(0, 4) =~= le32((str_bytes(x@) + HEADER_LEN) as u32));
            lemma_header_prefix(b, (str_bytes(x@) + HEADER_LEN) as u32);
        },
        ServerRequest::GetUserStatus(x) => {
            assert(b.subrange(0, 4) =~= le32((str_bytes(x@) + HEADER_LEN) as u32));
            lemma_header_prefix(b, (str_bytes(x@) + HEADER_LEN) as u32);
        },
        ServerRequest::SendChatMessage(x) => {
            assert(b.subrange(0, 4) =~= le32(SayInChat::spec_len(x@) as u32));
            lemma_header_prefix(b, SayInChat::spec_len(x@) as u32);
        },
        ServerRequest::JoinRoom(x) => {
            assert(b.subrange(0, 4) =~= le32((str_bytes(x@) + HEADER_LEN) as u32));
            lemma_header_prefix(b, (str_bytes(x@) + HEADER_LEN) as u32);
        },
        ServerRequest::LeaveRoom(x) => {
            assert(b.subrange(0, 4) =~= le32((str_bytes(x@) + HEADER_LEN) as u32));
            lemma_header_prefix(b, (str_bytes(x@) + HEADER_LEN) as u32);
        },
        ServerRequest::ConnectToPeer(x) => {
            assert(b.subrange(0, 4) =~= le32(RequestConnectionToPeer::spec_len(x@) as u32));
            lemma_header_prefix(b, RequestConnectionToPeer::spec_len(x@) as u32);
        },
        ServerRequest::AcknowledgePrivateMessage(x) => {
            assert(b.subrange(0, 4) =~= le32(HEADER_LEN));
            lemma_header_prefix(b, HEADER_LEN);
        },
        ServerRequest::FileSearch(x) => {
            assert(b.subrange(0, 4) =~= le32(SearchRequest::spec_len(x@) as u32));
            lemma_header_prefix(b, SearchRequest::spec_len(x@) as u32);
        },
        ServerRequest::SetOnlineStatus(x) => {
            assert(b.subrange(0, 4) =~= le32(HEADER_LEN));
            lemma_header_prefix(b, HEADER_LEN);
        },
        ServerRequest::SharedFolderAndFiles(x) => {
            assert(b.subrange(0, 4) =~= le32(12));
            lemma_header_prefix(b, 12);
        },
        ServerRequest::GetUserStats(x) => {
            assert(b.subrange(0, 4) =~= le32((str_bytes(x@) + HEADER_LEN) as u32));
            lemma_header_prefix(b, (str_bytes(x@) + HEADER_LEN) as u32);
        },
        ServerRequest::UserSearch(x) => {
            assert(b.subrange(0, 4) =~= le32(SearchQuery::spec_len(x@) as u32));
            lemma_header_prefix(b, SearchQuery::spec_len(x@) as u32);
        },
        ServerRequest::AddLinkedInterest(x) => {
            assert(b.subrange(0, 4) =~= le32((str_bytes(x@) + HEADER_LEN) as u32));
            lemma_header_prefix(b, (str_bytes(x@) + HEADER_LEN) as u32);
        },
        ServerRequest::RemoveLinkedInterest(x) => {
            assert(b.subrange(0, 4) =~= le32((str_bytes(x@) + HEADER_LEN) as u32));
            lemma_header_prefix(b, (str_bytes(x@) + HEADER_LEN) as u32);
        },
        ServerRequest::Recommendations => {
            assert(b.subrange(0, 4) =~= le32(4));
            lemma_header_prefix(b, 4);
        },
        ServerRequest::GlobalRecommendations => {
            assert(b.subrange(0, 4) =~= le32(4));
            lemma_header_prefix(b, 4);
        },
        ServerRequest::GetUserInterest(x) => {
            assert(b.subrange(0, 4) =~= le32((str_bytes(x@) + HEADER_LEN) as u32));
            lemma_header_prefix(b, (str_bytes(x@) + HEADER_LEN) as u32);
        },
        ServerRequest::AdminCommand(x) => {
            crate::server::admin::lemma_admin_command_len(x@);
            assert(b.subrange(0, 4) =~= le32(AdminCommand::spec_len(x@) as u32));
            lemma_header_prefix(b, AdminCommand::spec_len(x@) as u32);
        },
        ServerRequest::RoomList => {
            assert(b.subrange(0, 4) =~= le32(4));
            lemma_header_prefix(b, 4);
        },
        ServerRequest::NoParents(x) => {
            assert(b.subrange(0, 4) =~= le32(5));
            lemma_header_prefix(b, 5);
        },
        ServerRequest::CheckPrivileges => {
            assert(b.subrange(0, 4) =~= le32(4));
            lemma_header_prefix(b, 4);
        },
        ServerRequest::AcceptChildren(x) => {
            assert(b.subrange(0, 4) =~= le32(5));
            lemma_header_prefix(b, 5);
        },
        ServerRequest::WishlistSearch(x) => {
            assert(b.subrange(0, 4) =~= le32(SearchRequest::spec_len(x@) as u32));
            lemma_header_prefix(b, SearchRequest::spec_len(x@) as u32);
        },
        ServerRequest::GetSimilarUsers => {
            assert(b.subrange(0, 4) =~= le32(4));
            lemma_header_prefix(b, 4);
        },
        ServerRequest::GetItemRecommendations(x) => {
            assert(b.subrange(0, 4) =~= le32((str_bytes(x@) + HEADER_LEN) as u32));
            lemma_header_prefix(b, (str_bytes(x@) + HEADER_LEN) as u32);
        },
        ServerRequest::GetItemSimilarUsers(x) => {
            assert(b.subrange(0, 4) =~= le32((str_bytes(x@) + HEADER_LEN) as u32));
            lemma_header_prefix(b, (str_bytes(x@) + HEADER_LEN) as u32);
        },
        ServerRequest::SetRoomTicker(x) => {
            assert(b.subrange(0, 4) =~= le32(Ticker::spec_len(x@) as u32));
            lemma_header_prefix(b, Ticker::spec_len(x@) as u32);
        },
        ServerRequest::AddHatedInterest(x) => {
            assert(b.subrange(0, 4) =~= le32((str_bytes(x@) + HEADER_LEN) as u32));
            lemma_header_prefix(b, (str_bytes(x@) + HEADER_LEN) as u32);
        },
        ServerRequest::RemoveHatedInterest(x) => {
            assert(b.subrange(0, 4) =~= le32((str_bytes(x@) + HEADER_LEN) as u32));
            lemma_header_prefix(b, (str_bytes(x@) + HEADER_LEN) as u32);
        },
        ServerRequest::RoomSearch(x) => {
            assert(b.subrange(0, 4) =~= le32(RoomSearchQuery::spec_len(x@) as u32));
            lemma_header_prefix(b, RoomSearchQuery::spec_len(x@) as u32);
        },
        ServerRequest::SendUploadSpeed(x) => {
            assert(b.subrange(0, 4) =~= le32(HEADER_LEN));
            lemma_header_prefix(b, HEADER_LEN);
        },
        ServerRequest::GivePrivileges(x) => {
            assert(b.subrange(0, 4) =~= le32(PrivilegesGift::spec_len(x@) as u32));
            lemma_header_prefix(b, PrivilegesGift::spec_len(x@) as u32);
        },
        ServerRequest::BranchLevel(x) => {
            assert(b.subrange(0, 4) =~= le32(HEADER_LEN));
            lemma_header_prefix(b, HEADER_LEN);
        },
        ServerRequest::BranchRoot(x) => {
            assert(b.subrange(0, 4) =~= le32((str_bytes(x@) + HEADER_LEN) as u32));
            lemma_header_prefix(b, (str_bytes(x@) + HEADER_LEN) as u32);
        },
        ServerRequest::ChildDepth(x) => {
            assert(b.subrange(0, 4) =~= le32(HEADER_LEN));
            lemma_header_prefix(b, HEADER_LEN);
        },
        ServerRequest::AddUserToPrivateRoom(x) => {
            assert(b.subrange(0, 4) =~= le32(UserRoomEvent::spec_len(x@) as u32));
            lemma_header_prefix(b, UserRoomEvent::spec_len(x@) as u32);
        },
        ServerRequest::RemoveUserFromPrivateRoom(x) => {
            assert(b.subrange(0, 4) =~= le32(UserRoomEvent::spec_len(x@) as u32));
            lemma_header_prefix(b, UserRoomEvent::spec_len(x@) as u32);
        },
        ServerRequest::PrivateRoomDropMemberShip(x) => {
            assert(b.subrange(0, 4) =~= le32((str_bytes(x@) + HEADER_LEN) as u32));
            lemma_header_prefix(b, (str_bytes(x@) + HEADER_LEN) as u32);
        },
        ServerRequest::PrivateRoomDropOwnerShip(x) => {
            assert(b.subrange(0, 4) =~= le32((str_bytes(x@) + HEADER_LEN) as u32));
            lemma_header_prefix(b, (str_bytes(x@) + HEADER_LEN) as u32);
        },
        ServerRequest::PrivateRoomUnknown(x) => {
            assert(b.subrange(0, 4) =~= le32((str_bytes(x@) + HEADER_LEN) as u32));
            lemma_header_prefix(b, (str_bytes(x@) + HEADER_LEN) as u32);
        },
        ServerRequest::PrivateRoomToggle(x) => {
            assert(b.subrange(0, 4) =~= le32(5));
            lemma_header_prefix(b, 5);
        },
        ServerRequest::NewPassWord(x) => {
            assert(b.subrange(0, 4) =~= le32((str_bytes(x@) + HEADER_LEN) as u32));
            lemma_header_prefix(b, (str_bytes(x@) + HEADER_LEN) as u32);
        },
        ServerRequest::PrivateRoomAddOperator(x) => {
            assert(b.subrange(0, 4) =~= le32(UserRoomEvent::spec_len(x@) as u32));
            lemma_header_prefix(b, UserRoomEvent::spec_len(x@) as u32);
        },
        ServerRequest::PrivateRoomRemoveOperator(x) => {
            assert(b.subrange(0, 4) =~= le32((str_bytes(x@) + HEADER_LEN) as u32));
            lemma_header_prefix(b, (str_bytes(x@) + HEADER_LEN) as u32);
        },
        ServerRequest::MessageUsers(x) => {
            assert(b.subrange(0, 4) =~= le32((4 + GroupMessage::spec_body(x@).len()) as u32));
            lemma_header_prefix(b, (4 + GroupMessage::spec_body(x@).len()) as u32);
        },
        ServerRequest::EnablePublicChat => {
            assert(b.subrange(0, 4) =~= le32(4));
            lemma_header_prefix(b, 4);
        },
        ServerRequest::DisablePublicChat => {
            assert(b.subrange(0, 4) =~= le32(4));
            lemma_header_prefix(b, 4);
        },
        ServerRequest::CantConnectToPeer(x) => {
            assert(b.subrange(0, 4) =~= le32(PeerConnectionTicket::spec_len(x@) as u32));
            lemma_header_prefix(b, PeerConnectionTicket::spec_len(x@) as u32);
        },
        ServerRequest::Unimplemented => {},
    }
}

/// Number of bytes of the UTF-8 encoding of a string.
pub(crate) fn text_len(s: &String) -> (n: u128)
    ensures
        n == str_bytes(s@),
        n <= usize::MAX,
{
    s.as_str().as_bytes().len() as u128
}

/// The bytes that a list of strings takes after its count, each string with
/// its prefix; any number above `u32::MAX` once they take more.
pub(crate) fn texts_len(v: &Vec<String>) -> (n: u128)
    ensures
        strs_len(views(v@)) <= u32::MAX ==> n == strs_len(views(v@)),
        strs_len(views(v@)) > u32::MAX ==> n > u32::MAX,
        n <= u32::MAX + 1,
{
    let ghost w = views(v@);
    let mut total: u128 = 0;
    let mut i: usize = 0;
    while i < v.len()
        invariant
            i <= v@.len(),
            w == views(v@),
            total <= u32::MAX ==> total == strs_len(w.subrange(0, i as int)),
            total > u32::MAX ==> strs_len(w.subrange(0, i as int)) > u32::MAX,
            total <= u32::MAX + 1,
        decreases v@.len() - i,
    {
        proof {
            assert(w.subrange(0, i + 1).drop_last() =~= w.subrange(0, i as int));
            lemma_strs_len_prefix(w, i as int);
            lemma_strs_len_prefix(w.subrange(0, i + 1), i as int);
            assert(w.subrange(0, i + 1).subrange(0, i as int) =~= w.subrange(0, i as int));
        }
        let item = text_len(&v[i]) + 4;
        if total + item > u32::MAX as u128 {
            total = u32::MAX as u128 + 1;
        } else {
            total = total + item;
        }
        i = i + 1;
    }
    proof {
        assert(w.subrange(0, v@.len() as int) =~= w);
    }
    total
}

/// Largest length field.
const MAX_LEN: u128 = 0xffff_ffff;

impl ServerRequest {
    /// Whether the request can be written: `spec_request_fits`.
    pub fn fits(&self) -> (b: bool)
        ensures
            b == spec_request_fits(self),
    {
        match self {
            ServerRequest::Login(x) => 4 + (text_len(&x.username) + 4) + (text_len(&x.password) + 4) + (text_len(&x.md5_digest) + 4) + 4 + 4 <= MAX_LEN,
            ServerRequest::SetListenPort(x) => true,
            ServerRequest::GetPeerAddress(x) => text_len(&*x) + 8 <= MAX_LEN,
            ServerRequest::AddUser(x) => text_len(&*x) + 8 <= MAX_LEN,
            ServerRequest::RemoveUser(x) => text_len(&*x) + 8 <= MAX_LEN,
            ServerRequest::GetUserStatus(x) => text_len(&*x) + 8 <= MAX_LEN,
            ServerRequest::SendChatMessage(x) => 4 + 4 + text_len(&x.room) + 4 + text_len(&x.message) <= MAX_LEN,
            ServerRequest::JoinRoom(x) => text_len(&*x) + 8 <= MAX_LEN,
            ServerRequest::LeaveRoom(x) => text_len(&*x) + 8 <= MAX_LEN,
            ServerRequest::ConnectToPeer(x) => x.connection_type != ConnectionType::HandShake && 4 + (4 + text_len(&x.username)) + (4 + x.connection_type.bytes().len() as u128) + 4 <= MAX_LEN,
            ServerRequest::AcknowledgePrivateMessage(x) => true,
            ServerRequest::FileSearch(x) => 4 + 4 + 4 + text_len(&x.query) <= MAX_LEN,
            ServerRequest::SetOnlineStatus(x) => true,
            ServerRequest::SharedFolderAndFiles(x) => true,
            ServerRequest::GetUserStats(x) => text_len(&*x) + 8 <= MAX_LEN,
            ServerRequest::UserSearch(x) => 4 + 4 + text_len(&x.username) + 4 + 4 + text_len(&x.query) <= MAX_LEN,
            ServerRequest::AddLinkedInterest(x) => text_len(&*x) + 8 <= MAX_LEN,
            ServerRequest::RemoveLinkedInterest(x) => text_len(&*x) + 8 <= MAX_LEN,
            ServerRequest::Recommendations => true,
            ServerRequest::GlobalRecommendations => true,
            ServerRequest::GetUserInterest(x) => text_len(&*x) + 8 <= MAX_LEN,
            ServerRequest::AdminCommand(x) => 4 + (4 + text_len(&x.string1)) + 4 + texts_len(&x.string2) <= MAX_LEN,
            ServerRequest::RoomList => true,
            ServerRequest::NoParents(x) => true,
            ServerRequest::CheckPrivileges => true,
            ServerRequest::AcceptChildren(x) => true,
            ServerRequest::WishlistSearch(x) => 4 + 4 + 4 + text_len(&x.query) <= MAX_LEN,
            ServerRequest::GetSimilarUsers => true,
            ServerRequest::GetItemRecommendations(x) => text_len(&*x) + 8 <= MAX_LEN,
            ServerRequest::GetItemSimilarUsers(x) => text_len(&*x) + 8 <= MAX_LEN,
            ServerRequest::SetRoomTicker(x) => 4 + 4 + text_len(&x.username) + 4 + text_len(&x.ticker) <= MAX_LEN,
            ServerRequest::AddHatedInterest(x) => text_len(&*x) + 8 <= MAX_LEN,
            ServerRequest::RemoveHatedInterest(x) => text_len(&*x) + 8 <= MAX_LEN,
            ServerRequest::RoomSearch(x) => 4 + 4 + text_len(&x.room) + 4 + 4 + text_len(&x.query) <= MAX_LEN,
            ServerRequest::SendUploadSpeed(x) => true,
            ServerRequest::GivePrivileges(x) => 4 + 4 + text_len(&x.username) + 4 <= MAX_LEN,
            ServerRequest::BranchLevel(x) => true,
            ServerRequest::BranchRoot(x) => text_len(&*x) + 8 <= MAX_LEN,
            ServerRequest::ChildDepth(x) => true,
            ServerRequest::AddUserToPrivateRoom(x) => 4 + 4 + text_len(&x.room) + 4 + text_len(&x.username) <= MAX_LEN,
            ServerRequest::RemoveUserFromPrivateRoom(x) => 4 + 4 + text_len(&x.room) + 4 + text_len(&x.username) <= MAX_LEN,
            ServerRequest::PrivateRoomDropMemberShip(x) => text_len(&*x) + 8 <= MAX_LEN,
            ServerRequest::PrivateRoomDropOwnerShip(x) => text_len(&*x) + 8 <= MAX_LEN,
            ServerRequest::PrivateRoomUnknown(x) => text_len(&*x) + 8 <= MAX_LEN,
            ServerRequest::PrivateRoomToggle(x) => true,
            ServerRequest::NewPassWord(x) => text_len(&*x) + 8 <= MAX_LEN,
            ServerRequest::PrivateRoomAddOperator(x) => 4 + 4 + text_len(&x.room) + 4 + text_len(&x.username) <= MAX_LEN,
            ServerRequest::PrivateRoomRemoveOperator(x) => text_len(&*x) + 8 <= MAX_LEN,
            ServerRequest::MessageUsers(x) => {
                proof {
                    lemma_strs_rep_len(views(x.users@));
                    lemma_le32((views(x.users@).len()) as u32);
                    lemma_le32((str_bytes(x.message@)) as u32);
                }
                4 + (4 + texts_len(&x.users)) + (4 + text_len(&x.message)) <= MAX_LEN
            },
            ServerRequest::EnablePublicChat => true,
            ServerRequest::DisablePublicChat => true,
            ServerRequest::CantConnectToPeer(x) => 4 + 4 + text_len(&x.username) + 4 <= MAX_LEN,
            ServerRequest::Unimplemented => false,
        }
    }
}

/// The code that a request is sent with.
pub open spec fn spec_request_code(r: &ServerRequest) -> MessageCode {
    match r {
        ServerRequest::Login(_) => MessageCode::Login,
        ServerRequest::SetListenPort(_) => MessageCode::SetListenPort,
        ServerRequest::GetPeerAddress(_) => MessageCode::GetPeerAddress,
        ServerRequest::AddUser(_) => MessageCode::AddUser,
        ServerRequest::RemoveUser(_) => MessageCode::RemoveUser,
        ServerRequest::GetUserStatus(_) => MessageCode::GetUserStatus,
        ServerRequest::SendChatMessage(_) => MessageCode::SayInChatRoom,
        ServerRequest::JoinRoom(_) => MessageCode::JoinRoom,
        ServerRequest::LeaveRoom(_) => MessageCode::LeaveRoom,
        ServerRequest::ConnectToPeer(_) => MessageCode::ConnectToPeer,
        ServerRequest::AcknowledgePrivateMessage(_) => MessageCode::AcknowledgePrivateMessage,
        ServerRequest::FileSearch(_) => MessageCode::FileSearch,
        ServerRequest::SetOnlineStatus(_) => MessageCode::SetOnlineStatus,
        ServerRequest::SharedFolderAndFiles(_) => MessageCode::SharedFoldersAndFiles,
        ServerRequest::GetUserStats(_) => MessageCode::GetUserStats,
        ServerRequest::UserSearch(_) => MessageCode::UserSearch,
        ServerRequest::AddLinkedInterest(_) => MessageCode::InterestAdd,
        ServerRequest::RemoveLinkedInterest(_) => MessageCode::InterestRemove,
        ServerRequest::Recommendations => MessageCode::GetRecommendations,
        ServerRequest::GlobalRecommendations => MessageCode::GetGlobalRecommendations,
        ServerRequest::GetUserInterest(_) => MessageCode::GetUserInterests,
        ServerRequest::AdminCommand(_) => MessageCode::AdminCommand,
        ServerRequest::RoomList => MessageCode::RoomList,
        ServerRequest::NoParents(_) => MessageCode::HaveNoParents,
        ServerRequest::CheckPrivileges => MessageCode::CheckPrivileges,
        ServerRequest::AcceptChildren(_) => MessageCode::AcceptChildren,
        ServerRequest::WishlistSearch(_) => MessageCode::WishlistSearch,
        ServerRequest::GetSimilarUsers => MessageCode::GetSimilarUsers,
        ServerRequest::GetItemRecommendations(_) => MessageCode::GetItemRecommendations,
        ServerRequest::GetItemSimilarUsers(_) => MessageCode::GetItemSimilarUsers,
        ServerRequest::SetRoomTicker(_) => MessageCode::SetRoomTicker,
        ServerRequest::AddHatedInterest(_) => MessageCode::HatedInterestAdd,
        ServerRequest::RemoveHatedInterest(_) => MessageCode::HatedInterestRemove,
        ServerRequest::RoomSearch(_) => MessageCode::RoomSearch,
        ServerRequest::SendUploadSpeed(_) => MessageCode::SendUploadSpeed,
        ServerRequest::GivePrivileges(_) => MessageCode::GivePrivileges,
        ServerRequest::BranchLevel(_) => MessageCode::BranchLevel,
        ServerRequest::BranchRoot(_) => MessageCode::BranchRoot,
        ServerRequest::ChildDepth(_) => MessageCode::ChildDepth,
        ServerRequest::AddUserToPrivateRoom(_) => MessageCode::PrivateRoomAddUser,
        ServerRequest::RemoveUserFromPrivateRoom(_) => MessageCode::PrivateRoomRemoveUser,
        ServerRequest::PrivateRoomDropMemberShip(_) => MessageCode::PrivateRoomDropMembership,
        ServerRequest::PrivateRoomDropOwnerShip(_) => MessageCode::PrivateRoomDropOwnership,
        ServerRequest::PrivateRoomUnknown(_) => MessageCode::PrivateRoomUnknown,
        ServerRequest::PrivateRoomToggle(_) => MessageCode::PrivateRoomToggle,
        ServerRequest::NewPassWord(_) => MessageCode::NewPassword,
        ServerRequest::PrivateRoomAddOperator(_) => MessageCode::PrivateRoomAddOperator,
        ServerRequest::PrivateRoomRemoveOperator(_) => MessageCode::PrivateRoomRemoveOperator,
        ServerRequest::MessageUsers(_) => MessageCode::MessageUsers,
        ServerRequest::EnablePublicChat => MessageCode::AskPublicChat,
        ServerRequest::DisablePublicChat => MessageCode::StopPublicChat,
        ServerRequest::CantConnectToPeer(_) => MessageCode::CantConnectToPeer,
        ServerRequest::Unimplemented => MessageCode::Unknown,
    }
}

/// Every request that can be written carries, after its length field, the
/// code of the message that its name denotes.
#[verifier::spinoff_prover]
#[verifier::rlimit(100)]
pub proof fn lemma_request_code(r: &ServerRequest)
    requires
        spec_request_fits(r),
    ensures
        spec_request_bytes(r).len() >= 8,
        spec_u32_from_le_bytes(spec_request_bytes(r).subrange(4, 8)) == spec_request_code(
            r,
        ).spec_code(),
{
    lemma_request_length_prefix(r);
    let b = spec_request_bytes(r);
    match r {
        ServerRequest::Login(_) => {
            assert(b.subrange(4, 8) =~= le32(MessageCode::Login.spec_code())) by {
                broadcast use crate::frame::group_wire_lemmas;

            }
            lemma_le32(MessageCode::Login.spec_code());
        },
        ServerRequest::SetListenPort(_) => {
            assert(b.subrange(4, 8) =~= le32(MessageCode::SetListenPort.spec_code())) by {
                broadcast use crate::frame::group_wire_lemmas;

            }
            lemma_le32(MessageCode::SetListenPort.spec_code());
        },
        ServerRequest::GetPeerAddress(_) => {
            assert(b.subrange(4, 8) =~= le32(MessageCode::GetPeerAddress.spec_code())) by {
                broadcast use crate::frame::group_wire_lemmas;

            }
            lemma_le32(MessageCode::GetPeerAddress.spec_code());
        },
        ServerRequest::AddUser(_) => {
            assert(b.subrange(4, 8) =~= le32(MessageCode::AddUser.spec_code())) by {
                broadcast use crate::frame::group_wire_lemmas;

            }
            lemma_le32(MessageCode::AddUser.spec_code());
        },
        ServerRequest::RemoveUser(_) => {
            assert(b.subrange(4, 8) =~= le32(MessageCode::RemoveUser.spec_code())) by {
                broadcast use crate::frame::group_wire_lemmas;

            }
            lemma_le32(MessageCode::RemoveUser.spec_code());
        },
        ServerRequest::GetUserStatus(_) => {
            assert(b.subrange(4, 8) =~= le32(MessageCode::GetUserStatus.spec_code())) by {
                broadcast use crate::frame::group_wire_lemmas;

            }
            lemma_le32(MessageCode::GetUserStatus.spec_code());
        },
        ServerRequest::SendChatMessage(_) => {
            assert(b.subrange(4, 8) =~= le32(MessageCode::SayInChatRoom.spec_code())) by {
                broadcast use crate::frame::group_wire_lemmas;

            }
            lemma_le32(MessageCode::SayInChatRoom.spec_code());
        },
        ServerRequest::JoinRoom(_) => {
            assert(b.subrange(4, 8) =~= le32(MessageCode::JoinRoom.spec_code())) by {
                broadcast use crate::frame::group_wire_lemmas;

            }
            lemma_le32(MessageCode::JoinRoom.spec_code());
        },
        ServerRequest::LeaveRoom(_) => {
            assert(b.subrange(4, 8) =~= le32(MessageCode::LeaveRoom.spec_code())) by {
                broadcast use crate::frame::group_wire_lemmas;

            }
            lemma_le32(MessageCode::LeaveRoom.spec_code());
        },
        ServerRequest::ConnectToPeer(_) => {
            assert(b.subrange(4, 8) =~= le32(MessageCode::ConnectToPeer.spec_code())) by {
                broadcast use crate::frame::group_wire_lemmas;

            }
            lemma_le32(MessageCode::ConnectToPeer.spec_code());
        },
        ServerRequest::AcknowledgePrivateMessage(_) => {
            assert(b.subrange(4, 8) =~= le32(MessageCode::AcknowledgePrivateMessage.spec_code())) by {
                broadcast use crate::frame::group_wire_lemmas;

            }
            lemma_le32(MessageCode::AcknowledgePrivateMessage.spec_code());
        },
        ServerRequest::FileSearch(_) => {
            assert(b.subrange(4, 8) =~= le32(MessageCode::FileSearch.spec_code())) by {
                broadcast use crate::frame::group_wire_lemmas;

            }
            lemma_le32(MessageCode::FileSearch.spec_code());
        },
        ServerRequest::SetOnlineStatus(_) => {
            assert(b.subrange(4, 8) =~= le32(MessageCode::SetOnlineStatus.spec_code())) by {
                broadcast use crate::frame::group_wire_lemmas;

            }
            lemma_le32(MessageCode::SetOnlineStatus.spec_code());
        },
        ServerRequest::SharedFolderAndFiles(_) => {
            assert(b.subrange(4, 8) =~= le32(MessageCode::SharedFoldersAndFiles.spec_code())) by {
                broadcast use crate::frame::group_wire_lemmas;

            }
            lemma_le32(MessageCode::SharedFoldersAndFiles.spec_code());
        },
        ServerRequest::GetUserStats(_) => {
            assert(b.subrange(4, 8) =~= le32(MessageCode::GetUserStats.spec_code())) by {
                broadcast use crate::frame::group_wire_lemmas;

            }
            lemma_le32(MessageCode::GetUserStats.spec_code());
        },
        ServerRequest::UserSearch(_) => {
            assert(b.subrange(4, 8) =~= le32(MessageCode::UserSearch.spec_code())) by {
                broadcast use crate::frame::group_wire_lemmas;

            }
            lemma_le32(MessageCode::UserSearch.spec_code());
        },
        ServerRequest::AddLinkedInterest(_) => {
            assert(b.subrange(4, 8) =~= le32(MessageCode::InterestAdd.spec_code())) by {
                broadcast use crate::frame::group_wire_lemmas;

            }
            lemma_le32(MessageCode::InterestAdd.spec_code());
        },
        ServerRequest::RemoveLinkedInterest(_) => {
            assert(b.subrange(4, 8) =~= le32(MessageCode::InterestRemove.spec_code())) by {
                broadcast use crate::frame::group_wire_lemmas;

            }
            lemma_le32(MessageCode::InterestRemove.spec_code());
        },
        ServerRequest::Recommendations => {
            assert(b.subrange(4, 8) =~= le32(MessageCode::GetRecommendations.spec_code())) by {
                broadcast use crate::frame::group_wire_lemmas;

            }
            lemma_le32(MessageCode::GetRecommendations.spec_code());
        },
        ServerRequest::GlobalRecommendations => {
            assert(b.subrange(4, 8) =~= le32(MessageCode::GetGlobalRecommendations.spec_code())) by {
                broadcast use crate::frame::group_wire_lemmas;

            }
            lemma_le32(MessageCode::GetGlobalRecommendations.spec_code());
        },
        ServerRequest::GetUserInterest(_) => {
            assert(b.subrange(4, 8) =~= le32(MessageCode::GetUserInterests.spec_code())) by {
                broadcast use crate::frame::group_wire_lemmas;

            }
            lemma_le32(MessageCode::GetUserInterests.spec_code());
        },
        ServerRequest::AdminCommand(_) => {
            assert(b.subrange(4, 8) =~= le32(MessageCode::AdminCommand.spec_code())) by {
                broadcast use crate::frame::group_wire_lemmas;

            }
            lemma_le32(MessageCode::AdminCommand.spec_code());
        },
        ServerRequest::RoomList => {
            assert(b.subrange(4, 8) =~= le32(MessageCode::RoomList.spec_code())) by {
                broadcast use crate::frame::group_wire_lemmas;

            }
            lemma_le32(MessageCode::RoomList.spec_code());
        },
        ServerRequest::NoParents(_) => {
            assert(b.subrange(4, 8) =~= le32(MessageCode::HaveNoParents.spec_code())) by {
                broadcast use crate::frame::group_wire_lemmas;

            }
            lemma_le32(MessageCode::HaveNoParents.spec_code());
        },
        ServerRequest::CheckPrivileges => {
            assert(b.subrange(4, 8) =~= le32(MessageCode::CheckPrivileges.spec_code())) by {
                broadcast use crate::frame::group_wire_lemmas;

            }
            lemma_le32(MessageCode::CheckPrivileges.spec_code());
        },
        ServerRequest::AcceptChildren(_) => {
            assert(b.subrange(4, 8) =~= le32(MessageCode::AcceptChildren.spec_code())) by {
                broadcast use crate::frame::group_wire_lemmas;

            }
            lemma_le32(MessageCode::AcceptChildren.spec_code());
        },
        ServerRequest::WishlistSearch(_) => {
            assert(b.subrange(4, 8) =~= le32(MessageCode::WishlistSearch.spec_code())) by {
                broadcast use crate::frame::group_wire_lemmas;

            }
            lemma_le32(MessageCode::WishlistSearch.spec_code());
        },
        ServerRequest::GetSimilarUsers => {
            assert(b.subrange(4, 8) =~= le32(MessageCode::GetSimilarUsers.spec_code())) by {
                broadcast use crate::frame::group_wire_lemmas;

            }
            lemma_le32(MessageCode::GetSimilarUsers.spec_code());
        },
        ServerRequest::GetItemRecommendations(_) => {
            assert(b.subrange(4, 8) =~= le32(MessageCode::GetItemRecommendations.spec_code())) by {
                broadcast use crate::frame::group_wire_lemmas;

            }
            lemma_le32(MessageCode::GetItemRecommendations.spec_code());
        },
        ServerRequest::GetItemSimilarUsers(_) => {
            assert(b.subrange(4, 8) =~= le32(MessageCode::GetItemSimilarUsers.spec_code())) by {
                broadcast use crate::frame::group_wire_lemmas;

            }
            lemma_le32(MessageCode::GetItemSimilarUsers.spec_code());
        },
        ServerRequest::SetRoomTicker(_) => {
            assert(b.subrange(4, 8) =~= le32(MessageCode::SetRoomTicker.spec_code())) by {
                broadcast use crate::frame::group_wire_lemmas;

            }
            lemma_le32(MessageCode::SetRoomTicker.spec_code());
        },
        ServerRequest::AddHatedInterest(_) => {
            assert(b.subrange(4, 8) =~= le32(MessageCode::HatedInterestAdd.spec_code())) by {
                broadcast use crate::frame::group_wire_lemmas;

            }
            lemma_le32(MessageCode::HatedInterestAdd.spec_code());
        },
        ServerRequest::RemoveHatedInterest(_) => {
            assert(b.subrange(4, 8) =~= le32(MessageCode::HatedInterestRemove.spec_code())) by {
                broadcast use crate::frame::group_wire_lemmas;

            }
            lemma_le32(MessageCode::HatedInterestRemove.spec_code());
        },
        ServerRequest::RoomSearch(_) => {
            assert(b.subrange(4, 8) =~= le32(MessageCode::RoomSearch.spec_code())) by {
                broadcast use crate::frame::group_wire_lemmas;

            }
            lemma_le32(MessageCode::RoomSearch.spec_code());
        },
        ServerRequest::SendUploadSpeed(_) => {
            assert(b.subrange(4, 8) =~= le32(MessageCode::SendUploadSpeed.spec_code())) by {
                broadcast use crate::frame::group_wire_lemmas;

            }
            lemma_le32(MessageCode::SendUploadSpeed.spec_code());
        },
        ServerRequest::GivePrivileges(_) => {
            assert(b.subrange(4, 8) =~= le32(MessageCode::GivePrivileges.spec_code())) by {
                broadcast use crate::frame::group_wire_lemmas;

            }
            lemma_le32(MessageCode::GivePrivileges.spec_code());
        },
        ServerRequest::BranchLevel(_) => {
            assert(b.subrange(4, 8) =~= le32(MessageCode::BranchLevel.spec_code())) by {
                broadcast use crate::frame::group_wire_lemmas;

            }
            lemma_le32(MessageCode::BranchLevel.spec_code());
        },
        ServerRequest::BranchRoot(_) => {
            assert(b.subrange(4, 8) =~= le32(MessageCode::BranchRoot.spec_code())) by {
                broadcast use crate::frame::group_wire_lemmas;

            }
            lemma_le32(MessageCode::BranchRoot.spec_code());
        },
        ServerRequest::ChildDepth(_) => {
            assert(b.subrange(4, 8) =~= le32(MessageCode::ChildDepth.spec_code())) by {
                broadcast use crate::frame::group_wire_lemmas;

            }
            lemma_le32(MessageCode::ChildDepth.spec_code());
        },
        ServerRequest::AddUserToPrivateRoom(_) => {
            assert(b.subrange(4, 8) =~= le32(MessageCode::PrivateRoomAddUser.spec_code())) by {
                broadcast use crate::frame::group_wire_lemmas;

            }
            lemma_le32(MessageCode::PrivateRoomAddUser.spec_code());
        },
        ServerRequest::RemoveUserFromPrivateRoom(_) => {
            assert(b.subrange(4, 8) =~= le32(MessageCode::PrivateRoomRemoveUser.spec_code())) by {
                broadcast use crate::frame::group_wire_lemmas;

            }
            lemma_le32(MessageCode::PrivateRoomRemoveUser.spec_code());
        },
        ServerRequest::PrivateRoomDropMemberShip(_) => {
            assert(b.subrange(4, 8) =~= le32(MessageCode::PrivateRoomDropMembership.spec_code())) by {
                broadcast use crate::frame::group_wire_lemmas;

            }
            lemma_le32(MessageCode::PrivateRoomDropMembership.spec_code());
        },
        ServerRequest::PrivateRoomDropOwnerShip(_) => {
            assert(b.subrange(4, 8) =~= le32(MessageCode::PrivateRoomDropOwnership.spec_code())) by {
                broadcast use crate::frame::group_wire_lemmas;

            }
            lemma_le32(MessageCode::PrivateRoomDropOwnership.spec_code());
        },
        ServerRequest::PrivateRoomUnknown(_) => {
            assert(b.subrange(4, 8) =~= le32(MessageCode::PrivateRoomUnknown.spec_code())) by {
                broadcast use crate::frame::group_wire_lemmas;

            }
            lemma_le32(MessageCode::PrivateRoomUnknown.spec_code());
        },
        ServerRequest::PrivateRoomToggle(_) => {
            assert(b.subrange(4, 8) =~= le32(MessageCode::PrivateRoomToggle.spec_code())) by {
                broadcast use crate::frame::group_wire_lemmas;

            }
            lemma_le32(MessageCode::PrivateRoomToggle.spec_code());
        },
        ServerRequest::NewPassWord(_) => {
            assert(b.subrange(4, 8) =~= le32(MessageCode::NewPassword.spec_code())) by {
                broadcast use crate::frame::group_wire_lemmas;

            }
            lemma_le32(MessageCode::NewPassword.spec_code());
        },
        ServerRequest::PrivateRoomAddOperator(_) => {
            assert(b.subrange(4, 8) =~= le32(MessageCode::PrivateRoomAddOperator.spec_code())) by {
                broadcast use crate::frame::group_wire_lemmas;

            }
            lemma_le32(MessageCode::PrivateRoomAddOperator.spec_code());
        },
        ServerRequest::PrivateRoomRemoveOperator(_) => {
            assert(b.subrange(4, 8) =~= le32(MessageCode::PrivateRoomRemoveOperator.spec_code())) by {
                broadcast use crate::frame::group_wire_lemmas;

            }
            lemma_le32(MessageCode::PrivateRoomRemoveOperator.spec_code());
        },
        ServerRequest::MessageUsers(_) => {
            assert(b.subrange(4, 8) =~= le32(MessageCode::MessageUsers.spec_code())) by {
                broadcast use crate::frame::group_wire_lemmas;

            }
            lemma_le32(MessageCode::MessageUsers.spec_code());
        },
        ServerRequest::EnablePublicChat => {
            assert(b.subrange(4, 8) =~= le32(MessageCode::AskPublicChat.spec_code())) by {
                broadcast use crate::frame::group_wire_lemmas;

            }
            lemma_le32(MessageCode::AskPublicChat.spec_code());
        },
        ServerRequest::DisablePublicChat => {
            assert(b.subrange(4, 8) =~= le32(MessageCode::StopPublicChat.spec_code())) by {
                broadcast use crate::frame::group_wire_lemmas;

            }
            lemma_le32(MessageCode::StopPublicChat.spec_code());
        },
        ServerRequest::CantConnectToPeer(_) => {
            assert(b.subrange(4, 8) =~= le32(MessageCode::CantConnectToPeer.spec_code())) by {
                broadcast use crate::frame::group_wire_lemmas;

            }
            lemma_le32(MessageCode::CantConnectToPeer.spec_code());
        },
        ServerRequest::Unimplemented => {},
    }
}

/// The body of each request that carries more than one field: the fields in
/// the order the protocol sends them, each by its own encoding.
pub open spec fn request_fields(r: &ServerRequest) -> Option<Seq<u8>> {
    match r {
        ServerRequest::Login(x) => Some(ser_str(x.username@) + ser_str(x.password@) + le32(x.version) + ser_str(x.md5_digest@) + le32(x.minor_version)),
        ServerRequest::SendChatMessage(x) => Some(ser_str(x.room@) + ser_str(x.message@)),
        ServerRequest::ConnectToPeer(x) => Some(le32(x.token) + ser_str(x.username@) + ser_str(spec_type_code(x.connection_type))),
        ServerRequest::FileSearch(x) => Some(le32(x.ticket) + ser_str(x.query@)),
        ServerRequest::WishlistSearch(x) => Some(le32(x.ticket) + ser_str(x.query@)),
        ServerRequest::SharedFolderAndFiles(x) => Some(le32(x.dirs) + le32(x.files)),
        ServerRequest::UserSearch(x) => Some(ser_str(x.username@) + le32(x.ticket) + ser_str(x.query@)),
        ServerRequest::RoomSearch(x) => Some(ser_str(x.room@) + le32(x.ticket) + ser_str(x.query@)),
        ServerRequest::SetRoomTicker(x) => Some(ser_str(x.username@) + ser_str(x.ticker@)),
        ServerRequest::GivePrivileges(x) => Some(ser_str(x.username@) + le32(x.days)),
        ServerRequest::AddUserToPrivateRoom(x) => Some(ser_str(x.room@) + ser_str(x.username@)),
        ServerRequest::RemoveUserFromPrivateRoom(x) => Some(ser_str(x.room@) + ser_str(x.username@)),
        ServerRequest::PrivateRoomAddOperator(x) => Some(ser_str(x.room@) + ser_str(x.username@)),
        ServerRequest::CantConnectToPeer(x) => Some(ser_str(x.username@) + le32(x.token)),
        _ => None,
    }
}

/// A request with several fields is written as its eight header bytes
/// followed by those fields, in the order the protocol sends them.
pub proof fn lemma_request_fields(r: &ServerRequest)
    requires
        request_fields(r) is Some,
    ensures
        spec_request_bytes(r).len() >= 8,
        spec_request_bytes(r).subrange(8, spec_request_bytes(r).len() as int) == request_fields(r)->0,
{
    broadcast use crate::frame::group_wire_lemmas;

    let b = spec_request_bytes(r);
    let f = request_fields(r)->0;
    match r {
        ServerRequest::Login(x) => {
            assert(b.subrange(8, b.len() as int) =~= f);
        },
        ServerRequest::SendChatMessage(x) => {
            assert(b.subrange(8, b.len() as int) =~= f);
        },
        ServerRequest::ConnectToPeer(x) => {
            assert(b.subrange(8, b.len() as int) =~= f);
        },
        ServerRequest::FileSearch(x) => {
            assert(b.subrange(8, b.len() as int) =~= f);
        },
        ServerRequest::WishlistSearch(x) => {
            assert(b.subrange(8, b.len() as int) =~= f);
        },
        ServerRequest::SharedFolderAndFiles(x) => {
            assert(b.subrange(8, b.len() as int) =~= f);
        },
        ServerRequest::UserSearch(x) => {
            assert(b.subrange(8, b.len() as int) =~= f);
        },
        ServerRequest::RoomSearch(x) => {
            assert(b.subrange(8, b.len() as int) =~= f);
        },
        ServerRequest::SetRoomTicker(x) => {
            assert(b.subrange(8, b.len() as int) =~= f);
        },
        ServerRequest::GivePrivileges(x) => {
            assert(b.subrange(8, b.len() as int) =~= f);
        },
        ServerRequest::AddUserToPrivateRoom(x) => {
            assert(b.subrange(8, b.len() as int) =~= f);
        },
        ServerRequest::RemoveUserFromPrivateRoom(x) => {
            assert(b.subrange(8, b.len() as int) =~= f);
        },
        ServerRequest::PrivateRoomAddOperator(x) => {
            assert(b.subrange(8, b.len() as int) =~= f);
        },
        ServerRequest::CantConnectToPeer(x) => {
            assert(b.subrange(8, b.len() as int) =~= f);
        },
        _ => {},
    }
}

} // verus!
