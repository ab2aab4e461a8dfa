//! Messages exchanged with the Soulseek server.
use crate::frame::{
    holds_at, lemma_holds_part, lemma_u32_at, le32, read_matches, ser_bool, ser_str, sp_u32, str_bytes, write_bool, write_string, write_u32, Read,
    Reader,
};
use crate::{ProtocolHeader, SlskError};
use vstd::prelude::*;

pub mod admin;
pub mod chat;
pub mod connection;
pub mod distributed;
pub mod interest;
pub mod login;
pub mod peer;
pub mod privilege;
pub mod request;
pub mod response;
pub mod room;
pub mod search;
pub mod shares;
pub mod user;

verus! {

/// Length of a server message header: a `u32` length and a `u32` code.
pub const HEADER_LEN: u32 = 8;

/// Code of a server message. Codes the protocol does not define read as
/// [`MessageCode::Unknown`].
#[derive(Debug, Clone, Copy, PartialEq, Eq, Structural)]
pub enum MessageCode {
    Login,
    SetListenPort,
    GetPeerAddress,
    AddUser,
    RemoveUser,
    GetUserStatus,
    SayInChatRoom,
    JoinRoom,
    LeaveRoom,
    UserJoinedRoom,
    UserLeftRoom,
    ConnectToPeer,
    PrivateMessages,
    AcknowledgePrivateMessage,
    FileSearch,
    SetOnlineStatus,
    SharedFoldersAndFiles,
    GetUserStats,
    KickedFromServer,
    UserSearch,
    InterestAdd,
    InterestRemove,
    GetRecommendations,
    GetGlobalRecommendations,
    GetUserInterests,
    AdminCommand,
    RoomList,
    ExactFileSearch,
    GlobalAdminMessage,
    PrivilegedUsers,
    HaveNoParents,
    ParentsIp,
    ParentMinSpeed,
    ParentSpeedRatio,
    CheckPrivileges,
    EmbeddedMessage,
    AcceptChildren,
    PossibleParents,
    WishlistSearch,
    WishlistInterval,
    GetSimilarUsers,
    GetItemRecommendations,
    GetItemSimilarUsers,
    RoomTickers,
    RoomTickerAdd,
    RoomTickerRemove,
    SetRoomTicker,
    HatedInterestAdd,
    HatedInterestRemove,
    RoomSearch,
    SendUploadSpeed,
    GivePrivileges,
    BranchLevel,
    BranchRoot,
    ChildDepth,
    PrivateRoomUsers,
    PrivateRoomAddUser,
    PrivateRoomRemoveUser,
    PrivateRoomDropMembership,
    PrivateRoomDropOwnership,
    PrivateRoomUnknown,
    PrivateRoomAdded,
    PrivateRoomRemoved,
    PrivateRoomToggle,
    NewPassword,
    PrivateRoomAddOperator,
    PrivateRoomRemoveOperator,
    PrivateRoomOperatorAdded,
    PrivateRoomOperatorRemoved,
    RoomOperators,
    MessageUsers,
    AskPublicChat,
    StopPublicChat,
    PublicChatMessage,
    CantConnectToPeer,
    CantCreateRoom,
    Unknown,
}

/// The message code that a `u32` on the wire stands for.
pub open spec fn spec_code_from_u32(value: u32) -> MessageCode {
    match value {
        1 => MessageCode::Login,
        2 => MessageCode::SetListenPort,
        3 => MessageCode::GetPeerAddress,
        5 => MessageCode::AddUser,
        6 => MessageCode::RemoveUser,
        7 => MessageCode::GetUserStatus,
        13 => MessageCode::SayInChatRoom,
        14 => MessageCode::JoinRoom,
        15 => MessageCode::LeaveRoom,
        16 => MessageCode::UserJoinedRoom,
        17 => MessageCode::UserLeftRoom,
        18 => MessageCode::ConnectToPeer,
        22 => MessageCode::PrivateMessages,
        23 => MessageCode::AcknowledgePrivateMessage,
        26 => MessageCode::FileSearch,
        28 => MessageCode::SetOnlineStatus,
        35 => MessageCode::SharedFoldersAndFiles,
        36 => MessageCode::GetUserStats,
        41 => MessageCode::KickedFromServer,
        42 => MessageCode::UserSearch,
        51 => MessageCode::InterestAdd,
        52 => MessageCode::InterestRemove,
        54 => MessageCode::GetRecommendations,
        56 => MessageCode::GetGlobalRecommendations,
        57 => MessageCode::GetUserInterests,
        58 => MessageCode::AdminCommand,
        64 => MessageCode::RoomList,
        65 => MessageCode::ExactFileSearch,
        66 => MessageCode::GlobalAdminMessage,
        69 => MessageCode::PrivilegedUsers,
        71 => MessageCode::HaveNoParents,
        73 => MessageCode::ParentsIp,
        83 => MessageCode::ParentMinSpeed,
        84 => MessageCode::ParentSpeedRatio,
        92 => MessageCode::CheckPrivileges,
        93 => MessageCode::EmbeddedMessage,
        100 => MessageCode::AcceptChildren,
        102 => MessageCode::PossibleParents,
        103 => MessageCode::WishlistSearch,
        104 => MessageCode::WishlistInterval,
        110 => MessageCode::GetSimilarUsers,
        111 => MessageCode::GetItemRecommendations,
        112 => MessageCode::GetItemSimilarUsers,
        113 => MessageCode::RoomTickers,
        114 => MessageCode::RoomTickerAdd,
        115 => MessageCode::RoomTickerRemove,
        116 => MessageCode::SetRoomTicker,
        117 => MessageCode::HatedInterestAdd,
        118 => MessageCode::HatedInterestRemove,
        120 => MessageCode::RoomSearch,
        121 => MessageCode::SendUploadSpeed,
        123 => MessageCode::GivePrivileges,
        126 => MessageCode::BranchLevel,
        127 => MessageCode::BranchRoot,
        129 => MessageCode::ChildDepth,
        133 => MessageCode::PrivateRoomUsers,
        134 => MessageCode::PrivateRoomAddUser,
        135 => MessageCode::PrivateRoomRemoveUser,
        136 => MessageCode::PrivateRoomDropMembership,
        137 => MessageCode::PrivateRoomDropOwnership,
        138 => MessageCode::PrivateRoomUnknown,
        139 => MessageCode::PrivateRoomAdded,
        140 => MessageCode::PrivateRoomRemoved,
        141 => MessageCode::PrivateRoomToggle,
        142 => MessageCode::NewPassword,
        143 => MessageCode::PrivateRoomAddOperator,
        144 => MessageCode::PrivateRoomRemoveOperator,
        145 => MessageCode::PrivateRoomOperatorAdded,
        146 => MessageCode::PrivateRoomOperatorRemoved,
        148 => MessageCode::RoomOperators,
        149 => MessageCode::MessageUsers,
        150 => MessageCode::AskPublicChat,
        151 => MessageCode::StopPublicChat,
        152 => MessageCode::PublicChatMessage,
        1001 => MessageCode::CantConnectToPeer,
        1003 => MessageCode::CantCreateRoom,
        _ => MessageCode::Unknown,
    }
}

impl MessageCode {
    /// The `u32` written on the wire for this code; [`MessageCode::Unknown`]
    /// is 1004, the number that follows the last defined code.
    pub open spec fn spec_code(self) -> u32 {
        match self {
            MessageCode::Login => 1,
            MessageCode::SetListenPort => 2,
            MessageCode::GetPeerAddress => 3,
            MessageCode::AddUser => 5,
            MessageCode::RemoveUser => 6,
            MessageCode::GetUserStatus => 7,
            MessageCode::SayInChatRoom => 13,
            MessageCode::JoinRoom => 14,
            MessageCode::LeaveRoom => 15,
            MessageCode::UserJoinedRoom => 16,
            MessageCode::UserLeftRoom => 17,
            MessageCode::ConnectToPeer => 18,
            MessageCode::PrivateMessages => 22,
            MessageCode::AcknowledgePrivateMessage => 23,
            MessageCode::FileSearch => 26,
            MessageCode::SetOnlineStatus => 28,
            MessageCode::SharedFoldersAndFiles => 35,
            MessageCode::GetUserStats => 36,
            MessageCode::KickedFromServer => 41,
            MessageCode::UserSearch => 42,
            MessageCode::InterestAdd => 51,
            MessageCode::InterestRemove => 52,
            MessageCode::GetRecommendations => 54,
            MessageCode::GetGlobalRecommendations => 56,
            MessageCode::GetUserInterests => 57,
            MessageCode::AdminCommand => 58,
            MessageCode::RoomList => 64,
            MessageCode::ExactFileSearch => 65,
            MessageCode::GlobalAdminMessage => 66,
            MessageCode::PrivilegedUsers => 69,
            MessageCode::HaveNoParents => 71,
            MessageCode::ParentsIp => 73,
            MessageCode::ParentMinSpeed => 83,
            MessageCode::ParentSpeedRatio => 84,
            MessageCode::CheckPrivileges => 92,
            MessageCode::EmbeddedMessage => 93,
            MessageCode::AcceptChildren => 100,
            MessageCode::PossibleParents => 102,
            MessageCode::WishlistSearch => 103,
            MessageCode::WishlistInterval => 104,
            MessageCode::GetSimilarUsers => 110,
            MessageCode::GetItemRecommendations => 111,
            MessageCode::GetItemSimilarUsers => 112,
            MessageCode::RoomTickers => 113,
            MessageCode::RoomTickerAdd => 114,
            MessageCode::RoomTickerRemove => 115,
            MessageCode::SetRoomTicker => 116,
            MessageCode::HatedInterestAdd => 117,
            MessageCode::HatedInterestRemove => 118,
            MessageCode::RoomSearch => 120,
            MessageCode::SendUploadSpeed => 121,
            MessageCode::GivePrivileges => 123,
            MessageCode::BranchLevel => 126,
            MessageCode::BranchRoot => 127,
            MessageCode::ChildDepth => 129,
            MessageCode::PrivateRoomUsers => 133,
            MessageCode::PrivateRoomAddUser => 134,
            MessageCode::PrivateRoomRemoveUser => 135,
            MessageCode::PrivateRoomDropMembership => 136,
            MessageCode::PrivateRoomDropOwnership => 137,
            MessageCode::PrivateRoomUnknown => 138,
            MessageCode::PrivateRoomAdded => 139,
            MessageCode::PrivateRoomRemoved => 140,
            MessageCode::PrivateRoomToggle => 141,
            MessageCode::NewPassword => 142,
            MessageCode::PrivateRoomAddOperator => 143,
            MessageCode::PrivateRoomRemoveOperator => 144,
            MessageCode::PrivateRoomOperatorAdded => 145,
            MessageCode::PrivateRoomOperatorRemoved => 146,
            MessageCode::RoomOperators => 148,
            MessageCode::MessageUsers => 149,
            MessageCode::AskPublicChat => 150,
            MessageCode::StopPublicChat => 151,
            MessageCode::PublicChatMessage => 152,
            MessageCode::CantConnectToPeer => 1001,
            MessageCode::CantCreateRoom => 1003,
            MessageCode::Unknown => 1004,
        }
    }

    pub fn code(&self) -> (c: u32)
        ensures
            c == self.spec_code(),
    {
        match self {
            MessageCode::Login => 1,
            MessageCode::SetListenPort => 2,
            MessageCode::GetPeerAddress => 3,
            MessageCode::AddUser => 5,
            MessageCode::RemoveUser => 6,
            MessageCode::GetUserStatus => 7,
            MessageCode::SayInChatRoom => 13,
            MessageCode::JoinRoom => 14,
            MessageCode::LeaveRoom => 15,
            MessageCode::UserJoinedRoom => 16,
            MessageCode::UserLeftRoom => 17,
            MessageCode::ConnectToPeer => 18,
            MessageCode::PrivateMessages => 22,
            MessageCode::AcknowledgePrivateMessage => 23,
            MessageCode::FileSearch => 26,
            MessageCode::SetOnlineStatus => 28,
            MessageCode::SharedFoldersAndFiles => 35,
            MessageCode::GetUserStats => 36,
            MessageCode::KickedFromServer => 41,
            MessageCode::UserSearch => 42,
            MessageCode::InterestAdd => 51,
            MessageCode::InterestRemove => 52,
            MessageCode::GetRecommendations => 54,
            MessageCode::GetGlobalRecommendations => 56,
            MessageCode::GetUserInterests => 57,
            MessageCode::AdminCommand => 58,
            MessageCode::RoomList => 64,
            MessageCode::ExactFileSearch => 65,
            MessageCode::GlobalAdminMessage => 66,
            MessageCode::PrivilegedUsers => 69,
            MessageCode::HaveNoParents => 71,
            MessageCode::ParentsIp => 73,
            MessageCode::ParentMinSpeed => 83,
            MessageCode::ParentSpeedRatio => 84,
            MessageCode::CheckPrivileges => 92,
            MessageCode::EmbeddedMessage => 93,
            MessageCode::AcceptChildren => 100,
            MessageCode::PossibleParents => 102,
            MessageCode::WishlistSearch => 103,
            MessageCode::WishlistInterval => 104,
            MessageCode::GetSimilarUsers => 110,
            MessageCode::GetItemRecommendations => 111,
            MessageCode::GetItemSimilarUsers => 112,
            MessageCode::RoomTickers => 113,
            MessageCode::RoomTickerAdd => 114,
            MessageCode::RoomTickerRemove => 115,
            MessageCode::SetRoomTicker => 116,
            MessageCode::HatedInterestAdd => 117,
            MessageCode::HatedInterestRemove => 118,
            MessageCode::RoomSearch => 120,
            MessageCode::SendUploadSpeed => 121,
            MessageCode::GivePrivileges => 123,
            MessageCode::BranchLevel => 126,
            MessageCode::BranchRoot => 127,
            MessageCode::ChildDepth => 129,
            MessageCode::PrivateRoomUsers => 133,
            MessageCode::PrivateRoomAddUser => 134,
            MessageCode::PrivateRoomRemoveUser => 135,
            MessageCode::PrivateRoomDropMembership => 136,
            MessageCode::PrivateRoomDropOwnership => 137,
            MessageCode::PrivateRoomUnknown => 138,
            MessageCode::PrivateRoomAdded => 139,
            MessageCode::PrivateRoomRemoved => 140,
            MessageCode::PrivateRoomToggle => 141,
            MessageCode::NewPassword => 142,
            MessageCode::PrivateRoomAddOperator => 143,
            MessageCode::PrivateRoomRemoveOperator => 144,
            MessageCode::PrivateRoomOperatorAdded => 145,
            MessageCode::PrivateRoomOperatorRemoved => 146,
            MessageCode::RoomOperators => 148,
            MessageCode::MessageUsers => 149,
            MessageCode::AskPublicChat => 150,
            MessageCode::StopPublicChat => 151,
            MessageCode::PublicChatMessage => 152,
            MessageCode::CantConnectToPeer => 1001,
            MessageCode::CantCreateRoom => 1003,
            MessageCode::Unknown => 1004,
        }
    }
}

impl vstd::std_specs::convert::FromSpecImpl<u32> for MessageCode {
    open spec fn obeys_from_spec() -> bool {
        true
    }

    open spec fn from_spec(v: u32) -> MessageCode {
        spec_code_from_u32(v)
    }
}

impl From<u32> for MessageCode {
    fn from(value: u32) -> (code: MessageCode) {
        match value {
            1 => MessageCode::Login,
            2 => MessageCode::SetListenPort,
            3 => MessageCode::GetPeerAddress,
            5 => MessageCode::AddUser,
            6 => MessageCode::RemoveUser,
            7 => MessageCode::GetUserStatus,
            13 => MessageCode::SayInChatRoom,
            14 => MessageCode::JoinRoom,
            15 => MessageCode::LeaveRoom,
            16 => MessageCode::UserJoinedRoom,
            17 => MessageCode::UserLeftRoom,
            18 => MessageCode::ConnectToPeer,
            22 => MessageCode::PrivateMessages,
            23 => MessageCode::AcknowledgePrivateMessage,
            26 => MessageCode::FileSearch,
            28 => MessageCode::SetOnlineStatus,
            35 => MessageCode::SharedFoldersAndFiles,
            36 => MessageCode::GetUserStats,
            41 => MessageCode::KickedFromServer,
            42 => MessageCode::UserSearch,
            51 => MessageCode::InterestAdd,
            52 => MessageCode::InterestRemove,
            54 => MessageCode::GetRecommendations,
            56 => MessageCode::GetGlobalRecommendations,
            57 => MessageCode::GetUserInterests,
            58 => MessageCode::AdminCommand,
            64 => MessageCode::RoomList,
            65 => MessageCode::ExactFileSearch,
            66 => MessageCode::GlobalAdminMessage,
            69 => MessageCode::PrivilegedUsers,
            71 => MessageCode::HaveNoParents,
            73 => MessageCode::ParentsIp,
            83 => MessageCode::ParentMinSpeed,
            84 => MessageCode::ParentSpeedRatio,
            92 => MessageCode::CheckPrivileges,
            93 => MessageCode::EmbeddedMessage,
            100 => MessageCode::AcceptChildren,
            102 => MessageCode::PossibleParents,
            103 => MessageCode::WishlistSearch,
            104 => MessageCode::WishlistInterval,
            110 => MessageCode::GetSimilarUsers,
            111 => MessageCode::GetItemRecommendations,
            112 => MessageCode::GetItemSimilarUsers,
            113 => MessageCode::RoomTickers,
            114 => MessageCode::RoomTickerAdd,
            115 => MessageCode::RoomTickerRemove,
            116 => MessageCode::SetRoomTicker,
            117 => MessageCode::HatedInterestAdd,
            118 => MessageCode::HatedInterestRemove,
            120 => MessageCode::RoomSearch,
            121 => MessageCode::SendUploadSpeed,
            123 => MessageCode::GivePrivileges,
            126 => MessageCode::BranchLevel,
            127 => MessageCode::BranchRoot,
            129 => MessageCode::ChildDepth,
            133 => MessageCode::PrivateRoomUsers,
            134 => MessageCode::PrivateRoomAddUser,
            135 => MessageCode::PrivateRoomRemoveUser,
            136 => MessageCode::PrivateRoomDropMembership,
            137 => MessageCode::PrivateRoomDropOwnership,
            138 => MessageCode::PrivateRoomUnknown,
            139 => MessageCode::PrivateRoomAdded,
            140 => MessageCode::PrivateRoomRemoved,
            141 => MessageCode::PrivateRoomToggle,
            142 => MessageCode::NewPassword,
            143 => MessageCode::PrivateRoomAddOperator,
            144 => MessageCode::PrivateRoomRemoveOperator,
            145 => MessageCode::PrivateRoomOperatorAdded,
            146 => MessageCode::PrivateRoomOperatorRemoved,
            148 => MessageCode::RoomOperators,
            149 => MessageCode::MessageUsers,
            150 => MessageCode::AskPublicChat,
            151 => MessageCode::StopPublicChat,
            152 => MessageCode::PublicChatMessage,
            1001 => MessageCode::CantConnectToPeer,
            1003 => MessageCode::CantCreateRoom,
            _ => MessageCode::Unknown,
        }
    }
}

impl MessageCode {
    /// The name of a code, as `Debug` prints it.
    pub open spec fn spec_name(self) -> Seq<char> {
        match self {
            MessageCode::Login => "Login"@,
            MessageCode::SetListenPort => "SetListenPort"@,
            MessageCode::GetPeerAddress => "GetPeerAddress"@,
            MessageCode::AddUser => "AddUser"@,
            MessageCode::RemoveUser => "RemoveUser"@,
            MessageCode::GetUserStatus => "GetUserStatus"@,
            MessageCode::SayInChatRoom => "SayInChatRoom"@,
            MessageCode::JoinRoom => "JoinRoom"@,
            MessageCode::LeaveRoom => "LeaveRoom"@,
            MessageCode::UserJoinedRoom => "UserJoinedRoom"@,
            MessageCode::UserLeftRoom => "UserLeftRoom"@,
            MessageCode::ConnectToPeer => "ConnectToPeer"@,
            MessageCode::PrivateMessages => "PrivateMessages"@,
            MessageCode::AcknowledgePrivateMessage => "AcknowledgePrivateMessage"@,
            MessageCode::FileSearch => "FileSearch"@,
            MessageCode::SetOnlineStatus => "SetOnlineStatus"@,
            MessageCode::SharedFoldersAndFiles => "SharedFoldersAndFiles"@,
            MessageCode::GetUserStats => "GetUserStats"@,
            MessageCode::KickedFromServer => "KickedFromServer"@,
            MessageCode::UserSearch => "UserSearch"@,
            MessageCode::InterestAdd => "InterestAdd"@,
            MessageCode::InterestRemove => "InterestRemove"@,
            MessageCode::GetRecommendations => "GetRecommendations"@,
            MessageCode::GetGlobalRecommendations => "GetGlobalRecommendations"@,
            MessageCode::GetUserInterests => "GetUserInterests"@,
            MessageCode::AdminCommand => "AdminCommand"@,
            MessageCode::RoomList => "RoomList"@,
            MessageCode::ExactFileSearch => "ExactFileSearch"@,
            MessageCode::GlobalAdminMessage => "GlobalAdminMessage"@,
            MessageCode::PrivilegedUsers => "PrivilegedUsers"@,
            MessageCode::HaveNoParents => "HaveNoParents"@,
            MessageCode::ParentsIp => "ParentsIp"@,
            MessageCode::ParentMinSpeed => "ParentMinSpeed"@,
            MessageCode::ParentSpeedRatio => "ParentSpeedRatio"@,
            MessageCode::CheckPrivileges => "CheckPrivileges"@,
            MessageCode::EmbeddedMessage => "EmbeddedMessage"@,
            MessageCode::AcceptChildren => "AcceptChildren"@,
            MessageCode::PossibleParents => "PossibleParents"@,
            MessageCode::WishlistSearch => "WishlistSearch"@,
            MessageCode::WishlistInterval => "WishlistInterval"@,
            MessageCode::GetSimilarUsers => "GetSimilarUsers"@,
            MessageCode::GetItemRecommendations => "GetItemRecommendations"@,
            MessageCode::GetItemSimilarUsers => "GetItemSimilarUsers"@,
            MessageCode::RoomTickers => "RoomTickers"@,
            MessageCode::RoomTickerAdd => "RoomTickerAdd"@,
            MessageCode::RoomTickerRemove => "RoomTickerRemove"@,
            MessageCode::SetRoomTicker => "SetRoomTicker"@,
            MessageCode::HatedInterestAdd => "HatedInterestAdd"@,
            MessageCode::HatedInterestRemove => "HatedInterestRemove"@,
            MessageCode::RoomSearch => "RoomSearch"@,
            MessageCode::SendUploadSpeed => "SendUploadSpeed"@,
            MessageCode::GivePrivileges => "GivePrivileges"@,
            MessageCode::BranchLevel => "BranchLevel"@,
            MessageCode::BranchRoot => "BranchRoot"@,
            MessageCode::ChildDepth => "ChildDepth"@,
            MessageCode::PrivateRoomUsers => "PrivateRoomUsers"@,
            MessageCode::PrivateRoomAddUser => "PrivateRoomAddUser"@,
            MessageCode::PrivateRoomRemoveUser => "PrivateRoomRemoveUser"@,
            MessageCode::PrivateRoomDropMembership => "PrivateRoomDropMembership"@,
            MessageCode::PrivateRoomDropOwnership => "PrivateRoomDropOwnership"@,
            MessageCode::PrivateRoomUnknown => "PrivateRoomUnknown"@,
            MessageCode::PrivateRoomAdded => "PrivateRoomAdded"@,
            MessageCode::PrivateRoomRemoved => "PrivateRoomRemoved"@,
            MessageCode::PrivateRoomToggle => "PrivateRoomToggle"@,
            MessageCode::NewPassword => "NewPassword"@,
            MessageCode::PrivateRoomAddOperator => "PrivateRoomAddOperator"@,
            MessageCode::PrivateRoomRemoveOperator => "PrivateRoomRemoveOperator"@,
            MessageCode::PrivateRoomOperatorAdded => "PrivateRoomOperatorAdded"@,
            MessageCode::PrivateRoomOperatorRemoved => "PrivateRoomOperatorRemoved"@,
            MessageCode::RoomOperators => "RoomOperators"@,
            MessageCode::MessageUsers => "MessageUsers"@,
            MessageCode::AskPublicChat => "AskPublicChat"@,
            MessageCode::StopPublicChat => "StopPublicChat"@,
            MessageCode::PublicChatMessage => "PublicChatMessage"@,
            MessageCode::CantConnectToPeer => "CantConnectToPeer"@,
            MessageCode::CantCreateRoom => "CantCreateRoom"@,
            MessageCode::Unknown => "Unknown"@,
        }
    }

    /// The name of a code, as `Debug` prints it.
    pub fn name(&self) -> (s: &'static str)
        ensures
            s@ == self.spec_name(),
    {
        match self {
            MessageCode::Login => "Login",
            MessageCode::SetListenPort => "SetListenPort",
            MessageCode::GetPeerAddress => "GetPeerAddress",
            MessageCode::AddUser => "AddUser",
            MessageCode::RemoveUser => "RemoveUser",
            MessageCode::GetUserStatus => "GetUserStatus",
            MessageCode::SayInChatRoom => "SayInChatRoom",
            MessageCode::JoinRoom => "JoinRoom",
            MessageCode::LeaveRoom => "LeaveRoom",
            MessageCode::UserJoinedRoom => "UserJoinedRoom",
            MessageCode::UserLeftRoom => "UserLeftRoom",
            MessageCode::ConnectToPeer => "ConnectToPeer",
            MessageCode::PrivateMessages => "PrivateMessages",
            MessageCode::AcknowledgePrivateMessage => "AcknowledgePrivateMessage",
            MessageCode::FileSearch => "FileSearch",
            MessageCode::SetOnlineStatus => "SetOnlineStatus",
            MessageCode::SharedFoldersAndFiles => "SharedFoldersAndFiles",
            MessageCode::GetUserStats => "GetUserStats",
            MessageCode::KickedFromServer => "KickedFromServer",
            MessageCode::UserSearch => "UserSearch",
            MessageCode::InterestAdd => "InterestAdd",
            MessageCode::InterestRemove => "InterestRemove",
            MessageCode::GetRecommendations => "GetRecommendations",
            MessageCode::GetGlobalRecommendations => "GetGlobalRecommendations",
            MessageCode::GetUserInterests => "GetUserInterests",
            MessageCode::AdminCommand => "AdminCommand",
            MessageCode::RoomList => "RoomList",
            MessageCode::ExactFileSearch => "ExactFileSearch",
            MessageCode::GlobalAdminMessage => "GlobalAdminMessage",
            MessageCode::PrivilegedUsers => "PrivilegedUsers",
            MessageCode::HaveNoParents => "HaveNoParents",
            MessageCode::ParentsIp => "ParentsIp",
            MessageCode::ParentMinSpeed => "ParentMinSpeed",
            MessageCode::ParentSpeedRatio => "ParentSpeedRatio",
            MessageCode::CheckPrivileges => "CheckPrivileges",
            MessageCode::EmbeddedMessage => "EmbeddedMessage",
            MessageCode::AcceptChildren => "AcceptChildren",
            MessageCode::PossibleParents => "PossibleParents",
            MessageCode::WishlistSearch => "WishlistSearch",
            MessageCode::WishlistInterval => "WishlistInterval",
            MessageCode::GetSimilarUsers => "GetSimilarUsers",
            MessageCode::GetItemRecommendations => "GetItemRecommendations",
            MessageCode::GetItemSimilarUsers => "GetItemSimilarUsers",
            MessageCode::RoomTickers => "RoomTickers",
            MessageCode::RoomTickerAdd => "RoomTickerAdd",
            MessageCode::RoomTickerRemove => "RoomTickerRemove",
            MessageCode::SetRoomTicker => "SetRoomTicker",
            MessageCode::HatedInterestAdd => "HatedInterestAdd",
            MessageCode::HatedInterestRemove => "HatedInterestRemove",
            MessageCode::RoomSearch => "RoomSearch",
            MessageCode::SendUploadSpeed => "SendUploadSpeed",
            MessageCode::GivePrivileges => "GivePrivileges",
            MessageCode::BranchLevel => "BranchLevel",
            MessageCode::BranchRoot => "BranchRoot",
            MessageCode::ChildDepth => "ChildDepth",
            MessageCode::PrivateRoomUsers => "PrivateRoomUsers",
            MessageCode::PrivateRoomAddUser => "PrivateRoomAddUser",
            MessageCode::PrivateRoomRemoveUser => "PrivateRoomRemoveUser",
            MessageCode::PrivateRoomDropMembership => "PrivateRoomDropMembership",
            MessageCode::PrivateRoomDropOwnership => "PrivateRoomDropOwnership",
            MessageCode::PrivateRoomUnknown => "PrivateRoomUnknown",
            MessageCode::PrivateRoomAdded => "PrivateRoomAdded",
            MessageCode::PrivateRoomRemoved => "PrivateRoomRemoved",
            MessageCode::PrivateRoomToggle => "PrivateRoomToggle",
            MessageCode::NewPassword => "NewPassword",
            MessageCode::PrivateRoomAddOperator => "PrivateRoomAddOperator",
            MessageCode::PrivateRoomRemoveOperator => "PrivateRoomRemoveOperator",
            MessageCode::PrivateRoomOperatorAdded => "PrivateRoomOperatorAdded",
            MessageCode::PrivateRoomOperatorRemoved => "PrivateRoomOperatorRemoved",
            MessageCode::RoomOperators => "RoomOperators",
            MessageCode::MessageUsers => "MessageUsers",
            MessageCode::AskPublicChat => "AskPublicChat",
            MessageCode::StopPublicChat => "StopPublicChat",
            MessageCode::PublicChatMessage => "PublicChatMessage",
            MessageCode::CantConnectToPeer => "CantConnectToPeer",
            MessageCode::CantCreateRoom => "CantCreateRoom",
            MessageCode::Unknown => "Unknown",
        }
    }
}

/// Every code but `Unknown` reads back from its wire value.
pub proof fn lemma_code_roundtrip(c: MessageCode)
    requires
        c != MessageCode::Unknown,
    ensures
        spec_code_from_u32(c.spec_code()) == c,
{
}

/// A message of a header whose length counts the code and `body`, then
/// `body`, is found whole by `check`, which leaves the position at `body`.
pub proof fn lemma_server_framed(w: Seq<u8>, rest: Seq<u8>, code: MessageCode, body: Seq<u8>)
    requires
        code != MessageCode::Unknown,
        4 + body.len() <= u32::MAX,
        w == ser_header((4 + body.len()) as u32, code) + body,
    ensures
        crate::server::response::spec_check(w + rest, 0) == Ok::<(Header, int), SlskError>(
            (Header { code, message_len: body.len() as usize }, 8),
        ),
        holds_at(w + rest, 8, body),
{
    broadcast use crate::frame::group_wire_lemmas;

    let s = w + rest;
    assert(holds_at(s, 0, w)) by {
        assert(s.subrange(0, w.len() as int) =~= w);
    }
    lemma_holds_part(s, 0, w, 0, le32((4 + body.len()) as u32));
    lemma_u32_at(s, 0, (4 + body.len()) as u32);
    lemma_holds_part(s, 0, w, 4, le32(code.spec_code()));
    lemma_u32_at(s, 4, code.spec_code());
    lemma_holds_part(s, 0, w, 8, body);
    lemma_code_roundtrip(code);
}

/// A message that has not arrived whole is `Incomplete` for `check`,
/// whatever part of it has arrived: the connection keeps the bytes and reads
/// the message once the rest is there.
pub proof fn lemma_server_partial_incomplete(s: Seq<u8>, k: int)
    requires
        crate::server::response::spec_check(s, 0) is Ok,
        0 <= k < HEADER_LEN + crate::server::response::spec_check(s, 0)->Ok_0.0.message_len,
    ensures
        crate::server::response::spec_check(s.subrange(0, k), 0) == Err::<(Header, int), SlskError>(
            SlskError::Incomplete,
        ),
{
    let t = s.subrange(0, k);
    if k >= HEADER_LEN {
        assert(t.subrange(0, 4) =~= s.subrange(0, 4));
        assert(t.subrange(4, 8) =~= s.subrange(4, 8));
    }
}

/// Header of a message from the server: the length of what follows the
/// length field, and the message code. `message_len` is that length minus the
/// four bytes of the code, so it counts the bytes of the message body.
#[derive(Debug, Clone, Copy, PartialEq, Eq, Structural)]
pub struct Header {
    pub code: MessageCode,
    pub message_len: usize,
}

impl View for Header {
    type V = Header;

    open spec fn view(&self) -> Header {
        *self
    }
}

impl ProtocolHeader for Header {
    type Code = MessageCode;

    open spec fn spec_message_len(&self) -> nat {
        self.message_len as nat
    }

    open spec fn spec_code(&self) -> MessageCode {
        self.code
    }

    fn message_len(&self) -> (n: usize) {
        self.message_len
    }

    fn new(message_len: usize, code: MessageCode) -> (h: Self)
        ensures
            h == (Header { code, message_len }),
    {
        Header { code, message_len }
    }
}

impl Header {
    /// Reads a header. A length below four, too short for the code it counts,
    /// is invalid.
    pub open spec fn spec_read(s: Seq<u8>, p: int) -> Read<Header> {
        match sp_u32(s, p) {
            Err(e) => Err(e),
            Ok((length, p)) => match sp_u32(s, p) {
                Err(e) => Err(e),
                Ok((code, p)) => if length < 4 {
                    Err(SlskError::InvalidData)
                } else {
                    Ok((Header { code: spec_code_from_u32(code), message_len: (length - 4) as usize }, p))
                },
            },
        }
    }

    pub fn read(src: &mut Reader) -> (res: Result<Self, SlskError>)
        ensures
            final(src).data() == old(src).data(),
            read_matches(res, Self::spec_read(old(src).data(), old(src).position()), final(src).position()),
    {
        let message_length = src.read_u32()?;
        let code = src.read_u32()?;
        let code = MessageCode::from(code);
        if message_length < 4 {
            return Err(SlskError::InvalidData);
        }
        let message_len = (message_length - 4) as usize;
        Ok(Header::new(message_len, code))
    }
}

/// Bytes of a message header: the length of what follows, then the code.
pub open spec fn ser_header(len: u32, code: MessageCode) -> Seq<u8> {
    le32(len) + le32(code.spec_code())
}

pub fn write_header(buffer: &mut Vec<u8>, len: u32, code: MessageCode)
    ensures
        final(buffer)@ == old(buffer)@ + ser_header(len, code),
{
    write_u32(buffer, len);
    write_u32(buffer, code.code());
    assert(final(buffer)@ =~= old(buffer)@ + ser_header(len, code));
}

/// A message whose body is one string.
pub open spec fn ser_str_msg(c: Seq<char>, code: MessageCode) -> Seq<u8> {
    ser_header((str_bytes(c) + HEADER_LEN) as u32, code) + ser_str(c)
}

/// A message without body.
pub open spec fn ser_empty_msg(code: MessageCode) -> Seq<u8> {
    ser_header(4, code)
}

/// A message whose body is one boolean.
pub open spec fn ser_bool_msg(b: bool, code: MessageCode) -> Seq<u8> {
    ser_header(5, code) + ser_bool(b)
}

/// A message whose body is one `u32`.
pub open spec fn ser_u32_msg(x: u32, code: MessageCode) -> Seq<u8> {
    ser_header(HEADER_LEN, code) + le32(x)
}

/// Writes a message whose body is one string.
pub fn write_str_msg(src: &str, code: MessageCode, buffer: &mut Vec<u8>)
    requires
        str_bytes(src@) + HEADER_LEN <= u32::MAX,
    ensures
        final(buffer)@ == old(buffer)@ + ser_str_msg(src@, code),
{
    let bytes = src.as_bytes();
    let message_len = bytes.len() as u32 + HEADER_LEN;
    write_header(buffer, message_len, code);
    write_string(buffer, src);
    assert(final(buffer)@ =~= old(buffer)@ + ser_str_msg(src@, code));
}

/// Writes a message without body.
pub fn write_empty_msg(code: MessageCode, buffer: &mut Vec<u8>)
    ensures
        final(buffer)@ == old(buffer)@ + ser_empty_msg(code),
{
    write_header(buffer, 4, code);
}

/// Writes a message whose body is one boolean, as the byte 1 or 0.
pub fn write_bool_msg(src: bool, code: MessageCode, buffer: &mut Vec<u8>)
    ensures
        final(buffer)@ == old(buffer)@ + ser_bool_msg(src, code),
{
    write_header(buffer, 5, code);
    write_bool(buffer, src);
    assert(final(buffer)@ =~= old(buffer)@ + ser_bool_msg(src, code));
}

/// Writes a message whose body is one `u32`.
pub fn write_u32_msg(src: u32, code: MessageCode, buffer: &mut Vec<u8>)
    ensures
        final(buffer)@ == old(buffer)@ + ser_u32_msg(src, code),
{
    write_header(buffer, HEADER_LEN, code);
    write_u32(buffer, src);
    assert(final(buffer)@ =~= old(buffer)@ + ser_u32_msg(src, code));
}

/// The protocol's number for each server message code: a code is written
/// as its number and its number reads back as the code.
pub proof fn lemma_code_numbers()
    ensures
        MessageCode::Login.spec_code() == 1 && spec_code_from_u32(1) == MessageCode::Login,
        MessageCode::SetListenPort.spec_code() == 2 && spec_code_from_u32(2) == MessageCode::SetListenPort,
        MessageCode::GetPeerAddress.spec_code() == 3 && spec_code_from_u32(3) == MessageCode::GetPeerAddress,
        MessageCode::AddUser.spec_code() == 5 && spec_code_from_u32(5) == MessageCode::AddUser,
        MessageCode::RemoveUser.spec_code() == 6 && spec_code_from_u32(6) == MessageCode::RemoveUser,
        MessageCode::GetUserStatus.spec_code() == 7 && spec_code_from_u32(7) == MessageCode::GetUserStatus,
        MessageCode::SayInChatRoom.spec_code() == 13 && spec_code_from_u32(13) == MessageCode::SayInChatRoom,
        MessageCode::JoinRoom.spec_code() == 14 && spec_code_from_u32(14) == MessageCode::JoinRoom,
        MessageCode::LeaveRoom.spec_code() == 15 && spec_code_from_u32(15) == MessageCode::LeaveRoom,
        MessageCode::UserJoinedRoom.spec_code() == 16 && spec_code_from_u32(16) == MessageCode::UserJoinedRoom,
        MessageCode::UserLeftRoom.spec_code() == 17 && spec_code_from_u32(17) == MessageCode::UserLeftRoom,
        MessageCode::ConnectToPeer.spec_code() == 18 && spec_code_from_u32(18) == MessageCode::ConnectToPeer,
        MessageCode::PrivateMessages.spec_code() == 22 && spec_code_from_u32(22) == MessageCode::PrivateMessages,
        MessageCode::AcknowledgePrivateMessage.spec_code() == 23 && spec_code_from_u32(23) == MessageCode::AcknowledgePrivateMessage,
        MessageCode::FileSearch.spec_code() == 26 && spec_code_from_u32(26) == MessageCode::FileSearch,
        MessageCode::SetOnlineStatus.spec_code() == 28 && spec_code_from_u32(28) == MessageCode::SetOnlineStatus,
        MessageCode::SharedFoldersAndFiles.spec_code() == 35 && spec_code_from_u32(35) == MessageCode::SharedFoldersAndFiles,
        MessageCode::GetUserStats.spec_code() == 36 && spec_code_from_u32(36) == MessageCode::GetUserStats,
        MessageCode::KickedFromServer.spec_code() == 41 && spec_code_from_u32(41) == MessageCode::KickedFromServer,
        MessageCode::UserSearch.spec_code() == 42 && spec_code_from_u32(42) == MessageCode::UserSearch,
        MessageCode::InterestAdd.spec_code() == 51 && spec_code_from_u32(51) == MessageCode::InterestAdd,
        MessageCode::InterestRemove.spec_code() == 52 && spec_code_from_u32(52) == MessageCode::InterestRemove,
        MessageCode::GetRecommendations.spec_code() == 54 && spec_code_from_u32(54) == MessageCode::GetRecommendations,
        MessageCode::GetGlobalRecommendations.spec_code() == 56 && spec_code_from_u32(56) == MessageCode::GetGlobalRecommendations,
        MessageCode::GetUserInterests.spec_code() == 57 && spec_code_from_u32(57) == MessageCode::GetUserInterests,
        MessageCode::AdminCommand.spec_code() == 58 && spec_code_from_u32(58) == MessageCode::AdminCommand,
        MessageCode::RoomList.spec_code() == 64 && spec_code_from_u32(64) == MessageCode::RoomList,
        MessageCode::ExactFileSearch.spec_code() == 65 && spec_code_from_u32(65) == MessageCode::ExactFileSearch,
        MessageCode::GlobalAdminMessage.spec_code() == 66 && spec_code_from_u32(66) == MessageCode::GlobalAdminMessage,
        MessageCode::PrivilegedUsers.spec_code() == 69 && spec_code_from_u32(69) == MessageCode::PrivilegedUsers,
        MessageCode::HaveNoParents.spec_code() == 71 && spec_code_from_u32(71) == MessageCode::HaveNoParents,
        MessageCode::ParentsIp.spec_code() == 73 && spec_code_from_u32(73) == MessageCode::ParentsIp,
        MessageCode::ParentMinSpeed.spec_code() == 83 && spec_code_from_u32(83) == MessageCode::ParentMinSpeed,
        MessageCode::ParentSpeedRatio.spec_code() == 84 && spec_code_from_u32(84) == MessageCode::ParentSpeedRatio,
        MessageCode::CheckPrivileges.spec_code() == 92 && spec_code_from_u32(92) == MessageCode::CheckPrivileges,
        MessageCode::EmbeddedMessage.spec_code() == 93 && spec_code_from_u32(93) == MessageCode::EmbeddedMessage,
        MessageCode::AcceptChildren.spec_code() == 100 && spec_code_from_u32(100) == MessageCode::AcceptChildren,
        MessageCode::PossibleParents.spec_code() == 102 && spec_code_from_u32(102) == MessageCode::PossibleParents,
        MessageCode::WishlistSearch.spec_code() == 103 && spec_code_from_u32(103) == MessageCode::WishlistSearch,
        MessageCode::WishlistInterval.spec_code() == 104 && spec_code_from_u32(104) == MessageCode::WishlistInterval,
        MessageCode::GetSimilarUsers.spec_code() == 110 && spec_code_from_u32(110) == MessageCode::GetSimilarUsers,
        MessageCode::GetItemRecommendations.spec_code() == 111 && spec_code_from_u32(111) == MessageCode::GetItemRecommendations,
        MessageCode::GetItemSimilarUsers.spec_code() == 112 && spec_code_from_u32(112) == MessageCode::GetItemSimilarUsers,
        MessageCode::RoomTickers.spec_code() == 113 && spec_code_from_u32(113) == MessageCode::RoomTickers,
        MessageCode::RoomTickerAdd.spec_code() == 114 && spec_code_from_u32(114) == MessageCode::RoomTickerAdd,
        MessageCode::RoomTickerRemove.spec_code() == 115 && spec_code_from_u32(115) == MessageCode::RoomTickerRemove,
        MessageCode::SetRoomTicker.spec_code() == 116 && spec_code_from_u32(116) == MessageCode::SetRoomTicker,
        MessageCode::HatedInterestAdd.spec_code() == 117 && spec_code_from_u32(117) == MessageCode::HatedInterestAdd,
        MessageCode::HatedInterestRemove.spec_code() == 118 && spec_code_from_u32(118) == MessageCode::HatedInterestRemove,
        MessageCode::RoomSearch.spec_code() == 120 && spec_code_from_u32(120) == MessageCode::RoomSearch,
        MessageCode::SendUploadSpeed.spec_code() == 121 && spec_code_from_u32(121) == MessageCode::SendUploadSpeed,
        MessageCode::GivePrivileges.spec_code() == 123 && spec_code_from_u32(123) == MessageCode::GivePrivileges,
        MessageCode::BranchLevel.spec_code() == 126 && spec_code_from_u32(126) == MessageCode::BranchLevel,
        MessageCode::BranchRoot.spec_code() == 127 && spec_code_from_u32(127) == MessageCode::BranchRoot,
        MessageCode::ChildDepth.spec_code() == 129 && spec_code_from_u32(129) == MessageCode::ChildDepth,
        MessageCode::PrivateRoomUsers.spec_code() == 133 && spec_code_from_u32(133) == MessageCode::PrivateRoomUsers,
        MessageCode::PrivateRoomAddUser.spec_code() == 134 && spec_code_from_u32(134) == MessageCode::PrivateRoomAddUser,
        MessageCode::PrivateRoomRemoveUser.spec_code() == 135 && spec_code_from_u32(135) == MessageCode::PrivateRoomRemoveUser,
        MessageCode::PrivateRoomDropMembership.spec_code() == 136 && spec_code_from_u32(136) == MessageCode::PrivateRoomDropMembership,
        MessageCode::PrivateRoomDropOwnership.spec_code() == 137 && spec_code_from_u32(137) == MessageCode::PrivateRoomDropOwnership,
        MessageCode::PrivateRoomUnknown.spec_code() == 138 && spec_code_from_u32(138) == MessageCode::PrivateRoomUnknown,
        MessageCode::PrivateRoomAdded.spec_code() == 139 && spec_code_from_u32(139) == MessageCode::PrivateRoomAdded,
        MessageCode::PrivateRoomRemoved.spec_code() == 140 && spec_code_from_u32(140) == MessageCode::PrivateRoomRemoved,
        MessageCode::PrivateRoomToggle.spec_code() == 141 && spec_code_from_u32(141) == MessageCode::PrivateRoomToggle,
        MessageCode::NewPassword.spec_code() == 142 && spec_code_from_u32(142) == MessageCode::NewPassword,
        MessageCode::PrivateRoomAddOperator.spec_code() == 143 && spec_code_from_u32(143) == MessageCode::PrivateRoomAddOperator,
        MessageCode::PrivateRoomRemoveOperator.spec_code() == 144 && spec_code_from_u32(144) == MessageCode::PrivateRoomRemoveOperator,
        MessageCode::PrivateRoomOperatorAdded.spec_code() == 145 && spec_code_from_u32(145) == MessageCode::PrivateRoomOperatorAdded,
        MessageCode::PrivateRoomOperatorRemoved.spec_code() == 146 && spec_code_from_u32(146) == MessageCode::PrivateRoomOperatorRemoved,
        MessageCode::RoomOperators.spec_code() == 148 && spec_code_from_u32(148) == MessageCode::RoomOperators,
        MessageCode::MessageUsers.spec_code() == 149 && spec_code_from_u32(149) == MessageCode::MessageUsers,
        MessageCode::AskPublicChat.spec_code() == 150 && spec_code_from_u32(150) == MessageCode::AskPublicChat,
        MessageCode::StopPublicChat.spec_code() == 151 && spec_code_from_u32(151) == MessageCode::StopPublicChat,
        MessageCode::PublicChatMessage.spec_code() == 152 && spec_code_from_u32(152) == MessageCode::PublicChatMessage,
        MessageCode::CantConnectToPeer.spec_code() == 1001 && spec_code_from_u32(1001) == MessageCode::CantConnectToPeer,
        MessageCode::CantCreateRoom.spec_code() == 1003 && spec_code_from_u32(1003) == MessageCode::CantCreateRoom,
{
}

/// A number reads as a known code only when that code is written as it.
pub proof fn lemma_code_from_u32_inverse(n: u32)
    ensures
        spec_code_from_u32(n) == MessageCode::Unknown || spec_code_from_u32(n).spec_code() == n,
{
}

} // verus!
