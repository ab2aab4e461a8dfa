use soulseek_protocol::server::user::Status;
use soulseek_protocol::frame::Reader;
use soulseek_protocol::server::chat::SayInChat;
use soulseek_protocol::server::connection::SlskConnection;
use soulseek_protocol::server::login::LoginRequest;
use soulseek_protocol::server::request::ServerRequest;
use soulseek_protocol::server::response::ServerResponse;
use soulseek_protocol::server::room::UserRoomEvent;
use soulseek_protocol::server::shares::SharedFolderAndFiles;
use soulseek_protocol::server::admin::AdminCommand;
use soulseek_protocol::server::{Header, MessageCode};
use soulseek_protocol::SlskError;

fn write_to_buff_blocking(request: ServerRequest) -> Vec<u8> {
    let mut data = Vec::new();
    request.write_to_buf(&mut data);
    data
}

#[test]
fn write_login() {
    let login = ServerRequest::Login(LoginRequest::new("test", "s33cr3t"));

    let data = write_to_buff_blocking(login);

    assert_eq!(&data[8..], b"\x04\x00\x00\x00test\x07\x00\x00\x00s33cr3t\x9d\x00\x00\x00 \x00\x00\x00dbc93f24d8f3f109deed23c3e2f8b74c\x13\x00\x00\x00");
}

#[test]
fn set_listen_port() {
    let listen_port = ServerRequest::SetListenPort(1337);

    let data = write_to_buff_blocking(listen_port);

    assert_eq!(&data[8..], b"9\x05\x00\x00");
}

#[test]
fn get_peer_address() {
    let peer_address = ServerRequest::GetPeerAddress("test".to_string());

    let data = write_to_buff_blocking(peer_address);

    assert_eq!(&data[8..], b"\x04\x00\x00\x00test");
}

#[test]
fn get_add_user() {
    let add_user = ServerRequest::AddUser("test".to_string());

    let data = write_to_buff_blocking(add_user);

    assert_eq!(&data[8..], b"\x04\x00\x00\x00test");
}

#[test]
fn interest_add() {
    let add_interest = ServerRequest::AddUser("hip hop".to_string());

    let data = write_to_buff_blocking(add_interest);

    assert_eq!(&data[8..], [7, 0, 0, 0, 104, 105, 112, 32, 104, 111, 112]);
}

#[test]
fn remove_user() {
    let remove_user = ServerRequest::RemoveUser("test".to_string());

    let data = write_to_buff_blocking(remove_user);

    assert_eq!(&data[8..], b"\x04\x00\x00\x00test");
}

#[test]
fn get_user_status() {
    let get_user_status = ServerRequest::GetUserStatus("test".to_string());

    let data = write_to_buff_blocking(get_user_status);

    assert_eq!(&data[8..], b"\x04\x00\x00\x00test");
}

#[test]
fn sets_status() {
    let sets_status = ServerRequest::SetOnlineStatus(1);

    let data = write_to_buff_blocking(sets_status);

    assert_eq!(&data[8..], b"\x01\x00\x00\x00");
}

#[test]
fn start_chat() {
    let start_chat = ServerRequest::EnablePublicChat;

    let data = write_to_buff_blocking(start_chat);

    assert_eq!(&data[8..], b"");
}

#[test]
fn chat_message() {
    let chat_message = ServerRequest::SendChatMessage(SayInChat {
        room: "nicotine".to_string(),
        message: "Wassup?".to_string(),
    });

    let data = write_to_buff_blocking(chat_message);

    assert_eq!(
        &data[8..],
        b"\x08\x00\x00\x00nicotine\x07\x00\x00\x00Wassup?"
    );
}

#[test]
fn join_room() {
    let join_room = ServerRequest::JoinRoom("indie".to_string());

    let data = write_to_buff_blocking(join_room);

    assert_eq!(&data[8..], [5, 0, 0, 0, 105, 110, 100, 105, 101]);
}

#[test]
fn drop_private_room_membership() {
    let drop_private_room_membership =
        ServerRequest::PrivateRoomDropMemberShip("nicotine".to_string());

    let data = write_to_buff_blocking(drop_private_room_membership);

    assert_eq!(&data[8..], b"\x08\x00\x00\x00nicotine");
}

#[test]
fn drop_private_room_ownership() {
    let drop_private_room_ownership =
        ServerRequest::PrivateRoomDropOwnerShip("nicotine".to_string());

    let data = write_to_buff_blocking(drop_private_room_ownership);

    assert_eq!(&data[8..], b"\x08\x00\x00\x00nicotine");
}

#[test]
fn private_room_unknown() {
    let private_room_unknown = ServerRequest::PrivateRoomUnknown("nicotine".to_string());

    let data = write_to_buff_blocking(private_room_unknown);

    assert_eq!(&data[8..], b"\x08\x00\x00\x00nicotine");
}

#[test]
fn private_room_remove_user() {
    let private_room_remove_user = ServerRequest::RemoveUserFromPrivateRoom(UserRoomEvent {
        room: "nicotine".to_string(),
        username: "admin".to_string(),
    });

    let data = write_to_buff_blocking(private_room_remove_user);

    assert_eq!(&data[8..], b"\x08\x00\x00\x00nicotine\x05\x00\x00\x00admin");
}

#[test]
fn check_privileges() {
    let check_privileges = ServerRequest::CheckPrivileges;

    let data = write_to_buff_blocking(check_privileges);

    let empty: [u8; 0] = [];
    assert_eq!(&data[8..], empty);
}

#[test]
fn have_no_parent() {
    let no_parent = ServerRequest::NoParents(true);

    let data = write_to_buff_blocking(no_parent);

    assert_eq!(&data[8..], [1]);
}

#[test]
fn have_parent() {
    let have_parent = ServerRequest::NoParents(false);

    let data = write_to_buff_blocking(have_parent);

    assert_eq!(&data[8..], [0]);
}

#[test]
fn room_list() {
    let room_list = ServerRequest::RoomList;

    let data = write_to_buff_blocking(room_list);

    let empty: [u8; 0] = [];
    assert_eq!(&data[8..], empty);
}

#[test]
fn accept_children() {
    let accept_children = ServerRequest::AcceptChildren(true);

    let data = write_to_buff_blocking(accept_children);

    assert_eq!(&data[8..], [1]);
}

#[test]
fn deny_children() {
    let deny_children = ServerRequest::AcceptChildren(false);

    let data = write_to_buff_blocking(deny_children);

    assert_eq!(&data[8..], [0]);
}

#[test]
fn branch_level() {
    let branch_level = ServerRequest::BranchLevel(0);

    let data = write_to_buff_blocking(branch_level);

    assert_eq!(&data[8..], [0, 0, 0, 0]);
}

#[test]
fn branch_root() {
    let branch_root = ServerRequest::BranchRoot("oknozor".to_string());

    let data = write_to_buff_blocking(branch_root);

    assert_eq!(&data[8..], [7, 0, 0, 0, 111, 107, 110, 111, 122, 111, 114]);
}

#[test]
fn toggle_private_rooms() {
    let branch_root = ServerRequest::PrivateRoomToggle(true);

    let data = write_to_buff_blocking(branch_root);

    assert_eq!(&data[8..], [1]);
}

#[test]
fn disable_private_rooms() {
    let branch_root = ServerRequest::PrivateRoomToggle(false);

    let data = write_to_buff_blocking(branch_root);

    assert_eq!(&data[8..], [0]);
}

#[test]
fn shared_folder_counts_follow_a_header_that_counts_them() {
    let shared_folders =
        ServerRequest::SharedFolderAndFiles(SharedFolderAndFiles { dirs: 2, files: 3 });

    let data = write_to_buff_blocking(shared_folders);

    assert_eq!(data, [12, 0, 0, 0, 35, 0, 0, 0, 2, 0, 0, 0, 3, 0, 0, 0]);
}

#[test]
fn headers_count_the_code_and_the_body() {
    let data = write_to_buff_blocking(ServerRequest::JoinRoom("indie".to_string()));
    assert_eq!(&data[..8], [13, 0, 0, 0, 14, 0, 0, 0]);
    assert_eq!(data.len(), 17);
}

#[test]
fn login_digest_is_md5_of_user_name_and_password() {
    let login = LoginRequest::new("test", "s33cr3t");
    assert_eq!(login.md5_digest, "dbc93f24d8f3f109deed23c3e2f8b74c");
    let other = LoginRequest::new("test", "other");
    assert_ne!(other.md5_digest, login.md5_digest);
}

#[test]
fn to_bytes_matches_write_to_buf() {
    let request = ServerRequest::GetUserStatus("test".to_string());
    let bytes = request.to_bytes();
    assert_eq!(bytes, write_to_buff_blocking(ServerRequest::GetUserStatus("test".to_string())));
    assert_eq!(request.kind(), "GetUserStatus");
}

#[test]
fn message_codes_read_back() {
    assert_eq!(MessageCode::from(14), MessageCode::JoinRoom);
    assert_eq!(MessageCode::JoinRoom.code(), 14);
    assert_eq!(MessageCode::from(MessageCode::Login.code()), MessageCode::Login);
    assert_eq!(MessageCode::from(9999), MessageCode::Unknown);
    assert_eq!(MessageCode::JoinRoom.name(), "JoinRoom");
}

#[test]
fn check_waits_for_a_whole_message() {
    let bytes = [13u8, 0, 0, 0, 14, 0, 0, 0, 5, 0, 0];
    let mut reader = Reader::new(&bytes);
    assert_eq!(ServerResponse::check(&mut reader).unwrap_err(), SlskError::Incomplete);
    let short = [3u8, 0, 0];
    let mut reader = Reader::new(&short);
    assert_eq!(ServerResponse::check(&mut reader).unwrap_err(), SlskError::Incomplete);
}

#[test]
fn check_refuses_a_length_below_the_code() {
    let bytes = [2u8, 0, 0, 0, 14, 0, 0, 0];
    let mut reader = Reader::new(&bytes);
    assert_eq!(ServerResponse::check(&mut reader).unwrap_err(), SlskError::InvalidData);
}

#[test]
fn parses_a_room_left_message() {
    let mut bytes = vec![13u8, 0, 0, 0, 15, 0, 0, 0, 5, 0, 0, 0];
    bytes.extend_from_slice(b"indie");
    let mut reader = Reader::new(&bytes);
    let header = ServerResponse::check(&mut reader).unwrap();
    assert_eq!(header.code, MessageCode::LeaveRoom);
    assert_eq!(header.message_len, 9);
    match ServerResponse::parse(&mut reader, &header).unwrap() {
        ServerResponse::RoomLeft(room) => assert_eq!(room, "indie"),
        other => panic!("unexpected {:?}", other),
    }
}

#[test]
fn truncated_body_is_an_unexpected_eof() {
    let bytes = [8u8, 0, 0, 0, 15, 0, 0, 0, 5, 0, 0, 0];
    let mut reader = Reader::new(&bytes);
    let header = ServerResponse::check(&mut reader).unwrap();
    assert_eq!(
        ServerResponse::parse(&mut reader, &header).unwrap_err(),
        SlskError::UnexpectedEof
    );
}

#[test]
fn server_connection_consumes_parsed_messages() {
    let mut connection = SlskConnection::new();
    let mut bytes = vec![13u8, 0, 0, 0, 15, 0, 0, 0, 5, 0, 0, 0];
    bytes.extend_from_slice(b"indie");
    connection.extend(&bytes[..10]);
    assert!(connection.parse_response().unwrap().is_none());
    connection.extend(&bytes[10..]);
    assert!(connection.parse_response().unwrap().is_some());
    assert!(connection.end_of_stream().is_ok());
    connection.extend(&[1, 2]);
    assert_eq!(connection.end_of_stream().unwrap_err(), SlskError::ConnectionResetByPeer);
}

#[test]
fn every_partial_message_waits_for_the_rest() {
    let bytes = write_to_buff_blocking(ServerRequest::SetListenPort(2255));
    for k in 0..bytes.len() {
        let mut connection = SlskConnection::new();
        connection.extend(&bytes[..k]);
        assert!(connection.parse_response().unwrap().is_none(), "prefix of {} bytes", k);
    }
    let mut connection = SlskConnection::new();
    connection.extend(&bytes);
    match connection.parse_response().unwrap() {
        Some(ServerResponse::ListenPort(port)) => assert_eq!(port, 2255),
        other => panic!("unexpected {:?}", other),
    }
    assert!(connection.end_of_stream().is_ok());
}

#[test]
fn status_values_follow_the_online_status_codes() {
    assert_eq!(Status::from_u32(0), Status::Offline);
    assert_eq!(Status::from_u32(1), Status::Away);
    assert_eq!(Status::from_u32(2), Status::Online);
    assert_eq!(Status::from_u32(3), Status::Unknown);
}

#[test]
fn message_codes_read_back_from_their_values() {
    assert_eq!(MessageCode::from(1), MessageCode::Login);
    assert_eq!(MessageCode::from(4), MessageCode::Unknown);
    assert_eq!(MessageCode::from(1001), MessageCode::CantConnectToPeer);
    assert_eq!(MessageCode::from(1003), MessageCode::CantCreateRoom);
    assert_eq!(MessageCode::from(1002), MessageCode::Unknown);
}

#[test]
fn every_request_length_counts_the_bytes_after_it() {
    let requests = vec![
        ServerRequest::SharedFolderAndFiles(SharedFolderAndFiles { dirs: 2, files: 3 }),
        ServerRequest::AdminCommand(AdminCommand {
            string1: "ab".to_string(),
            string2: vec!["c".to_string(), "de".to_string(), "f".to_string()],
        }),
        ServerRequest::JoinRoom("indie".to_string()),
        ServerRequest::NoParents(true),
        ServerRequest::Login(LoginRequest::new("username", "password")),
    ];
    for request in requests {
        let data = write_to_buff_blocking(request);
        let len = u32::from_le_bytes([data[0], data[1], data[2], data[3]]) as usize;
        assert_eq!(len, data.len() - 4);
    }
    let login = write_to_buff_blocking(ServerRequest::Login(LoginRequest::new("username", "password")));
    assert_eq!(&login[..4], [72, 0, 0, 0]);
}

#[test]
fn parse_leaves_the_reader_after_the_fields() {
    let bytes = [57u8, 5, 0, 0];
    let mut reader = Reader::new(&bytes);
    let header = Header { code: MessageCode::SetListenPort, message_len: 4 };
    match ServerResponse::parse(&mut reader, &header).unwrap() {
        ServerResponse::ListenPort(port) => assert_eq!(port, 1337),
        other => panic!("unexpected {:?}", other),
    }
    assert_eq!(reader.pos(), 4);
}

#[test]
fn response_kinds_name_their_variants() {
    assert_eq!(ServerResponse::KickedFromServer.kind(), "KickedFromServer");
    assert_eq!(ServerResponse::Unknown(0, 0, vec![]).kind(), "Unknown");
    assert_ne!(ServerResponse::ListenPort(1).kind(), ServerResponse::TimeLeft(1).kind());
    assert_eq!(ServerResponse::ListenPort(1).kind(), ServerResponse::ListenPort(2).kind());
}

#[test]
fn requests_report_whether_they_fit_their_length_fields() {
    assert!(ServerRequest::JoinRoom("indie".to_string()).fits());
    assert!(ServerRequest::Login(LoginRequest::new("test", "s33cr3t")).fits());
    assert!(ServerRequest::SetListenPort(2255).fits());
    assert!(!ServerRequest::Unimplemented.fits());
    let login = LoginRequest::new("username", "password");
    assert_eq!(login.md5_digest.len(), 32);
}

#[test]
fn requests_carry_the_codes_their_names_denote() {
    let cases = vec![
        (ServerRequest::RemoveLinkedInterest("jazz".to_string()), 52u32),
        (ServerRequest::PrivateRoomDropOwnerShip("room".to_string()), 137),
        (ServerRequest::PrivateRoomUnknown("room".to_string()), 138),
    ];
    for (request, code) in cases {
        let data = write_to_buff_blocking(request);
        assert_eq!(u32::from_le_bytes([data[4], data[5], data[6], data[7]]), code);
    }
}
