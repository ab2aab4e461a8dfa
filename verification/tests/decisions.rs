use soulseek_protocol::database::entities::{file_extension, DownloadDbEntry, PeerEntity};
use soulseek_protocol::message_common::ConnectionType;
use soulseek_protocol::peers::connection::Connection;
use soulseek_protocol::peers::handler::{
    handle_connection_message, handle_peer_message, listen_backoff, next_backoff, peer_init, shares_reply_packets,
    transfer_reply, user_info, HandlerAction, LISTEN_BACKOFF_LIMIT,
};
use soulseek_protocol::peers::listener::{
    check_available_permits, indirect_connection_request, parent_limit_request, should_follow_request, MAX_PARENT,
};
use soulseek_protocol::peers::messages::connection::PeerConnectionMessage;
use soulseek_protocol::peers::messages::p2p::request::PeerRequest;
use soulseek_protocol::peers::messages::p2p::response::PeerResponse;
use soulseek_protocol::peers::messages::p2p::shared_directories::{Directory, File, SharedDirectories};
use soulseek_protocol::peers::messages::p2p::transfer::{TransferReply, TransferRequest};
use soulseek_protocol::peers::messages::PeerRequestPacket;
use soulseek_protocol::server::peer::{ipv4_text, socket_address, Peer, PeerConnectionRequest};
use soulseek_protocol::server::request::ServerRequest;
use soulseek_protocol::SlskError;

#[test]
fn listen_backoff_doubles_until_the_limit() {
    let mut backoff = 1u64;
    let mut waits = vec![];
    loop {
        match next_backoff(backoff, LISTEN_BACKOFF_LIMIT) {
            Ok(next) => {
                waits.push(backoff);
                backoff = next;
            },
            Err(e) => {
                assert_eq!(e, SlskError::BackoffReached(4096));
                break;
            },
        }
    }
    assert_eq!(waits, vec![1, 2, 4, 8, 16, 32, 64, 128, 256, 512, 1024, 2048]);
}

#[test]
fn handler_answers_requests_and_ignores_replies() {
    assert!(matches!(handle_peer_message(&PeerResponse::SharesRequest), HandlerAction::SendShares));
    assert!(matches!(
        handle_peer_message(&PeerResponse::UserInfoRequest),
        HandlerAction::SendUserInfo
    ));
    let request = TransferRequest {
        direction: 1,
        ticket: 8,
        filename: "f".to_string(),
        file_size: Some(64),
    };
    match handle_peer_message(&PeerResponse::TransferRequest(request)) {
        HandlerAction::AcceptTransfer(TransferReply::TransferReplyOk { ticket, file_size }) => {
            assert_eq!((ticket, file_size), (8, 64));
        },
        other => panic!("unexpected {:?}", other),
    }
    let reply = SharedDirectories { dirs: vec![] };
    assert!(matches!(handle_peer_message(&PeerResponse::SharesReply(reply)), HandlerAction::Ignore));
}

#[test]
fn transfer_reply_keeps_ticket_and_size() {
    let request = TransferRequest {
        direction: 1,
        ticket: 3,
        filename: "g".to_string(),
        file_size: Some(10),
    };
    assert!(matches!(
        transfer_reply(&request),
        TransferReply::TransferReplyOk { ticket: 3, file_size: 10 }
    ));
}

#[test]
fn our_user_info_and_peer_init() {
    let info = user_info();
    assert_eq!(info.description, "Hello from vessel");
    assert_eq!(info.picture, None);
    assert!(!info.slots_free);
    match peer_init() {
        PeerConnectionMessage::PeerInit { username, connection_type, .. } => {
            assert_eq!(username, "vessel");
            assert_eq!(connection_type, ConnectionType::PeerToPeer);
        },
        other => panic!("unexpected {:?}", other),
    }
}

#[test]
fn shares_reply_is_preceded_by_a_shares_request() {
    let packets = shares_reply_packets(SharedDirectories { dirs: vec![] });
    assert_eq!(packets.len(), 2);
    assert!(matches!(packets[0], PeerRequestPacket::Message(PeerRequest::SharesRequest)));
    assert!(matches!(packets[1], PeerRequestPacket::Message(PeerRequest::SharesReply(_))));
}

#[test]
fn peer_init_sets_the_connection_type_and_user() {
    let mut connection = Connection::new();
    let mut username = None;
    handle_connection_message(&mut connection, &mut username, &PeerConnectionMessage::PierceFirewall(3));
    assert_eq!(connection.connection_type(), None);
    assert_eq!(username, None);
    let init = PeerConnectionMessage::PeerInit {
        username: "dave".to_string(),
        connection_type: ConnectionType::DistributedNetwork,
        token: 1,
    };
    handle_connection_message(&mut connection, &mut username, &init);
    assert_eq!(connection.connection_type(), Some(ConnectionType::DistributedNetwork));
    assert_eq!(username, Some("dave".to_string()));
}

#[test]
fn parents_are_searched_below_the_limit() {
    assert!(parent_limit_request(MAX_PARENT - 1).is_none());
    assert!(matches!(parent_limit_request(MAX_PARENT), Some(ServerRequest::NoParents(false))));
    assert!(matches!(parent_limit_request(MAX_PARENT + 5), Some(ServerRequest::NoParents(false))));
}

#[test]
fn our_own_connection_requests_are_skipped() {
    assert!(!should_follow_request(&"vessel".to_string()));
    assert!(should_follow_request(&"someone".to_string()));
}

#[test]
fn indirect_connection_request_asks_for_a_distributed_connection() {
    let peer = Peer { username: "erin".to_string(), ip: 1, port: 2 };
    match indirect_connection_request(&peer, 55) {
        ServerRequest::ConnectToPeer(request) => {
            assert_eq!(request.token, 55);
            assert_eq!(request.username, "erin");
            assert_eq!(request.connection_type, ConnectionType::DistributedNetwork);
        },
        other => panic!("unexpected {:?}", other),
    }
}

#[test]
fn peer_entity_addresses() {
    let peer = PeerEntity::new("toto", 0x7f000001, 0);
    assert_eq!(peer.username, "toto");
    assert_eq!(peer.get_address(), "127.0.0.1");
    assert_eq!(peer.get_address_with_port(), "127.0.0.1:0");
    assert_eq!(ipv4_text(0xc0a80011), "192.168.0.17");
    assert_eq!(socket_address(0x0a000001, 2234), "10.0.0.1:2234");
    let request = PeerConnectionRequest {
        username: "u".to_string(),
        connection_type: ConnectionType::PeerToPeer,
        ip: 5,
        port: 6,
        token: 7,
        privileged: false,
    };
    let entity = PeerEntity::from(request);
    assert_eq!((entity.ip, entity.port), (5, 6));
    let entity = PeerEntity::from(Peer { username: "p".to_string(), ip: 8, port: 9 });
    assert_eq!(entity.username, "p");
}

#[test]
fn download_entry_starts_at_zero() {
    let request = TransferRequest {
        direction: 1,
        ticket: 12,
        filename: "song.ogg".to_string(),
        file_size: Some(4096),
    };
    let entry = DownloadDbEntry::from_request(&request);
    assert_eq!(entry.file_name, "song.ogg");
    assert_eq!(entry.ticket, 12);
    assert_eq!(entry.file_size, 4096);
    assert_eq!(entry.progress, 0);
}

#[test]
fn extensions_follow_the_last_dot() {
    assert_eq!(file_extension("a.tar.gz"), "gz");
    assert_eq!(file_extension("README"), "README");
    assert_eq!(file_extension("trailing."), "");
    let file = File::from_disk("track.mp3".to_string(), 300);
    assert_eq!(file.extension, "mp3");
    assert_eq!(file.size, 300);
    assert!(file.attributes.is_empty());
}

#[test]
fn error_text_names_the_backoff() {
    assert_eq!(SlskError::BackoffReached(64).to_string(), "Backoff period reached : 64");
    assert_eq!(SlskError::Incomplete.to_string(), "stream ended early");
    assert_eq!(SlskError::NoTicket.to_string(), "Ticket for download not found");
}

#[test]
fn inbound_connections_need_a_free_slot() {
    assert_eq!(check_available_permits(1), Ok(()));
    assert_eq!(check_available_permits(4096), Ok(()));
    assert_eq!(check_available_permits(0), Err(SlskError::NoPermitAvailable));
}

#[test]
fn disk_entries_become_directories() {
    let with_file = Directory::from_disk_entry("music".to_string(), Some(("song.flac".to_string(), 42)));
    assert_eq!(with_file.name, "music");
    assert_eq!(with_file.files.len(), 1);
    assert_eq!(with_file.files[0].name, "song.flac");
    assert_eq!(with_file.files[0].size, 42);
    assert_eq!(with_file.files[0].extension, "flac");
    assert!(with_file.files[0].attributes.is_empty());
    let subdirectory = Directory::from_disk_entry("music".to_string(), None);
    assert_eq!(subdirectory.name, "music");
    assert!(subdirectory.files.is_empty());
}

#[test]
fn silent_peer_times_out_after_waits_up_to_2048_ms() {
    let peer = Some("alice".to_string());
    let mut backoff = 1;
    let mut waits = vec![];
    loop {
        match listen_backoff(&peer, backoff) {
            Ok(next) => {
                waits.push(backoff);
                backoff = next;
            }
            Err(e) => {
                assert_eq!(e, SlskError::ListenTimedOut(Some("alice".to_string()), 4096));
                assert_eq!(e.to_string(), "Timed out listening for peer Some(\"alice\") after 4096ms");
                break;
            }
        }
    }
    assert_eq!(waits, vec![1, 2, 4, 8, 16, 32, 64, 128, 256, 512, 1024, 2048]);
    assert_eq!(
        listen_backoff(&None, 4096).unwrap_err().to_string(),
        "Timed out listening for peer None after 4096ms"
    );
}

#[test]
fn request_kinds_name_their_variants() {
    assert_eq!(ServerRequest::SetListenPort(1).kind(), "SetListenPort");
    assert_eq!(ServerRequest::JoinRoom("x".to_string()).kind(), "JoinRoom");
    assert_eq!(ServerRequest::NoParents(true).kind(), "NoParent");
    assert_eq!(ServerRequest::Unimplemented.kind(), "Unimplemented");
}
