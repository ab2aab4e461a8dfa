use soulseek_protocol::frame::{ParseBytes, Reader};
use soulseek_protocol::message_common::ConnectionType;
use soulseek_protocol::peer_connection::PeerConnection;
use soulseek_protocol::peer_message::messages::PeerMessage;
use soulseek_protocol::peers::connection::Connection;
use soulseek_protocol::peers::messages::connection::{
    ConnectionMessageCode, ConnectionMessageHeader, PeerConnectionMessage,
};
use soulseek_protocol::peers::messages::distributed::{
    DistributedMessage, DistributedMessageCode, SearchRequest,
};
use soulseek_protocol::peers::messages::p2p::folder_content::FolderContentsRequest;
use soulseek_protocol::peers::messages::p2p::request::PeerRequest;
use soulseek_protocol::peers::messages::p2p::response::PeerResponse;
use soulseek_protocol::peers::messages::p2p::transfer::{
    PlaceInQueueReply, QueueFailed, TransferReply, TransferRequest, UploadFailed,
};
use soulseek_protocol::peers::messages::p2p::user_info::UserInfo;
use soulseek_protocol::peers::messages::p2p::{PeerMessageCode, PeerMessageHeader};
use soulseek_protocol::peers::messages::{PeerRequestPacket, PeerResponsePacket};
use soulseek_protocol::{ProtocolHeader, SlskError};

fn written(request: &PeerRequest) -> Vec<u8> {
    let mut buffer = vec![];
    request.write_to_buf(&mut buffer).unwrap();
    buffer
}

fn read_back(bytes: &[u8]) -> PeerResponse {
    let mut reader = Reader::new(bytes);
    let header = PeerResponse::check(&mut reader).unwrap();
    PeerResponse::parse(&mut reader, &header).unwrap()
}

#[test]
fn pierce_firewall_is_five_bytes_long() {
    let mut buffer = vec![];
    PeerConnectionMessage::PierceFirewall(7).write_to_buf(&mut buffer);
    assert_eq!(buffer, [5, 0, 0, 0, 0, 7, 0, 0, 0]);
}

#[test]
fn peer_init_round_trip_through_a_connection() {
    let message = PeerConnectionMessage::PeerInit {
        username: "alice".to_string(),
        connection_type: ConnectionType::PeerToPeer,
        token: 99,
    };
    let mut buffer = vec![];
    message.write_to_buf(&mut buffer);
    assert_eq!(&buffer[..5], [19, 0, 0, 0, 1]);
    buffer.extend_from_slice(&[9, 9]);

    let mut connection = Connection::new();
    connection.extend(&buffer[..6]);
    assert!(connection.read_response().unwrap().is_none());
    connection.extend(&buffer[6..]);
    match connection.read_response().unwrap() {
        Some(PeerResponsePacket::ConnectionMessage(PeerConnectionMessage::PeerInit {
            username,
            connection_type,
            token,
        })) => {
            assert_eq!(username, "alice");
            assert_eq!(connection_type, ConnectionType::PeerToPeer);
            assert_eq!(token, 99);
        },
        other => panic!("unexpected {:?}", other),
    }
    assert!(!connection.is_empty());
    assert_eq!(connection.end_of_stream().unwrap_err(), SlskError::ConnectionResetByPeer);
}

#[test]
fn unknown_connection_type_is_invalid_data() {
    let mut bytes = vec![15u8, 0, 0, 0, 1, 1, 0, 0, 0, b'x', 1, 0, 0, 0, b'Z'];
    bytes.extend_from_slice(&1u32.to_le_bytes());
    let mut reader = Reader::new(&bytes);
    let header = PeerConnectionMessage::check(&mut reader).unwrap();
    assert_eq!(header.code, ConnectionMessageCode::PeerInit);
    assert_eq!(
        PeerConnectionMessage::parse(&mut reader, &header).unwrap_err(),
        SlskError::InvalidData
    );
}

#[test]
fn unknown_connection_code_is_an_unknown_message() {
    let bytes = [5u8, 0, 0, 0, 9, 1, 0, 0, 0];
    let mut reader = Reader::new(&bytes);
    let header = ConnectionMessageHeader::read(&mut reader).unwrap();
    assert_eq!(header.code, ConnectionMessageCode::Unknown);
    assert_eq!(header.message_len, 4);
    assert_eq!(
        PeerConnectionMessage::parse(&mut reader, &header).unwrap_err(),
        SlskError::UnknownMessage
    );
}

#[test]
fn connection_type_codes() {
    assert_eq!(ConnectionType::PeerToPeer.as_str(), "P");
    assert_eq!(ConnectionType::DistributedNetwork.bytes(), b"D".to_vec());
    assert_eq!(ConnectionType::from_code(&"F".to_string()), Some(ConnectionType::FileTransfer));
    assert_eq!(ConnectionType::from_code(&"X".to_string()), None);
}

#[test]
fn distributed_messages_round_trip() {
    let messages = vec![
        DistributedMessage::Ping,
        DistributedMessage::BranchLevel(3),
        DistributedMessage::BranchRoot("root".to_string()),
        DistributedMessage::ChildDepth(2),
        DistributedMessage::SearchRequest(SearchRequest {
            unknown: 1,
            username: "bob".to_string(),
            ticket: 77,
            query: "jazz".to_string(),
        }),
    ];
    for message in messages {
        let mut buffer = vec![];
        message.write_to_buf(&mut buffer);
        let mut reader = Reader::new(&buffer);
        let header = DistributedMessage::check(&mut reader).unwrap();
        assert_eq!(header.message_len, buffer.len() - 5);
        let parsed = DistributedMessage::parse(&mut reader, &header).unwrap();
        assert_eq!(parsed.kind(), message.kind());
        assert_eq!(reader.pos(), buffer.len());
    }
}

#[test]
fn ping_is_a_bare_header() {
    let mut buffer = vec![];
    DistributedMessage::Ping.write_to_buf(&mut buffer);
    assert_eq!(buffer, [1, 0, 0, 0, 0]);
}

#[test]
fn unknown_distributed_code_reads_as_unknown() {
    assert_eq!(DistributedMessageCode::from_u8(42), DistributedMessageCode::Unknown);
    let bytes = [1u8, 0, 0, 0, 42];
    let mut reader = Reader::new(&bytes);
    let header = DistributedMessage::check(&mut reader).unwrap();
    assert_eq!(DistributedMessage::parse(&mut reader, &header).unwrap().kind(), "Unknown");
}

#[test]
fn shares_and_user_info_requests_are_bare_headers() {
    assert_eq!(written(&PeerRequest::SharesRequest), [4, 0, 0, 0, 4, 0, 0, 0]);
    assert_eq!(written(&PeerRequest::UserInfoRequest), [4, 0, 0, 0, 15, 0, 0, 0]);
    assert!(matches!(read_back(&written(&PeerRequest::SharesRequest)), PeerResponse::SharesRequest));
}

#[test]
fn user_info_round_trip() {
    let info = UserInfo {
        description: "hello".to_string(),
        picture: Some("pic".to_string()),
        total_upload: 10,
        queue_size: 2,
        slots_free: true,
    };
    let bytes = written(&PeerRequest::UserInfoReply(info));
    assert_eq!(u32::from_le_bytes([bytes[0], bytes[1], bytes[2], bytes[3]]) as usize, bytes.len() - 4);
    match read_back(&bytes) {
        PeerResponse::UserInfoReply(parsed) => {
            assert_eq!(parsed.description, "hello");
            assert_eq!(parsed.picture, Some("pic".to_string()));
            assert_eq!(parsed.total_upload, 10);
            assert_eq!(parsed.queue_size, 2);
            assert!(parsed.slots_free);
        },
        other => panic!("unexpected {:?}", other),
    }
}

#[test]
fn unreadable_picture_is_dropped() {
    let mut body = vec![0u8, 0, 0, 0];
    body.push(1);
    body.extend_from_slice(&[200, 0, 0, 0]);
    body.extend_from_slice(&[1, 0, 0, 0, 2, 0, 0, 0, 1]);
    let mut reader = Reader::new(&body);
    let info = UserInfo::parse(&mut reader).unwrap();
    assert_eq!(info.picture, None);
    assert_eq!(info.total_upload, 1);
    assert_eq!(info.queue_size, 2);
    assert!(info.slots_free);
}

#[test]
fn transfer_request_carries_a_size_for_uploads() {
    let upload = TransferRequest {
        direction: 1,
        ticket: 5,
        filename: "a.mp3".to_string(),
        file_size: Some(1000),
    };
    match read_back(&written(&PeerRequest::TransferRequest(upload))) {
        PeerResponse::TransferRequest(parsed) => {
            assert_eq!(parsed.direction, 1);
            assert_eq!(parsed.ticket, 5);
            assert_eq!(parsed.filename, "a.mp3");
            assert_eq!(parsed.file_size, Some(1000));
        },
        other => panic!("unexpected {:?}", other),
    }
    let download = TransferRequest {
        direction: 0,
        ticket: 6,
        filename: "b.mp3".to_string(),
        file_size: None,
    };
    match read_back(&written(&PeerRequest::TransferRequest(download))) {
        PeerResponse::TransferRequest(parsed) => assert_eq!(parsed.file_size, None),
        other => panic!("unexpected {:?}", other),
    }
}

#[test]
fn transfer_replies_round_trip() {
    let ok = written(&PeerRequest::TransferReply(TransferReply::TransferReplyOk {
        ticket: 3,
        file_size: 9,
    }));
    assert_eq!(ok, [17, 0, 0, 0, 41, 0, 0, 0, 3, 0, 0, 0, 1, 9, 0, 0, 0, 0, 0, 0, 0]);
    match read_back(&ok) {
        PeerResponse::TransferReply(TransferReply::TransferReplyOk { ticket, file_size }) => {
            assert_eq!((ticket, file_size), (3, 9));
        },
        other => panic!("unexpected {:?}", other),
    }
    let rejected = written(&PeerRequest::TransferReply(TransferReply::TransferRejected {
        ticket: 4,
        reason: "Queued".to_string(),
    }));
    match read_back(&rejected) {
        PeerResponse::TransferReply(TransferReply::TransferRejected { ticket, reason }) => {
            assert_eq!(ticket, 4);
            assert_eq!(reason, "Queued");
        },
        other => panic!("unexpected {:?}", other),
    }
}

#[test]
fn failures_and_places_round_trip() {
    match read_back(&written(&PeerRequest::QueueFailed(QueueFailed {
        filename: "f".to_string(),
        reason: "r".to_string(),
    }))) {
        PeerResponse::QueueFailed(q) => assert_eq!((q.filename.as_str(), q.reason.as_str()), ("f", "r")),
        other => panic!("unexpected {:?}", other),
    }
    match read_back(&written(&PeerRequest::UploadFailed(UploadFailed { filename: "u".to_string() }))) {
        PeerResponse::UploadFailed(u) => assert_eq!(u.filename, "u"),
        other => panic!("unexpected {:?}", other),
    }
    match read_back(&written(&PeerRequest::PlaceInQueueReply(PlaceInQueueReply {
        filename: "p".to_string(),
        place: "3".to_string(),
    }))) {
        PeerResponse::PlaceInQueueReply(p) => assert_eq!((p.filename.as_str(), p.place.as_str()), ("p", "3")),
        other => panic!("unexpected {:?}", other),
    }
}

#[test]
fn queue_upload_reads_as_a_user_info_request() {
    let bytes = written(&PeerRequest::QueueUpload { filename: "x".to_string() });
    assert_eq!(bytes, [9, 0, 0, 0, 43, 0, 0, 0, 1, 0, 0, 0, b'x']);
    assert!(matches!(read_back(&bytes), PeerResponse::UserInfoRequest));
}

#[test]
fn folder_contents_request_writes_its_header_only() {
    let request = FolderContentsRequest { files: vec!["ab".to_string(), "c".to_string()] };
    let bytes = written(&PeerRequest::FolderContentsRequest(request));
    assert_eq!(bytes, [17, 0, 0, 0, 36, 0, 0, 0]);
    let mut body = vec![2u8, 0, 0, 0, 2, 0, 0, 0, b'a', b'b', 1, 0, 0, 0, b'c'];
    body.push(0);
    let mut reader = Reader::new(&body);
    let parsed = FolderContentsRequest::parse(&mut reader).unwrap();
    assert_eq!(parsed.files, vec!["ab".to_string(), "c".to_string()]);
}

#[test]
fn placeholders_write_nothing() {
    assert!(written(&PeerRequest::UploadPlaceholder).is_empty());
    assert!(written(&PeerRequest::UploadQueueNotification).is_empty());
    assert!(written(&PeerRequest::Unknown).is_empty());
    assert_eq!(PeerRequest::UploadPlaceholder.kind(), "UploadPlaceholder");
}

#[test]
fn peer_codes() {
    assert_eq!(PeerMessageCode::from(40), PeerMessageCode::TransferRequest);
    assert_eq!(PeerMessageCode::from(1), PeerMessageCode::Unknown);
    assert_eq!(PeerMessageCode::QueueFailed.value(), 50);
}

#[test]
fn unknown_peer_code_reads_as_unknown_and_short_length_is_invalid() {
    let bytes = [4u8, 0, 0, 0, 77, 0, 0, 0];
    assert!(matches!(read_back(&bytes), PeerResponse::Unknown));
    let bad = [3u8, 0, 0, 0, 4, 0, 0, 0];
    let mut reader = Reader::new(&bad);
    assert_eq!(PeerResponse::check(&mut reader).unwrap_err(), SlskError::InvalidData);
}

#[test]
fn peer_connection_consumes_message_and_header() {
    let mut bytes = written(&PeerRequest::UploadFailed(UploadFailed { filename: "u".to_string() }));
    bytes.extend_from_slice(&[4, 0, 0, 0, 15, 0, 0, 0]);
    let mut connection = Connection::new();
    connection.set_connection_type(Some(ConnectionType::PeerToPeer));
    connection.extend(&bytes);
    assert!(matches!(
        connection.read_response().unwrap(),
        Some(PeerResponsePacket::Message(PeerResponse::UploadFailed(_)))
    ));
    assert!(matches!(
        connection.read_response().unwrap(),
        Some(PeerResponsePacket::Message(PeerResponse::UserInfoRequest))
    ));
    assert!(connection.is_empty());
    assert!(connection.read_response().unwrap().is_none());
}

#[test]
fn packets_know_their_connection_type() {
    let packet = PeerRequestPacket::Message(PeerRequest::SharesRequest);
    assert_eq!(ConnectionType::from_packet(&packet), ConnectionType::PeerToPeer);
    let packet = PeerRequestPacket::DistributedMessage(DistributedMessage::Ping);
    assert_eq!(ConnectionType::from_packet(&packet), ConnectionType::DistributedNetwork);
    let mut buffer = vec![];
    PeerRequestPacket::ConnectionMessage(PeerConnectionMessage::PierceFirewall(1))
        .write_to_buf(&mut buffer)
        .unwrap();
    assert_eq!(buffer, [5, 0, 0, 0, 0, 1, 0, 0, 0]);
}

#[test]
fn first_form_peer_messages() {
    let mut buffer = vec![];
    PeerMessage::PierceFirewall(2).write_to_buf(&mut buffer);
    assert_eq!(buffer, [5, 0, 0, 0, 0, 0, 0, 0, 2, 0, 0, 0]);
    let bytes = [5u8, 0, 0, 0, 0, 2, 0, 0, 0];
    let mut connection = PeerConnection::new();
    connection.extend(&bytes);
    match connection.parse_response().unwrap() {
        Some(PeerMessage::PierceFirewall(token)) => assert_eq!(token, 2),
        other => panic!("unexpected {:?}", other),
    }
    assert!(connection.end_of_stream().is_ok());
}

#[test]
fn header_reports_the_body_length() {
    let header = PeerMessageHeader::new(12, PeerMessageCode::SharesReply);
    assert_eq!(header.message_len(), 12);
    assert_eq!(header.code, PeerMessageCode::SharesReply);
    let read = read_back(&written(&PeerRequest::SharesRequest));
    assert!(matches!(read, PeerResponse::SharesRequest));
    let connection = ConnectionMessageHeader::new(5, ConnectionMessageCode::PierceFireWall);
    assert_eq!(connection.message_len(), 5);
}

#[test]
fn every_partial_peer_message_waits_for_the_rest() {
    let bytes = written(&PeerRequest::UserInfoReply(UserInfo {
        description: "hi".to_string(),
        picture: None,
        total_upload: 1,
        queue_size: 2,
        slots_free: true,
    }));
    for k in 0..bytes.len() {
        let mut connection = Connection::new();
        connection.set_connection_type(Some(ConnectionType::PeerToPeer));
        connection.extend(&bytes[..k]);
        assert!(connection.read_response().unwrap().is_none(), "prefix of {} bytes", k);
    }
    let mut connection = Connection::new();
    connection.set_connection_type(Some(ConnectionType::PeerToPeer));
    connection.extend(&bytes);
    match connection.read_response().unwrap() {
        Some(PeerResponsePacket::Message(PeerResponse::UserInfoReply(info))) => {
            assert_eq!(info.description, "hi");
            assert_eq!(info.queue_size, 2);
        }
        other => panic!("unexpected {:?}", other),
    }
}

#[test]
fn peer_request_kinds_name_their_variants() {
    assert_eq!(PeerRequest::SharesRequest.kind(), "SharesRequest");
    assert_eq!(PeerRequest::QueueUpload { filename: "a".to_string() }.kind(), "QueueUpload");
    assert_eq!(PeerRequest::Unknown.kind(), "Unknown");
    assert!(PeerRequestPacket::Message(PeerRequest::SharesRequest).fits());
    assert!(PeerRequest::UploadFailed(UploadFailed { filename: "f".to_string() }).fits());
}

#[test]
fn bodiless_peer_messages_parse_with_any_remaining_bytes() {
    let bytes = [9u8; 64];
    for (code, expected) in [
        (PeerMessageCode::SharesRequest, "SharesRequest"),
        (PeerMessageCode::UserInfoRequest, "UserInfoRequest"),
        (PeerMessageCode::Unknown, "Unknown"),
    ] {
        let mut reader = Reader::new(&bytes);
        let header = PeerMessageHeader::new(0, code);
        let parsed = PeerResponse::parse(&mut reader, &header).unwrap();
        assert_eq!(parsed.kind(), expected);
        assert_eq!(reader.pos(), 0);
    }
}
