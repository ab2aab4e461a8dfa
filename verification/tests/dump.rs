use soulseek_protocol::dump::{bytes_to_json_dump, split_messages};
use soulseek_protocol::frame::Reader;
use soulseek_protocol::server::MessageCode;

#[test]
fn dumps_whole_messages_and_keeps_the_rest() {
    let mut bytes = vec![8u8, 0, 0, 0, 14, 0, 0, 0, 1, 2, 3, 4];
    bytes.extend_from_slice(&[4, 0, 0, 0, 1, 0, 0, 0]);
    bytes.extend_from_slice(&[9, 9, 9]);
    let mut cursor = Reader::new(&bytes);
    let (dumps, rest) = bytes_to_json_dump(&mut cursor).unwrap();
    assert_eq!(dumps.len(), 2);
    assert_eq!(dumps[0].code, "JoinRoom");
    assert_eq!(dumps[0].raw_code, 14);
    assert_eq!(dumps[0].len, 4);
    assert_eq!(dumps[0].message, vec![1, 2, 3, 4]);
    assert_eq!(dumps[1].code, "Login");
    assert_eq!(dumps[1].len, 0);
    assert!(dumps[1].message.is_empty());
    assert_eq!(rest, vec![9, 9, 9]);
    assert_eq!(cursor.pos(), 20);
}

#[test]
fn an_incomplete_message_is_returned_whole() {
    let bytes = [8u8, 0, 0, 0, 1, 0, 0, 0, 1, 2, 3, 4, 50, 0, 0, 0, 1, 0, 0, 0];
    let mut cursor = Reader::new(&bytes);
    let rest = bytes_to_json_dump(&mut cursor).unwrap_err();
    assert_eq!(rest, bytes[12..].to_vec());
    assert_eq!(cursor.pos(), 12);
}

#[test]
fn split_reads_one_message() {
    let bytes = [6u8, 0, 0, 0, 2, 0, 0, 0, 7, 8];
    let mut cursor = Reader::new(&bytes);
    let (code, len, message) = split_messages(&mut cursor).unwrap();
    assert_eq!(code, MessageCode::SetListenPort);
    assert_eq!(len, 2);
    assert_eq!(message, vec![7, 8]);
}

#[test]
fn a_short_length_gives_an_empty_body() {
    let bytes = [2u8, 0, 0, 0, 3, 0, 0, 0, 5];
    let mut cursor = Reader::new(&bytes);
    let (code, len, message) = split_messages(&mut cursor).unwrap();
    assert_eq!(code, MessageCode::GetPeerAddress);
    assert_eq!(len, 0);
    assert!(message.is_empty());
    assert_eq!(cursor.pos(), 8);
}
