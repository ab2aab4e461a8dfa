use soulseek_protocol::database::entities::PeerEntity;
use soulseek_protocol::message_common::ConnectionType;
use soulseek_protocol::peers::channels::{ConnectionState, SenderPool};
use soulseek_protocol::SlskError;

#[test]
fn named_connection_is_routed_to_its_channel() {
    let mut pool: SenderPool<u32> = SenderPool::new();
    pool.new_named_peer_connection("alice".to_string(), "1.2.3.4".to_string(), 7);
    let address = "1.2.3.4".to_string();
    assert!(pool.contains(&address));
    assert_eq!(pool.route_message(&address).unwrap(), &Some(7));
}

#[test]
fn lost_connection_is_refused() {
    let mut pool: SenderPool<u32> = SenderPool::new();
    pool.new_named_peer_connection("alice".to_string(), "1.2.3.4".to_string(), 7);
    pool.set_connection_lost("1.2.3.4".to_string());
    assert_eq!(
        pool.route_message(&"1.2.3.4".to_string()).unwrap_err(),
        SlskError::PeerConnectionLost
    );
    pool.set_connection_lost("9.9.9.9".to_string());
    assert!(!pool.contains(&"9.9.9.9".to_string()));
}

#[test]
fn indirect_connection_is_keyed_by_ip_without_port() {
    let mut pool: SenderPool<u32> = SenderPool::new();
    let peer = PeerEntity::new("bob", 0x7f000001, 2234);
    pool.new_incomming_indirect_connection_pending(&peer, 11, ConnectionType::DistributedNetwork);
    assert!(pool.contains(&"127.0.0.1".to_string()));
    assert_eq!(pool.route_message(&"127.0.0.1".to_string()).unwrap(), &None);
    assert_eq!(pool.get_parent_count(), 1);
}

#[test]
fn parent_count_counts_distributed_connections() {
    let mut pool: SenderPool<u32> = SenderPool::new();
    pool.new_named_peer_connection("a".to_string(), "a".to_string(), 1);
    pool.new_named_peer_connection("b".to_string(), "b".to_string(), 2);
    pool.new_named_peer_connection("c".to_string(), "c".to_string(), 3);
    assert_eq!(pool.get_parent_count(), 0);
    pool.set_connection_state(
        "a".to_string(),
        ConnectionState::Established(ConnectionType::DistributedNetwork),
    )
    .unwrap();
    pool.set_connection_state(
        "b".to_string(),
        ConnectionState::ExpectingIndirectConnection(ConnectionType::DistributedNetwork),
    )
    .unwrap();
    pool.set_connection_state(
        "c".to_string(),
        ConnectionState::Established(ConnectionType::PeerToPeer),
    )
    .unwrap();
    assert_eq!(pool.get_parent_count(), 2);
    pool.set_connection_lost("a".to_string());
    assert_eq!(pool.get_parent_count(), 1);
}

#[test]
fn update_or_create_replaces_the_channel_and_keeps_the_state() {
    let mut pool: SenderPool<u32> = SenderPool::new();
    let state = pool.update_or_create("h", 1);
    assert_eq!(state.username, None);
    assert_eq!(state.channel, Some(1));
    assert_eq!(state.conn_state, ConnectionState::PeerInitPending);
    pool.new_named_peer_connection("carol".to_string(), "h".to_string(), 2);
    pool.set_connection_state(
        "h".to_string(),
        ConnectionState::Established(ConnectionType::PeerToPeer),
    )
    .unwrap();
    let state = pool.update_or_create("h", 3);
    assert_eq!(state.username, Some("carol".to_string()));
    assert_eq!(state.channel, Some(3));
    assert_eq!(state.conn_state, ConnectionState::Established(ConnectionType::PeerToPeer));
    assert_eq!(pool.route_message(&"h".to_string()).unwrap(), &Some(3));
}

#[test]
fn new_peer_connection_awaits_peer_init() {
    let mut pool: SenderPool<u32> = SenderPool::new();
    let state = pool.new_peer_connection("x", 5);
    assert_eq!(state.conn_state, ConnectionState::PeerInitPending);
    assert_eq!(state.token, None);
    assert_eq!(state.conn_state.to_connection_type(), ConnectionType::HandShake);
    assert_eq!(
        ConnectionState::IndirectConnectionPending(ConnectionType::FileTransfer).to_connection_type(),
        ConnectionType::FileTransfer
    );
}
