//! What the peer listener decides: when to stop looking for parents, which
//! connection requests to follow, and how to ask the server for an indirect
//! connection.
use crate::message_common::ConnectionType;
use crate::server::peer::{Peer, RequestConnectionToPeer};
use crate::server::request::ServerRequest;
use crate::SlskError;
use vstd::prelude::*;

verus! {

/// Most connections that the listener keeps open at once.
pub const MAX_CONNECTIONS: usize = 4096;

/// Most parents of the distributed network that we connect to.
pub const MAX_PARENT: usize = 10;

/// Longest wait, in seconds, between two failed attempts to accept a
/// connection.
pub const ACCEPT_BACKOFF_LIMIT: u64 = 64;

/// Whether the listener accepts inbound connections: only while one of the
/// `MAX_CONNECTIONS` slots is free, else `NoPermitAvailable`.
pub fn check_available_permits(available: usize) -> (r: Result<(), SlskError>)
    ensures
        available > 0 <==> r is Ok,
        available == 0 ==> r == Err::<(), SlskError>(SlskError::NoPermitAvailable),
{
    if available > 0 {
        Ok(())
    } else {
        Err(SlskError::NoPermitAvailable)
    }
}

/// Whether to connect to one more parent: only below `MAX_PARENT`. Once the
/// limit is reached the server is told that we have a parent, with
/// `NoParents(false)`, and the search stops.
pub fn parent_limit_request(parent_count: usize) -> (req: Option<ServerRequest>)
    ensures
        parent_count >= MAX_PARENT ==> (req matches Some(ServerRequest::NoParents(b)) && !b),
        parent_count < MAX_PARENT ==> req is None,
{
    if parent_count >= MAX_PARENT {
        Some(ServerRequest::NoParents(false))
    } else {
        None
    }
}

/// Whether to follow a connection request relayed by the server: not when
/// it comes from ourselves.
pub fn should_follow_request(username: &String) -> (b: bool)
    ensures
        b == (username@ != "vessel"@),
{
    let own = "vessel".to_string();
    !(*username == own)
}

/// The request that asks the server to relay a connection to a parent that
/// we could not reach directly.
pub fn indirect_connection_request(peer: &Peer, token: u32) -> (req: ServerRequest)
    ensures
        req matches ServerRequest::ConnectToPeer(r) && r.token == token && r.username@
            == peer.username@ && r.connection_type == ConnectionType::DistributedNetwork,
{
    ServerRequest::ConnectToPeer(
        RequestConnectionToPeer {
            token,
            username: peer.username.clone(),
            connection_type: ConnectionType::DistributedNetwork,
        },
    )
}

} // verus!
