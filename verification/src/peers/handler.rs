//! What a connection handler decides: how long to wait for a silent peer,
//! what to answer each peer message with, and what a connection message
//! tells about the connection.
use crate::message_common::ConnectionType;
use crate::peers::channels::{clone_opt_string, opt_text};
use crate::peers::connection::Connection;
use crate::peers::messages::connection::PeerConnectionMessage;
use crate::peers::messages::p2p::request::PeerRequest;
use crate::peers::messages::p2p::response::PeerResponse;
use crate::peers::messages::p2p::shared_directories::SharedDirectories;
use crate::peers::messages::p2p::transfer::{TransferReply, TransferRequest, TransferReplyView};
use crate::peers::messages::p2p::user_info::UserInfo;
use crate::peers::messages::PeerRequestPacket;
use crate::server::peer::random_token;
use crate::SlskError;
use vstd::prelude::*;

verus! {

/// Longest wait, in milliseconds, for a message from a silent peer.
pub const LISTEN_BACKOFF_LIMIT: u64 = 2048;

/// The user name that this client presents itself with.
pub open spec fn spec_own_username() -> Seq<char> {
    "vessel"@
}

/// The next wait of an exponential backoff: twice the current one, or the
/// end of the retries once the current wait is above `limit`.
pub fn next_backoff(backoff: u64, limit: u64) -> (res: Result<u64, SlskError>)
    requires
        limit <= u64::MAX / 2,
    ensures
        backoff > limit ==> res == Err::<u64, SlskError>(SlskError::BackoffReached(backoff)),
        backoff <= limit ==> res == Ok::<u64, SlskError>((2 * backoff) as u64),
{
    if backoff > limit {
        Err(SlskError::BackoffReached(backoff))
    } else {
        Ok(backoff * 2)
    }
}

/// The next wait of a handler whose peer sent nothing: twice the current
/// wait, or, once the current wait is above `LISTEN_BACKOFF_LIMIT`, the
/// timeout that names the peer and the wait that was not made.
pub fn listen_backoff(peer_username: &Option<String>, backoff: u64) -> (res: Result<u64, SlskError>)
    ensures
        backoff > LISTEN_BACKOFF_LIMIT ==> (res matches Err(SlskError::ListenTimedOut(peer, ms))
            && opt_text(peer) == opt_text(*peer_username) && ms == backoff),
        backoff <= LISTEN_BACKOFF_LIMIT ==> res == Ok::<u64, SlskError>((2 * backoff) as u64),
{
    if backoff > LISTEN_BACKOFF_LIMIT {
        Err(SlskError::ListenTimedOut(clone_opt_string(peer_username), backoff))
    } else {
        Ok(backoff * 2)
    }
}

/// What a handler does with a message from its peer.
#[derive(Debug)]
pub enum HandlerAction {
    /// Nothing: a reply to one of our requests.
    Ignore,
    /// Send a shares request followed by our shares.
    SendShares,
    /// Send our user information.
    SendUserInfo,
    /// Record the download and accept the transfer.
    AcceptTransfer(TransferReply),
}

/// Whether a handler knows what to do with a message: replies, requests for
/// shares or user information, and transfer requests that carry a file size.
pub open spec fn handled(message: &PeerResponse) -> bool {
    match message {
        PeerResponse::SharesReply(_) | PeerResponse::UserInfoReply(_) | PeerResponse::SearchReply(_)
        | PeerResponse::SharesRequest | PeerResponse::UserInfoRequest => true,
        PeerResponse::TransferRequest(r) => r.file_size is Some,
        _ => false,
    }
}

/// The answer to a transfer request that carries a file size: accepted,
/// with the same ticket and size.
pub fn transfer_reply(request: &TransferRequest) -> (reply: TransferReply)
    requires
        request.file_size is Some,
    ensures
        reply@ == (TransferReplyView::TransferReplyOk {
            ticket: request.ticket,
            file_size: request.file_size->0,
        }),
{
    let file_size = match request.file_size {
        Some(size) => size,
        None => 0,
    };
    TransferReply::TransferReplyOk { ticket: request.ticket, file_size }
}

/// What to do with a message from the peer: ignore replies, answer shares
/// and user information requests, accept transfer requests.
pub fn handle_peer_message(message: &PeerResponse) -> (action: HandlerAction)
    requires
        handled(message),
    ensures
        match message {
            PeerResponse::SharesRequest => action is SendShares,
            PeerResponse::UserInfoRequest => action is SendUserInfo,
            PeerResponse::TransferRequest(r) => action matches HandlerAction::AcceptTransfer(reply)
                && reply@ == (TransferReplyView::TransferReplyOk {
                ticket: r.ticket,
                file_size: r.file_size->0,
            }),
            _ => action is Ignore,
        },
{
    match message {
        PeerResponse::SharesRequest => HandlerAction::SendShares,
        PeerResponse::UserInfoRequest => HandlerAction::SendUserInfo,
        PeerResponse::TransferRequest(request) => HandlerAction::AcceptTransfer(
            transfer_reply(request),
        ),
        _ => HandlerAction::Ignore,
    }
}

/// The information that we give about ourselves.
pub fn user_info() -> (info: UserInfo)
    ensures
        info@ == ("Hello from vessel"@, None::<Seq<char>>, 0u32, 0u32, false),
{
    UserInfo {
        description: "Hello from vessel".to_string(),
        picture: None,
        total_upload: 0,
        queue_size: 0,
        slots_free: false,
    }
}

/// What we send for a shares request: a shares request of our own, then
/// our shares.
pub fn shares_reply_packets(dirs: SharedDirectories) -> (packets: Vec<PeerRequestPacket>)
    ensures
        packets@.len() == 2,
        packets@[0] matches PeerRequestPacket::Message(PeerRequest::SharesRequest),
        packets@[1] matches PeerRequestPacket::Message(PeerRequest::SharesReply(d)) && d@ == dirs@,
{
    let mut packets: Vec<PeerRequestPacket> = Vec::new();
    packets.push(PeerRequestPacket::Message(PeerRequest::SharesRequest));
    packets.push(PeerRequestPacket::Message(PeerRequest::SharesReply(dirs)));
    packets
}

/// The `PeerInit` message that opens a peer to peer connection from us,
/// with a random token. Nothing is stated of the token.
pub fn peer_init() -> (message: PeerConnectionMessage)
    ensures
        message matches PeerConnectionMessage::PeerInit { username, connection_type, .. }
            && username@ == spec_own_username() && connection_type
            == ConnectionType::PeerToPeer,
{
    let token = random_token();
    PeerConnectionMessage::PeerInit {
        username: "vessel".to_string(),
        connection_type: ConnectionType::PeerToPeer,
        token,
    }
}

/// What a connection message tells about the connection: a `PeerInit`
/// gives its type and the peer's user name; a `PierceFirewall` changes
/// nothing.
pub fn handle_connection_message(
    connection: &mut Connection,
    peer_username: &mut Option<String>,
    message: &PeerConnectionMessage,
)
    ensures
        final(connection).buffered() == old(connection).buffered(),
        message is PierceFirewall ==> final(connection).conn_type() == old(connection).conn_type()
            && *final(peer_username) == *old(peer_username),
        message matches PeerConnectionMessage::PeerInit { username, connection_type, .. } ==> (
        final(connection).conn_type() == Some(*connection_type) && opt_text(*final(peer_username))
            == Some(username@)),
{
    match message {
        PeerConnectionMessage::PierceFirewall(_) => {},
        PeerConnectionMessage::PeerInit { username, connection_type, .. } => {
            connection.set_connection_type(Some(*connection_type));
            *peer_username = Some(username.clone());
        },
    }
}

} // verus!
