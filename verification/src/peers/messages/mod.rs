//! Messages exchanged with peers: connection set-up, peer to peer messages
//! and distributed network messages.
use crate::peers::messages::connection::PeerConnectionMessage;
use crate::peers::messages::distributed::DistributedMessage;
use crate::message_common::ConnectionType;
use crate::peers::messages::p2p::request::PeerRequest;
use crate::peers::messages::p2p::transfer::TransferReply;
use crate::server::request::{text_len, texts_len};
use crate::SlskError;
use crate::peers::messages::p2p::response::PeerResponse;
use vstd::prelude::*;

pub mod connection;
pub mod distributed;
pub mod p2p;

verus! {

/// A message that we send to a peer.
#[derive(Debug)]
pub enum PeerRequestPacket {
    Message(PeerRequest),
    ConnectionMessage(PeerConnectionMessage),
    DistributedMessage(DistributedMessage),
}

/// A message that a peer sends us.
#[derive(Debug)]
pub enum PeerResponsePacket {
    Message(PeerResponse),
    ConnectionMessage(PeerConnectionMessage),
    DistributedMessage(DistributedMessage),
}

impl PeerRequestPacket {
    /// Whether the packet can be written: a peer message or a connection
    /// message whose lengths fit their fields.
    pub open spec fn spec_fits(&self) -> bool {
        match self {
            PeerRequestPacket::Message(m) => m.spec_fits(),
            PeerRequestPacket::ConnectionMessage(m) => m.spec_fits(),
            PeerRequestPacket::DistributedMessage(_) => false,
        }
    }

    /// Writes a peer message or a connection message, as their own writers
    /// do; a connection message is always written whole.
    pub fn write_to_buf(&self, buffer: &mut Vec<u8>) -> (res: Result<(), SlskError>)
        requires
            self.spec_fits(),
        ensures
            match self {
                PeerRequestPacket::Message(m) => match m {
                    PeerRequest::SharesReply(dirs) => crate::peers::messages::p2p::shared_directories::compressed_written(
                        old(buffer)@,
                        final(buffer)@,
                        res,
                        crate::peers::messages::p2p::shared_directories::spec_shares_payload(dirs@),
                        crate::peers::messages::p2p::PeerMessageCode::SharesReply,
                    ),
                    PeerRequest::FolderContentsReply(dirs) => crate::peers::messages::p2p::shared_directories::compressed_written(
                        old(buffer)@,
                        final(buffer)@,
                        res,
                        crate::peers::messages::p2p::shared_directories::spec_shares_payload(dirs@),
                        crate::peers::messages::p2p::PeerMessageCode::SharesReply,
                    ),
                    PeerRequest::SearchReply(reply) => crate::peers::messages::p2p::shared_directories::compressed_written(
                        old(buffer)@,
                        final(buffer)@,
                        res,
                        crate::peers::messages::p2p::search::spec_search_payload(reply@),
                        crate::peers::messages::p2p::PeerMessageCode::SearchReply,
                    ),
                    _ => res is Ok && final(buffer)@ == old(buffer)@ + m.spec_bytes(),
                },
                PeerRequestPacket::ConnectionMessage(m) => res is Ok && final(buffer)@ == old(
                    buffer,
                )@ + PeerConnectionMessage::spec_bytes(m@),
                PeerRequestPacket::DistributedMessage(_) => false,
            },
    {
        match self {
            PeerRequestPacket::Message(m) => m.write_to_buf(buffer),
            PeerRequestPacket::ConnectionMessage(m) => {
                m.write_to_buf(buffer);
                Ok(())
            },
            PeerRequestPacket::DistributedMessage(_) => Err(SlskError::InvalidData),
        }
    }
}

impl ConnectionType {
    /// The kind of connection a packet travels on: peer messages on `"P"`
    /// connections, distributed messages on `"D"` ones.
    pub fn from_packet(request: &PeerRequestPacket) -> (t: ConnectionType)
        requires
            !(request is ConnectionMessage),
        ensures
            request is Message ==> t == ConnectionType::PeerToPeer,
            request is DistributedMessage ==> t == ConnectionType::DistributedNetwork,
    {
        match request {
            PeerRequestPacket::Message(_) => ConnectionType::PeerToPeer,
            PeerRequestPacket::DistributedMessage(_) => ConnectionType::DistributedNetwork,
            PeerRequestPacket::ConnectionMessage(_) => ConnectionType::HandShake,
        }
    }
}

/// Largest length field.
const MAX_LEN: u128 = 0xffff_ffff;

impl PeerRequest {
    /// Whether the message can be written: `spec_fits`.
    pub fn fits(&self) -> (b: bool)
        ensures
            b == self.spec_fits(),
    {
        match self {
            PeerRequest::UserInfoReply(info) => {
                let picture: u128 = match &info.picture {
                    Some(p) => text_len(p) + 4,
                    None => 0,
                };
                4 + (4 + text_len(&info.description)) + 1 + picture + 4 + 4 + 1 <= MAX_LEN
            },
            PeerRequest::FolderContentsRequest(r) => 4 + r.files.len() as u128 + texts_len(&r.files)
                <= MAX_LEN,
            PeerRequest::TransferRequest(r) => {
                let size: u128 = if r.file_size.is_some() {
                    8
                } else {
                    0
                };
                4 + 4 + 4 + (4 + text_len(&r.filename)) + size <= MAX_LEN
            },
            PeerRequest::TransferReply(r) => match r {
                TransferReply::TransferReplyOk { .. } => true,
                TransferReply::TransferRejected { reason, .. } => 4 + 4 + 1 + 4 + text_len(reason)
                    <= MAX_LEN,
            },
            PeerRequest::QueueUpload { filename } => text_len(filename) + 8 <= MAX_LEN,
            PeerRequest::PlaceInQueueReply(r) => 4 + (4 + text_len(&r.filename)) + (4 + text_len(
                &r.place,
            )) <= MAX_LEN,
            PeerRequest::UploadFailed(r) => text_len(&r.filename) + 8 <= MAX_LEN,
            PeerRequest::QueueFailed(r) => 4 + text_len(&r.filename) + 4 + text_len(&r.reason) + 4
                <= MAX_LEN,
            PeerRequest::PlaceInQueueRequest(r) => text_len(&r.filename) + 8 <= MAX_LEN,
            _ => true,
        }
    }
}

impl PeerRequestPacket {
    /// Whether the packet can be written: `spec_fits`.
    pub fn fits(&self) -> (b: bool)
        ensures
            b == self.spec_fits(),
    {
        match self {
            PeerRequestPacket::Message(m) => m.fits(),
            PeerRequestPacket::ConnectionMessage(m) => match m {
                PeerConnectionMessage::PierceFirewall(_) => true,
                PeerConnectionMessage::PeerInit { username, connection_type, .. } => {
                    *connection_type != ConnectionType::HandShake && 1 + (text_len(username) + 4)
                        + (connection_type.bytes().len() as u128 + 4) + 4 <= MAX_LEN
                },
            },
            PeerRequestPacket::DistributedMessage(_) => false,
        }
    }
}

} // verus!
