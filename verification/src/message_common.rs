//! Connection types shared by server and peer messages.
use crate::frame::{read_matches, sp_str, write_string, ParseBytes, Read, Reader, ToBytes};
use crate::SlskError;
use vstd::prelude::*;

verus! {

/// Kind of a connection between two peers.
#[derive(Debug, Clone, Copy, PartialEq, Eq, Structural)]
pub enum ConnectionType {
    /// Peer to peer messages, code `"P"`.
    PeerToPeer,
    /// File transfer, code `"F"`.
    FileTransfer,
    /// Distributed network, code `"D"`.
    DistributedNetwork,
    /// A connection whose kind is not known yet; it has no code.
    HandShake,
}

impl View for ConnectionType {
    type V = ConnectionType;

    open spec fn view(&self) -> ConnectionType {
        *self
    }
}

/// The code of a connection type on the wire.
pub open spec fn spec_type_code(t: ConnectionType) -> Seq<char> {
    match t {
        ConnectionType::PeerToPeer => "P"@,
        ConnectionType::FileTransfer => "F"@,
        ConnectionType::DistributedNetwork => "D"@,
        ConnectionType::HandShake => Seq::empty(),
    }
}

/// The connection type a code stands for, if any.
pub open spec fn spec_type_of_code(c: Seq<char>) -> Option<ConnectionType> {
    if c == "P"@ {
        Some(ConnectionType::PeerToPeer)
    } else if c == "F"@ {
        Some(ConnectionType::FileTransfer)
    } else if c == "D"@ {
        Some(ConnectionType::DistributedNetwork)
    } else {
        None
    }
}

impl ConnectionType {
    /// The code of this connection type. A handshake has none.
    pub fn as_str(&self) -> (s: &'static str)
        requires
            *self != ConnectionType::HandShake,
        ensures
            s@ == spec_type_code(*self),
    {
        match self {
            ConnectionType::PeerToPeer => "P",
            ConnectionType::FileTransfer => "F",
            ConnectionType::DistributedNetwork => "D",
            ConnectionType::HandShake => "",
        }
    }

    /// The bytes of the code of this connection type.
    pub fn bytes(&self) -> (b: Vec<u8>)
        requires
            *self != ConnectionType::HandShake,
        ensures
            b@ == vstd::utf8::encode_utf8(spec_type_code(*self)),
    {
        vstd::slice::slice_to_vec(self.as_str().as_bytes())
    }

    /// The connection type named by a code, if the code is `"P"`, `"F"` or `"D"`.
    pub fn from_code(code: &String) -> (t: Option<ConnectionType>)
        ensures
            t == spec_type_of_code(code@),
    {
        let p = "P".to_string();
        let f = "F".to_string();
        let d = "D".to_string();
        if *code == p {
            Some(ConnectionType::PeerToPeer)
        } else if *code == f {
            Some(ConnectionType::FileTransfer)
        } else if *code == d {
            Some(ConnectionType::DistributedNetwork)
        } else {
            None
        }
    }
}

/// A connection type read as a string code; any code but "P", "F" and "D"
/// is invalid.
pub open spec fn sp_connection_type(s: Seq<u8>, p: int) -> Read<ConnectionType> {
    match sp_str(s, p) {
        Err(e) => Err(e),
        Ok((c, q)) => match spec_type_of_code(c) {
            Some(t) => Ok((t, q)),
            None => Err(SlskError::InvalidData),
        },
    }
}

impl ParseBytes for ConnectionType {
    open spec fn spec_parse(s: Seq<u8>, p: int) -> Read<ConnectionType> {
        sp_connection_type(s, p)
    }

    fn parse(src: &mut Reader) -> (res: Result<Self, SlskError>) {
        let ghost spec = Self::spec_parse(src.data(), src.position());
        let raw = src.read_string()?;
        match ConnectionType::from_code(&raw) {
            Some(t) => Ok(t),
            None => Err(SlskError::InvalidData),
        }
    }
}

/// The protocol's one-letter codes of connection types: "P" peer to peer,
/// "F" file transfer, "D" distributed network; each reads back as its type,
/// and any other text names no type.
pub proof fn lemma_type_code_letters(c: Seq<char>)
    ensures
        spec_type_code(ConnectionType::PeerToPeer) == seq!['P'],
        spec_type_code(ConnectionType::FileTransfer) == seq!['F'],
        spec_type_code(ConnectionType::DistributedNetwork) == seq!['D'],
        spec_type_of_code(seq!['P']) == Some(ConnectionType::PeerToPeer),
        spec_type_of_code(seq!['F']) == Some(ConnectionType::FileTransfer),
        spec_type_of_code(seq!['D']) == Some(ConnectionType::DistributedNetwork),
        c != seq!['P'] && c != seq!['F'] && c != seq!['D'] ==> spec_type_of_code(c) is None,
{
    reveal_strlit("P");
    reveal_strlit("F");
    reveal_strlit("D");
    assert("P"@ =~= seq!['P']);
    assert("F"@ =~= seq!['F']);
    assert("D"@ =~= seq!['D']);
    assert(seq!['F'][0] != seq!['P'][0]);
    assert(seq!['D'][0] != seq!['P'][0]);
    assert(seq!['D'][0] != seq!['F'][0]);
}

} // verus!
