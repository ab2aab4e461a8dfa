//! Peer addresses and connection requests relayed by the server.
use crate::frame::{
    decimal, write_decimal, le32, read_matches, ser_str, sp_bool, sp_str, sp_u32, str_bytes, utf8_lossy, wire_text,
    write_string, write_u32,
    ParseBytes, Read, Reader,
};
use crate::message_common::{sp_connection_type, spec_type_code, ConnectionType};
use crate::server::{ser_header, write_header, MessageCode};
use crate::SlskError;
use crate::frame::{holds_at, ser_bool, lemma_holds_part, lemma_str_at, lemma_u32_at, lemma_bool_at};
use vstd::prelude::*;

verus! {

/// Dotted decimal text of an IPv4 address given as a host-order `u32`
/// (most significant byte first), as `Ipv4Addr` displays it.
pub open spec fn spec_ipv4_text(ip: u32) -> Seq<u8> {
    decimal((ip / 16777216) as nat) + seq![46u8] + decimal(((ip / 65536) % 256) as nat) + seq![
        46u8,
    ] + decimal(((ip / 256) % 256) as nat) + seq![46u8] + decimal((ip % 256) as nat)
}

/// `ip:port` text of a socket address.
pub open spec fn spec_socket_address(ip: u32, port: u32) -> Seq<u8> {
    spec_ipv4_text(ip) + seq![58u8] + decimal(port as nat)
}

fn write_ipv4(out: &mut Vec<u8>, ip: u32)
    ensures
        final(out)@ == old(out)@ + spec_ipv4_text(ip),
{
    write_decimal(out, (ip / 16777216) as u64);
    out.push(46);
    write_decimal(out, ((ip / 65536) % 256) as u64);
    out.push(46);
    write_decimal(out, ((ip / 256) % 256) as u64);
    out.push(46);
    write_decimal(out, (ip % 256) as u64);
    assert(final(out)@ =~= old(out)@ + spec_ipv4_text(ip));
}

/// Dotted decimal text of an IPv4 address.
pub fn ipv4_text(ip: u32) -> (s: String)
    ensures
        s@ == wire_text(spec_ipv4_text(ip)),
{
    let mut out: Vec<u8> = Vec::new();
    write_ipv4(&mut out, ip);
    assert(out@ =~= spec_ipv4_text(ip));
    utf8_lossy(out.as_slice())
}

/// `ip:port` text of a socket address.
pub fn socket_address(ip: u32, port: u32) -> (s: String)
    ensures
        s@ == wire_text(spec_socket_address(ip, port)),
{
    let mut out: Vec<u8> = Vec::new();
    write_ipv4(&mut out, ip);
    out.push(58);
    write_decimal(&mut out, port as u64);
    assert(out@ =~= spec_socket_address(ip, port));
    utf8_lossy(out.as_slice())
}

/// `rand::random::<u32>()`: a random token. Nothing is stated of its value.
#[verifier::external_body]
pub(crate) fn random_token() -> (t: u32) {
    rand::random::<u32>()
}

/// A peer: user name, IPv4 address and port.
#[derive(Debug, Clone)]
pub struct Peer {
    pub username: String,
    pub ip: u32,
    pub port: u32,
}

impl View for Peer {
    type V = (Seq<char>, u32, u32);

    open spec fn view(&self) -> Self::V {
        (self.username@, self.ip, self.port)
    }
}

impl ParseBytes for Peer {
    open spec fn spec_parse(s: Seq<u8>, p: int) -> Read<Self::V> {
        match sp_str(s, p) {
            Err(e) => Err(e),
            Ok((username, p)) => match sp_u32(s, p) {
                Err(e) => Err(e),
                Ok((ip, p)) => match sp_u32(s, p) {
                    Err(e) => Err(e),
                    Ok((port, p)) => Ok(((username, ip, port), p)),
                },
            },
        }
    }

    fn parse(src: &mut Reader) -> (res: Result<Self, SlskError>) {
        let username = src.read_string()?;
        let ip = src.read_u32()?;
        let port = src.read_u32()?;
        Ok(Peer { username, ip, port })
    }
}

impl Peer {
    /// `ip:port` text of the peer's address.
    pub fn get_address(&self) -> (s: String)
        ensures
            s@ == wire_text(spec_socket_address(self.ip, self.port)),
    {
        socket_address(self.ip, self.port)
    }
}

/// Address of a peer as the server reports it.
#[derive(Debug)]
pub struct PeerAddress {
    pub username: String,
    pub ip: u32,
    pub port: u32,
    pub obfuscation: bool,
    pub obfuscated_port: u32,
}

impl View for PeerAddress {
    type V = (Seq<char>, u32, u32, bool, u32);

    open spec fn view(&self) -> Self::V {
        (self.username@, self.ip, self.port, self.obfuscation, self.obfuscated_port)
    }
}

impl ParseBytes for PeerAddress {
    /// User name, address, port, obfuscation flag, obfuscated port.
    open spec fn spec_parse(s: Seq<u8>, p: int) -> Read<Self::V> {
        match sp_str(s, p) {
            Err(e) => Err(e),
            Ok((username, p)) => match sp_u32(s, p) {
                Err(e) => Err(e),
                Ok((ip, p)) => match sp_u32(s, p) {
                    Err(e) => Err(e),
                    Ok((port, p)) => match sp_bool(s, p) {
                        Err(e) => Err(e),
                        Ok((obfuscation, p)) => match sp_u32(s, p) {
                            Err(e) => Err(e),
                            Ok((obfuscated_port, p)) => Ok(
                                ((username, ip, port, obfuscation, obfuscated_port), p),
                            ),
                        },
                    },
                },
            },
        }
    }

    fn parse(src: &mut Reader) -> (res: Result<Self, SlskError>) {
        let username = src.read_string()?;
        let ip = src.read_u32()?;
        let port = src.read_u32()?;
        let obfuscation = src.read_bool()?;
        let obfuscated_port = src.read_u32()?;
        Ok(PeerAddress { username, ip, port, obfuscation, obfuscated_port })
    }
}

/// A peer that wants us to connect to it.
#[derive(Debug)]
pub struct PeerConnectionRequest {
    pub username: String,
    pub connection_type: ConnectionType,
    pub ip: u32,
    pub port: u32,
    pub token: u32,
    pub privileged: bool,
}

impl View for PeerConnectionRequest {
    type V = (Seq<char>, ConnectionType, u32, u32, u32, bool);

    open spec fn view(&self) -> Self::V {
        (self.username@, self.connection_type, self.ip, self.port, self.token, self.privileged)
    }
}

impl PeerConnectionRequest {
    /// `ip:port` text of the peer's address.
    pub fn get_address(&self) -> (s: String)
        ensures
            s@ == wire_text(spec_socket_address(self.ip, self.port)),
    {
        socket_address(self.ip, self.port)
    }
}

impl ParseBytes for PeerConnectionRequest {
    /// User name, connection type, address, port, token, privileged flag.
    open spec fn spec_parse(s: Seq<u8>, p: int) -> Read<Self::V> {
        match sp_str(s, p) {
            Err(e) => Err(e),
            Ok((username, p)) => match sp_connection_type(s, p) {
                Err(e) => Err(e),
                Ok((connection_type, p)) => match sp_u32(s, p) {
                    Err(e) => Err(e),
                    Ok((ip, p)) => match sp_u32(s, p) {
                        Err(e) => Err(e),
                        Ok((port, p)) => match sp_u32(s, p) {
                            Err(e) => Err(e),
                            Ok((token, p)) => match sp_bool(s, p) {
                                Err(e) => Err(e),
                                Ok((privileged, p)) => Ok(
                                    ((username, connection_type, ip, port, token, privileged), p),
                                ),
                            },
                        },
                    },
                },
            },
        }
    }

    fn parse(src: &mut Reader) -> (res: Result<Self, SlskError>) {
        let username = src.read_string()?;
        let connection_type = ConnectionType::parse(src)?;
        let ip = src.read_u32()?;
        let port = src.read_u32()?;
        let token = src.read_u32()?;
        let privileged = src.read_bool()?;
        Ok(PeerConnectionRequest { username, connection_type, ip, port, token, privileged })
    }
}

/// We ask the server to tell a peer to connect to us.
#[derive(Debug)]
pub struct RequestConnectionToPeer {
    pub token: u32,
    pub username: String,
    pub connection_type: ConnectionType,
}

impl View for RequestConnectionToPeer {
    type V = (u32, Seq<char>, ConnectionType);

    open spec fn view(&self) -> Self::V {
        (self.token, self.username@, self.connection_type)
    }
}

impl RequestConnectionToPeer {
    /// A request for `username` with a random token.
    pub fn new(username: String, connection_type: ConnectionType) -> (r: Self)
        ensures
            r.username == username,
            r.connection_type == connection_type,
    {
        let token = random_token();
        RequestConnectionToPeer { token, username, connection_type }
    }

    /// Length field: code, user name, connection type code, token.
    pub open spec fn spec_len(v: (u32, Seq<char>, ConnectionType)) -> int {
        4 + (4 + str_bytes(v.1)) + (4 + str_bytes(spec_type_code(v.2))) + 4
    }

    pub open spec fn spec_bytes(v: (u32, Seq<char>, ConnectionType)) -> Seq<u8> {
        ser_header(Self::spec_len(v) as u32, MessageCode::ConnectToPeer) + le32(v.0) + ser_str(v.1)
            + ser_str(spec_type_code(v.2))
    }

    /// Writes the request: header with code `ConnectToPeer`, token, user
    /// name, connection type.
    pub fn write_to_buf(&self, buffer: &mut Vec<u8>)
        requires
            self.connection_type != ConnectionType::HandShake,
            Self::spec_len(self@) <= u32::MAX,
        ensures
            final(buffer)@ == old(buffer)@ + Self::spec_bytes(self@),
    {
        let username_len = 4 + self.username.as_str().as_bytes().len() as u32;
        let code = self.connection_type.as_str();
        let connection_type_len = 4 + code.as_bytes().len() as u32;
        let len = 4 + username_len + connection_type_len + 4;
        write_header(buffer, len, MessageCode::ConnectToPeer);
        write_u32(buffer, self.token);
        write_string(buffer, self.username.as_str());
        write_string(buffer, code);
        assert(final(buffer)@ =~= old(buffer)@ + Self::spec_bytes(self@));
    }
}

/// A token of a connection that could not be made, with the peer's name.
#[derive(Debug)]
pub struct PeerConnectionTicket {
    pub token: u32,
    pub username: String,
}

impl View for PeerConnectionTicket {
    type V = (u32, Seq<char>);

    open spec fn view(&self) -> Self::V {
        (self.token, self.username@)
    }
}

impl ParseBytes for PeerConnectionTicket {
    /// The token, then the user name if any byte is left; the user name is
    /// empty otherwise.
    open spec fn spec_parse(s: Seq<u8>, p: int) -> Read<Self::V> {
        match sp_u32(s, p) {
            Err(e) => Err(e),
            Ok((token, p)) => if p < s.len() {
                match sp_str(s, p) {
                    Err(e) => Err(e),
                    Ok((username, p)) => Ok(((token, username), p)),
                }
            } else {
                Ok(((token, Seq::empty()), p))
            },
        }
    }

    fn parse(src: &mut Reader) -> (res: Result<Self, SlskError>) {
        let token = src.read_u32()?;
        let username = if src.has_remaining() {
            src.read_string()?
        } else {
            String::new()
        };
        Ok(PeerConnectionTicket { username, token })
    }
}

impl PeerConnectionTicket {
    pub open spec fn spec_len(v: (u32, Seq<char>)) -> int {
        4 + 4 + str_bytes(v.1) + 4
    }

    pub open spec fn spec_bytes(v: (u32, Seq<char>)) -> Seq<u8> {
        ser_header(Self::spec_len(v) as u32, MessageCode::CantConnectToPeer) + ser_str(v.1) + le32(
            v.0,
        )
    }

    /// Writes the ticket: header with code `CantConnectToPeer`, user name, token.
    pub fn write_to_buf(&self, buffer: &mut Vec<u8>)
        requires
            Self::spec_len(self@) <= u32::MAX,
        ensures
            final(buffer)@ == old(buffer)@ + Self::spec_bytes(self@),
    {
        let len = 4 + 4 + self.username.as_str().as_bytes().len() as u32 + 4;
        write_header(buffer, len, MessageCode::CantConnectToPeer);
        write_string(buffer, self.username.as_str());
        write_u32(buffer, self.token);
        assert(final(buffer)@ =~= old(buffer)@ + Self::spec_bytes(self@));
    }
}

/// A peer address on the wire is the user name, the IPv4 address, the port,
/// the obfuscation flag and the obfuscated port, in that order.
pub proof fn lemma_peer_address_layout(s: Seq<u8>, p: int, username: Seq<char>, ip: u32, port: u32, obfuscation: bool, obfuscated_port: u32)
    requires
        str_bytes(username) <= u32::MAX,
        holds_at(s, p, ser_str(username) + le32(ip) + le32(port) + ser_bool(obfuscation) + le32(obfuscated_port)),
    ensures
        PeerAddress::spec_parse(s, p) == Ok::<((Seq<char>, u32, u32, bool, u32), int), SlskError>(
            ((username, ip, port, obfuscation, obfuscated_port), p + (ser_str(username) + le32(ip) + le32(port) + ser_bool(obfuscation) + le32(obfuscated_port)).len()),
        ),
{
    broadcast use crate::frame::group_wire_lemmas;

    let w = ser_str(username) + le32(ip) + le32(port) + ser_bool(obfuscation) + le32(obfuscated_port);
    lemma_holds_part(s, p, w, 0int, ser_str(username));
    lemma_str_at(s, p + 0int, username);
    lemma_holds_part(s, p, w, 0int + ser_str(username).len(), le32(ip));
    lemma_u32_at(s, p + 0int + ser_str(username).len(), ip);
    lemma_holds_part(s, p, w, 0int + ser_str(username).len() + le32(ip).len(), le32(port));
    lemma_u32_at(s, p + 0int + ser_str(username).len() + le32(ip).len(), port);
    lemma_holds_part(s, p, w, 0int + ser_str(username).len() + le32(ip).len() + le32(port).len(), ser_bool(obfuscation));
    lemma_bool_at(s, p + 0int + ser_str(username).len() + le32(ip).len() + le32(port).len(), obfuscation);
    lemma_holds_part(s, p, w, 0int + ser_str(username).len() + le32(ip).len() + le32(port).len() + ser_bool(obfuscation).len(), le32(obfuscated_port));
    lemma_u32_at(s, p + 0int + ser_str(username).len() + le32(ip).len() + le32(port).len() + ser_bool(obfuscation).len(), obfuscated_port);
}

/// A peer on the wire is the user name, the IPv4 address and the port, in
/// that order.
pub proof fn lemma_peer_layout(s: Seq<u8>, p: int, username: Seq<char>, ip: u32, port: u32)
    requires
        str_bytes(username) <= u32::MAX,
        holds_at(s, p, ser_str(username) + le32(ip) + le32(port)),
    ensures
        Peer::spec_parse(s, p) == Ok::<((Seq<char>, u32, u32), int), SlskError>(
            ((username, ip, port), p + (ser_str(username) + le32(ip) + le32(port)).len()),
        ),
{
    broadcast use crate::frame::group_wire_lemmas;

    let w = ser_str(username) + le32(ip) + le32(port);
    lemma_holds_part(s, p, w, 0int, ser_str(username));
    lemma_str_at(s, p + 0int, username);
    lemma_holds_part(s, p, w, 0int + ser_str(username).len(), le32(ip));
    lemma_u32_at(s, p + 0int + ser_str(username).len(), ip);
    lemma_holds_part(s, p, w, 0int + ser_str(username).len() + le32(ip).len(), le32(port));
    lemma_u32_at(s, p + 0int + ser_str(username).len() + le32(ip).len(), port);
}

/// A relayed connection request on the wire is the user name, the
/// connection type's code, the IPv4 address, the port, the token and the
/// privileged flag, in that order.
pub proof fn lemma_peer_connection_request_layout(
    s: Seq<u8>,
    p: int,
    username: Seq<char>,
    t: ConnectionType,
    ip: u32,
    port: u32,
    token: u32,
    privileged: bool,
)
    requires
        t != ConnectionType::HandShake,
        str_bytes(username) <= u32::MAX,
        holds_at(
            s,
            p,
            ser_str(username) + ser_str(spec_type_code(t)) + le32(ip) + le32(port) + le32(token)
                + ser_bool(privileged),
        ),
    ensures
        PeerConnectionRequest::spec_parse(s, p) matches Ok((v, _)) && v == (
            username,
            t,
            ip,
            port,
            token,
            privileged,
        ),
{
    broadcast use crate::frame::group_wire_lemmas;

    crate::peers::messages::connection::lemma_type_code_roundtrip(t);
    let a = ser_str(username);
    let c = ser_str(spec_type_code(t));
    let w = a + c + le32(ip) + le32(port) + le32(token) + ser_bool(privileged);
    lemma_holds_part(s, p, w, 0, a);
    lemma_str_at(s, p, username);
    lemma_holds_part(s, p, w, a.len() as int, c);
    lemma_str_at(s, p + a.len(), spec_type_code(t));
    lemma_holds_part(s, p, w, (a.len() + c.len()) as int, le32(ip));
    lemma_u32_at(s, p + a.len() + c.len(), ip);
    lemma_holds_part(s, p, w, (a.len() + c.len() + 4) as int, le32(port));
    lemma_u32_at(s, p + a.len() + c.len() + 4, port);
    lemma_holds_part(s, p, w, (a.len() + c.len() + 8) as int, le32(token));
    lemma_u32_at(s, p + a.len() + c.len() + 8, token);
    lemma_holds_part(s, p, w, (a.len() + c.len() + 12) as int, ser_bool(privileged));
    lemma_bool_at(s, p + a.len() + c.len() + 12, privileged);
}

} // verus!
