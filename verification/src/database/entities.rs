//! Records kept about peers and downloads, and the description of shared
//! files.
use crate::frame::{utf8_lossy, wire_text};
use crate::peers::messages::p2p::shared_directories::{Directory, File};
use crate::peers::messages::p2p::transfer::TransferRequest;
use crate::server::peer::{
    ipv4_text, socket_address, spec_ipv4_text, spec_socket_address, Peer, PeerConnectionRequest,
};
use vstd::prelude::*;

verus! {

/// A peer that we know the address of.
#[derive(Debug, Clone)]
pub struct PeerEntity {
    pub username: String,
    pub ip: u32,
    pub port: u32,
}

impl View for PeerEntity {
    type V = (Seq<char>, u32, u32);

    open spec fn view(&self) -> (Seq<char>, u32, u32) {
        (self.username@, self.ip, self.port)
    }
}

impl PeerEntity {
    pub fn new(username: &str, ip: u32, port: u32) -> (p: PeerEntity)
        ensures
            p@ == (username@, ip, port),
    {
        PeerEntity { username: username.to_owned(), ip, port }
    }

    /// `ip:port` text of the peer's address.
    pub fn get_address_with_port(&self) -> (s: String)
        ensures
            s@ == wire_text(spec_socket_address(self.ip, self.port)),
    {
        socket_address(self.ip, self.port)
    }

    /// Dotted decimal text of the peer's IP address, without the port.
    pub fn get_address(&self) -> (s: String)
        ensures
            s@ == wire_text(spec_ipv4_text(self.ip)),
    {
        ipv4_text(self.ip)
    }
}

impl vstd::std_specs::convert::FromSpecImpl<PeerConnectionRequest> for PeerEntity {
    open spec fn obeys_from_spec() -> bool {
        true
    }

    open spec fn from_spec(request: PeerConnectionRequest) -> PeerEntity {
        PeerEntity { username: request.username, ip: request.ip, port: request.port }
    }
}

impl From<PeerConnectionRequest> for PeerEntity {
    /// The user name, address and port of the request.
    fn from(request: PeerConnectionRequest) -> (p: PeerEntity) {
        PeerEntity { username: request.username, ip: request.ip, port: request.port }
    }
}

impl vstd::std_specs::convert::FromSpecImpl<Peer> for PeerEntity {
    open spec fn obeys_from_spec() -> bool {
        true
    }

    open spec fn from_spec(peer: Peer) -> PeerEntity {
        PeerEntity { username: peer.username, ip: peer.ip, port: peer.port }
    }
}

impl From<Peer> for PeerEntity {
    /// The user name, address and port of the peer.
    fn from(peer: Peer) -> (p: PeerEntity) {
        PeerEntity { username: peer.username, ip: peer.ip, port: peer.port }
    }
}

/// A download that a peer accepted to send us, and how far it got.
#[derive(Debug)]
pub struct DownloadDbEntry {
    pub file_name: String,
    pub ticket: u32,
    pub file_size: u64,
    pub progress: u64,
}

impl DownloadDbEntry {
    /// The record of a download that starts for an accepted transfer
    /// request, which carries the file size.
    pub fn from_request(request: &TransferRequest) -> (entry: DownloadDbEntry)
        requires
            request.file_size is Some,
        ensures
            entry.file_name@ == request.filename@,
            entry.ticket == request.ticket,
            entry.file_size == request.file_size->0,
            entry.progress == 0,
    {
        let file_size = match request.file_size {
            Some(size) => size,
            None => 0,
        };
        DownloadDbEntry {
            file_name: request.filename.clone(),
            ticket: request.ticket,
            file_size,
            progress: 0,
        }
    }
}

/// The bytes after the last `.` of a name; the whole name when it has none.
pub open spec fn after_last_dot(b: Seq<u8>) -> Seq<u8>
    decreases b.len(),
{
    if b.len() == 0 {
        b
    } else if b.last() == 46 {
        Seq::empty()
    } else {
        after_last_dot(b.drop_last()).push(b.last())
    }
}

/// The extension of a file name: what follows its last `.`, or the whole
/// name when it has none.
pub fn file_extension(name: &str) -> (ext: String)
    ensures
        ext@ == wire_text(after_last_dot(vstd::utf8::encode_utf8(name@))),
{
    let bytes = name.as_bytes();
    let mut start: usize = bytes.len();
    assert(bytes@.subrange(0, start as int) =~= bytes@);
    assert(bytes@.subrange(start as int, bytes@.len() as int) =~= Seq::<u8>::empty());
    assert(after_last_dot(bytes@) + Seq::<u8>::empty() =~= after_last_dot(bytes@));
    while start > 0 && bytes[start - 1] != 46
        invariant
            start <= bytes@.len(),
            after_last_dot(bytes@) == after_last_dot(bytes@.subrange(0, start as int)) + bytes@.subrange(
                start as int,
                bytes@.len() as int,
            ),
        decreases start,
    {
        proof {
            let pre = bytes@.subrange(0, start as int);
            assert(pre.drop_last() =~= bytes@.subrange(0, start - 1));
            assert(bytes@.subrange(start - 1, bytes@.len() as int) =~= seq![pre.last()]
                + bytes@.subrange(start as int, bytes@.len() as int));
            assert(after_last_dot(pre) == after_last_dot(pre.drop_last()).push(pre.last()));
            assert(after_last_dot(pre.drop_last()).push(pre.last()) + bytes@.subrange(
                start as int,
                bytes@.len() as int,
            ) =~= after_last_dot(pre.drop_last()) + bytes@.subrange(
                start - 1,
                bytes@.len() as int,
            ));
        }
        start = start - 1;
    }
    proof {
        let pre = bytes@.subrange(0, start as int);
        if start > 0 {
            assert(pre.last() == 46);
        } else {
            assert(pre =~= Seq::<u8>::empty());
        }
        assert(after_last_dot(pre) =~= Seq::<u8>::empty());
        assert(after_last_dot(bytes@) =~= bytes@.subrange(start as int, bytes@.len() as int));
    }
    let tail = vstd::slice::slice_subrange(bytes, start, bytes.len());
    utf8_lossy(tail)
}

impl File {
    /// The description of a file found on disk: its name, its size, the
    /// extension of its name, and no attributes.
    pub fn from_disk(name: String, size: u64) -> (f: File)
        ensures
            f.name@ == name@,
            f.size == size,
            f.extension@ == wire_text(after_last_dot(vstd::utf8::encode_utf8(name@))),
            f.attributes@.len() == 0,
    {
        let extension = file_extension(name.as_str());
        File { name, size, extension, attributes: Vec::new() }
    }
}

impl Directory {
    /// The entry that walking a shared directory adds for each thing found
    /// in it: a directory of that name, holding the file when the thing is a
    /// file (its name and size), and nothing when it is a subdirectory.
    pub fn from_disk_entry(directory: String, file: Option<(String, u64)>) -> (d: Directory)
        ensures
            d.name@ == directory@,
            file is None ==> d.files@.len() == 0,
            file matches Some((name, size)) ==> d.files@.len() == 1 && d.files@[0].name@ == name@
                && d.files@[0].size == size && d.files@[0].extension@ == wire_text(
                after_last_dot(vstd::utf8::encode_utf8(name@)),
            ) && d.files@[0].attributes@.len() == 0,
    {
        let mut files: Vec<File> = Vec::new();
        match file {
            Some((name, size)) => files.push(File::from_disk(name, size)),
            None => {},
        }
        Directory { name: directory, files }
    }
}

} // verus!
