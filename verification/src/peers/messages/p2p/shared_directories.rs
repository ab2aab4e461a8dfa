//! Shared directories: the answer to a shares request or a folder contents
//! request, sent as a zlib-compressed list of directories and their files.
use crate::frame::{
    holds_at, item, item_roundtrips, lemma_bool_at, lemma_holds_part, lemma_list_at, lemma_str_at,
    lemma_u64_at, lemma_u8_at, str_bytes, le32, le64, read_list, read_matches, ser_list, ser_str, sp_list, sp_str, sp_u32, sp_u64,
    sp_u8, views, write_bytes, write_list, write_string, write_u32, write_u64, write_u8,
    ParseBytes, Read, Reader, ToBytes,
};
use crate::peers::messages::p2p::zlib::{compress, decompress_bounded, rest, spec_zlib_compress, spec_zlib_decompress};
use crate::peers::messages::p2p::{PeerMessageCode, ser_peer_header, write_peer_header};
use crate::SlskError;
use vstd::prelude::*;

verus! {

/// Room given to the inflated body of a shares reply.
pub const SHARES_INFLATE_CAPACITY: usize = 100_000;

/// An attribute of a file (bitrate, duration, ...): where it stands and its value.
#[derive(Debug, Clone, Copy, PartialEq, Eq, Structural)]
pub struct Attribute {
    pub place: u32,
    pub attribute: u32,
}

impl View for Attribute {
    /// Place, then value.
    type V = (u32, u32);

    open spec fn view(&self) -> (u32, u32) {
        (self.place, self.attribute)
    }
}

impl ParseBytes for Attribute {
    /// The place, then the value.
    open spec fn spec_parse(s: Seq<u8>, p: int) -> Read<(u32, u32)> {
        match sp_u32(s, p) {
            Err(e) => Err(e),
            Ok((place, p)) => match sp_u32(s, p) {
                Err(e) => Err(e),
                Ok((attribute, p)) => Ok(((place, attribute), p)),
            },
        }
    }

    fn parse(src: &mut Reader) -> (res: Result<Self, SlskError>) {
        let ghost spec = Self::spec_parse(src.data(), src.position());
        let place = src.read_u32()?;
        let attribute = src.read_u32()?;
        Ok(Attribute { place, attribute })
    }
}

impl ToBytes for Attribute {
    /// The value, the place, and the value again.
    open spec fn spec_bytes(v: (u32, u32)) -> Seq<u8> {
        le32(v.1) + le32(v.0) + le32(v.1)
    }

    fn write_to_buf(&self, buffer: &mut Vec<u8>) {
        write_u32(buffer, self.attribute);
        write_u32(buffer, self.place);
        write_u32(buffer, self.attribute);
        assert(final(buffer)@ =~= old(buffer)@ + Self::spec_bytes(self@));
    }
}

/// A shared file.
#[derive(Debug, Clone, PartialEq, Eq)]
pub struct File {
    pub name: String,
    pub size: u64,
    pub extension: String,
    pub attributes: Vec<Attribute>,
}

/// What a file holds: name, size, extension, attributes.
pub type FileView = (Seq<char>, u64, Seq<char>, Seq<(u32, u32)>);

impl View for File {
    type V = FileView;

    open spec fn view(&self) -> FileView {
        (self.name@, self.size, self.extension@, views(self.attributes@))
    }
}

impl ParseBytes for File {
    /// An unused byte, the name, the size, the extension and the list of
    /// attributes.
    open spec fn spec_parse(s: Seq<u8>, p: int) -> Read<FileView> {
        match sp_u8(s, p) {
            Err(e) => Err(e),
            Ok((_, p)) => match sp_str(s, p) {
                Err(e) => Err(e),
                Ok((name, p)) => match sp_u64(s, p) {
                    Err(e) => Err(e),
                    Ok((size, p)) => match sp_str(s, p) {
                        Err(e) => Err(e),
                        Ok((extension, p)) => match sp_list(s, p, item::<Attribute>()) {
                            Err(e) => Err(e),
                            Ok((attributes, p)) => Ok(((name, size, extension, attributes), p)),
                        },
                    },
                },
            },
        }
    }

    fn parse(src: &mut Reader) -> (res: Result<Self, SlskError>) {
        let ghost spec = Self::spec_parse(src.data(), src.position());
        let _unused = src.read_u8()?;
        let name = src.read_string()?;
        let size = src.read_u64()?;
        let extension = src.read_string()?;
        let attributes = read_list::<Attribute>(src)?;
        Ok(File { name, size, extension, attributes })
    }
}

impl ToBytes for File {
    /// The byte 1, the name, the size, the extension and the list of
    /// attributes.
    open spec fn spec_bytes(v: FileView) -> Seq<u8> {
        seq![1u8] + ser_str(v.0) + le64(v.1) + ser_str(v.2) + ser_list::<Attribute>(v.3)
    }

    fn write_to_buf(&self, buffer: &mut Vec<u8>) {
        write_u8(buffer, 1);
        write_string(buffer, self.name.as_str());
        write_u64(buffer, self.size);
        write_string(buffer, self.extension.as_str());
        write_list(buffer, &self.attributes);
        assert(final(buffer)@ =~= old(buffer)@ + Self::spec_bytes(self@));
    }
}

/// A shared directory and its files.
#[derive(Debug, Clone, PartialEq, Eq)]
pub struct Directory {
    pub name: String,
    pub files: Vec<File>,
}

/// What a directory holds: its name and its files.
pub type DirectoryView = (Seq<char>, Seq<FileView>);

impl View for Directory {
    type V = DirectoryView;

    open spec fn view(&self) -> DirectoryView {
        (self.name@, views(self.files@))
    }
}

impl ParseBytes for Directory {
    /// The name, then the list of files.
    open spec fn spec_parse(s: Seq<u8>, p: int) -> Read<DirectoryView> {
        match sp_str(s, p) {
            Err(e) => Err(e),
            Ok((name, p)) => match sp_list(s, p, item::<File>()) {
                Err(e) => Err(e),
                Ok((files, p)) => Ok(((name, files), p)),
            },
        }
    }

    fn parse(src: &mut Reader) -> (res: Result<Self, SlskError>) {
        let ghost spec = Self::spec_parse(src.data(), src.position());
        let name = src.read_string()?;
        let files = read_list::<File>(src)?;
        Ok(Directory { name, files })
    }
}

impl ToBytes for Directory {
    /// The name, then the list of files.
    open spec fn spec_bytes(v: DirectoryView) -> Seq<u8> {
        ser_str(v.0) + ser_list::<File>(v.1)
    }

    fn write_to_buf(&self, buffer: &mut Vec<u8>) {
        write_string(buffer, self.name.as_str());
        write_list(buffer, &self.files);
        assert(final(buffer)@ =~= old(buffer)@ + Self::spec_bytes(self@));
    }
}

/// The directories that a user shares.
#[derive(Debug, Clone, PartialEq, Eq)]
pub struct SharedDirectories {
    pub dirs: Vec<Directory>,
}

impl View for SharedDirectories {
    type V = Seq<DirectoryView>;

    open spec fn view(&self) -> Seq<DirectoryView> {
        views(self.dirs@)
    }
}

/// The inflated body of a shares reply: the list of directories.
pub open spec fn spec_shares_payload(v: Seq<DirectoryView>) -> Seq<u8> {
    ser_list::<Directory>(v)
}

/// A message whose body is the zlib stream `compressed`: its length counts
/// the code.
pub open spec fn ser_compressed_msg(code: PeerMessageCode, compressed: Seq<u8>) -> Seq<u8> {
    ser_peer_header((compressed.len() + 4) as u32, code) + compressed
}

/// What writing a compressed message does: it succeeds exactly when the
/// compressed payload fits the length field, and the buffer then grows by
/// the message whose body is the compressed payload, which inflates back to
/// the payload given room for it; otherwise the buffer is unchanged and the
/// error is `InvalidData`.
pub open spec fn compressed_written(
    before: Seq<u8>,
    after: Seq<u8>,
    res: Result<(), SlskError>,
    payload: Seq<u8>,
    code: PeerMessageCode,
) -> bool {
    &&& res is Ok ==> spec_zlib_compress(payload).len() + 4 <= u32::MAX && after == before
        + ser_compressed_msg(code, spec_zlib_compress(payload))
    &&& res is Ok ==> forall|capacity: usize|
        payload.len() < capacity ==> #[trigger] spec_zlib_decompress(
            spec_zlib_compress(payload),
            capacity,
        ) == Some(payload)
    &&& res is Err ==> res == Err::<(), SlskError>(SlskError::InvalidData) && after == before
    &&& res is Ok <==> spec_zlib_compress(payload).len() + 4 <= u32::MAX
    &&& spec_zlib_compress(payload).len() >= 6
}

/// The directories that an inflated body holds; what follows them is ignored.
pub open spec fn spec_shares_from_payload(d: Seq<u8>) -> Result<Seq<DirectoryView>, SlskError> {
    match sp_list(d, 0, item::<Directory>()) {
        Err(e) => Err(e),
        Ok((v, _)) => Ok(v),
    }
}

impl SharedDirectories {
    /// Reads the directories from an inflated body.
    pub fn from_payload(data: &[u8]) -> (res: Result<Self, SlskError>)
        ensures
            match spec_shares_from_payload(data@) {
                Ok(v) => res matches Ok(x) && x@ == v,
                Err(e) => res == Err::<Self, SlskError>(e),
            },
    {
        let mut src = Reader::new(data);
        let dirs = read_list::<Directory>(&mut src)?;
        Ok(SharedDirectories { dirs })
    }

    /// Writes a shares reply: header with code `SharesReply`, then the
    /// compressed list of directories. When the compressed body is too long
    /// for the length field, nothing is written and the result is
    /// `InvalidData`.
    pub fn write_to_buf(&self, buffer: &mut Vec<u8>) -> (res: Result<(), SlskError>)
        ensures
            compressed_written(
                old(buffer)@,
                final(buffer)@,
                res,
                spec_shares_payload(self@),
                PeerMessageCode::SharesReply,
            ),
    {
        let mut payload: Vec<u8> = Vec::new();
        write_list(&mut payload, &self.dirs);
        assert(payload@ =~= spec_shares_payload(self@));
        let compressed = compress(payload.as_slice())?;
        if compressed.len() > (u32::MAX - 4) as usize {
            return Err(SlskError::InvalidData);
        }
        write_peer_header(buffer, compressed.len() as u32 + 4, PeerMessageCode::SharesReply);
        write_bytes(buffer, compressed.as_slice());
        assert(final(buffer)@ =~= old(buffer)@ + ser_compressed_msg(PeerMessageCode::SharesReply, compressed@));
        Ok(())
    }
}

/// The shares that the bytes from `p` to the end inflate to, with room for
/// `SHARES_INFLATE_CAPACITY` bytes; a corrupt stream is `InvalidData`.
pub open spec fn spec_parse_shares(s: Seq<u8>, p: int) -> Result<Seq<DirectoryView>, SlskError> {
    match spec_zlib_decompress(rest(s, p), SHARES_INFLATE_CAPACITY) {
        None => Err(SlskError::InvalidData),
        Some(d) => spec_shares_from_payload(d),
    }
}

impl ParseBytes for SharedDirectories {
    /// Inflates the rest of the message and reads the directories from it;
    /// the position does not move.
    open spec fn spec_parse(s: Seq<u8>, p: int) -> Read<Seq<DirectoryView>> {
        match spec_parse_shares(s, p) {
            Err(e) => Err(e),
            Ok(v) => Ok((v, p)),
        }
    }

    fn parse(src: &mut Reader) -> (res: Result<Self, SlskError>) {
        let ghost spec = Self::spec_parse(src.data(), src.position());
        let input = src.chunk();
        let data = decompress_bounded(input.as_slice(), SHARES_INFLATE_CAPACITY)?;
        SharedDirectories::from_payload(data.as_slice())
    }
}

/// A file reads back when it has no attributes and its name and extension
/// fit their length prefixes. (An attribute is written as value, place,
/// value, and read as place, value.)
pub open spec fn file_roundtrips(f: FileView) -> bool {
    str_bytes(f.0) <= u32::MAX && str_bytes(f.2) <= u32::MAX && f.3.len() == 0
}

/// A directory reads back when its name fits its prefix and its files,
/// whose count fits the count field, each read back.
pub open spec fn directory_roundtrips(d: DirectoryView) -> bool {
    &&& str_bytes(d.0) <= u32::MAX
    &&& d.1.len() <= u32::MAX
    &&& forall|i: int| 0 <= i < d.1.len() ==> file_roundtrips(#[trigger] d.1[i])
}

/// Shares read back when their directories, whose count fits the count
/// field, each read back.
pub open spec fn shares_roundtrip(v: Seq<DirectoryView>) -> bool {
    &&& v.len() <= u32::MAX
    &&& forall|i: int| 0 <= i < v.len() ==> directory_roundtrips(#[trigger] v[i])
}

pub(crate) proof fn lemma_file_roundtrips(f: FileView)
    requires
        file_roundtrips(f),
    ensures
        item_roundtrips::<File>(f),
{
    broadcast use crate::frame::group_wire_lemmas;

    assert forall|s: Seq<u8>, p: int| holds_at(s, p, File::spec_bytes(f)) implies #[trigger] File::spec_parse(
        s,
        p,
    ) == Ok::<(FileView, int), SlskError>((f, p + File::spec_bytes(f).len())) by {
        let w = File::spec_bytes(f);
        let n = ser_str(f.0);
        let e = ser_str(f.2);
        let a = ser_list::<Attribute>(f.3);
        lemma_holds_part(s, p, w, 0, seq![1u8]);
        lemma_u8_at(s, p, 1u8);
        lemma_holds_part(s, p, w, 1, n);
        lemma_str_at(s, p + 1, f.0);
        lemma_holds_part(s, p, w, 1 + n.len() as int, le64(f.1));
        lemma_u64_at(s, p + 1 + n.len(), f.1);
        lemma_holds_part(s, p, w, 1 + n.len() as int + 8, e);
        lemma_str_at(s, p + 1 + n.len() + 8, f.2);
        lemma_holds_part(s, p, w, 1 + n.len() as int + 8 + e.len() as int, a);
        lemma_list_at::<Attribute>(s, p + 1 + n.len() + 8 + e.len(), f.3);
    }
}

proof fn lemma_directory_roundtrips(d: DirectoryView)
    requires
        directory_roundtrips(d),
    ensures
        item_roundtrips::<Directory>(d),
{
    assert forall|i: int| 0 <= i < d.1.len() implies item_roundtrips::<File>(#[trigger] d.1[i]) by {
        lemma_file_roundtrips(d.1[i]);
    }
    assert forall|s: Seq<u8>, p: int| holds_at(s, p, Directory::spec_bytes(d)) implies #[trigger] Directory::spec_parse(
        s,
        p,
    ) == Ok::<(DirectoryView, int), SlskError>((d, p + Directory::spec_bytes(d).len())) by {
        let w = Directory::spec_bytes(d);
        let n = ser_str(d.0);
        let l = ser_list::<File>(d.1);
        lemma_holds_part(s, p, w, 0, n);
        lemma_str_at(s, p, d.0);
        lemma_holds_part(s, p, w, n.len() as int, l);
        lemma_list_at::<File>(s, p + n.len(), d.1);
    }
}

/// The body of a shares reply reads back as the shares it was made from.
pub proof fn lemma_shares_payload_roundtrip(v: Seq<DirectoryView>, rest: Seq<u8>)
    requires
        shares_roundtrip(v),
    ensures
        spec_shares_from_payload(spec_shares_payload(v) + rest) == Ok::<
            Seq<DirectoryView>,
            SlskError,
        >(v),
{
    assert forall|i: int| 0 <= i < v.len() implies item_roundtrips::<Directory>(#[trigger] v[i]) by {
        lemma_directory_roundtrips(v[i]);
    }
    let w = spec_shares_payload(v);
    assert((w + rest).subrange(0, w.len() as int) =~= w);
    lemma_list_at::<Directory>(w + rest, 0, v);
}

/// A shares reply reads back: after a header that announces the
/// compressed body, `check` finds the whole message with the code
/// `SharesReply`, and its body parses to the shares that were compressed,
/// when that body inflates to their payload within the room given to it.
pub proof fn lemma_shares_reply_roundtrip(
    v: Seq<DirectoryView>,
    compressed: Seq<u8>,
    before: Seq<u8>,
)
    requires
        shares_roundtrip(v),
        compressed.len() + 4 <= u32::MAX,
        spec_zlib_decompress(compressed, SHARES_INFLATE_CAPACITY) == Some(spec_shares_payload(v)),
    ensures
        ({
            let msg = before + ser_compressed_msg(PeerMessageCode::SharesReply, compressed);
            let q = before.len() as int + 8;
            &&& crate::peers::messages::p2p::spec_check(msg, before.len() as int) == Ok::<
                (crate::peers::messages::p2p::PeerMessageHeader, int),
                SlskError,
            >(
                (
                    crate::peers::messages::p2p::PeerMessageHeader {
                        code: PeerMessageCode::SharesReply,
                        message_len: compressed.len() as usize,
                    },
                    q,
                ),
            )
            &&& SharedDirectories::spec_parse(msg, q) == Ok::<(Seq<DirectoryView>, int), SlskError>(
                (v, q),
            )
        }),
{
    broadcast use crate::frame::group_wire_lemmas;

    let msg = before + ser_compressed_msg(PeerMessageCode::SharesReply, compressed);
    let p = before.len() as int;
    let w = ser_compressed_msg(PeerMessageCode::SharesReply, compressed);
    assert(holds_at(msg, p, w)) by {
        assert(msg.subrange(p, p + w.len()) =~= w);
    }
    lemma_holds_part(msg, p, w, 0, le32((compressed.len() + 4) as u32));
    crate::frame::lemma_u32_at(msg, p, (compressed.len() + 4) as u32);
    lemma_holds_part(msg, p, w, 4, le32(5));
    crate::frame::lemma_u32_at(msg, p + 4, 5);
    assert(rest(msg, p + 8) =~= compressed);
    lemma_shares_payload_roundtrip(v, Seq::empty());
    assert(spec_shares_payload(v) + Seq::<u8>::empty() =~= spec_shares_payload(v));
}

/// Shares that are written read back: when the compressed list fits the
/// length field the writer succeeds, and, when the list is within the room
/// that the parser inflates into, `check` finds the message that it wrote and
/// its body parses to the same shares.
pub proof fn lemma_written_shares_read_back(
    v: Seq<DirectoryView>,
    before: Seq<u8>,
    after: Seq<u8>,
    res: Result<(), SlskError>,
)
    requires
        compressed_written(before, after, res, spec_shares_payload(v), PeerMessageCode::SharesReply),
        shares_roundtrip(v),
        spec_zlib_compress(spec_shares_payload(v)).len() + 4 <= u32::MAX,
        spec_shares_payload(v).len() < SHARES_INFLATE_CAPACITY,
    ensures
        res is Ok,
        crate::peers::messages::p2p::spec_check(after, before.len() as int) == Ok::<
            (crate::peers::messages::p2p::PeerMessageHeader, int),
            SlskError,
        >(
            (
                crate::peers::messages::p2p::PeerMessageHeader {
                    code: PeerMessageCode::SharesReply,
                    message_len: spec_zlib_compress(spec_shares_payload(v)).len() as usize,
                },
                before.len() + 8int,
            ),
        ),
        SharedDirectories::spec_parse(after, before.len() + 8int) == Ok::<
            (Seq<DirectoryView>, int),
            SlskError,
        >((v, before.len() + 8int)),
{
    lemma_shares_reply_roundtrip(v, spec_zlib_compress(spec_shares_payload(v)), before);
}

/// An attribute on the wire is its place followed by its value, each a
/// little-endian `u32`: it reads as that place and that value, eight bytes on.
pub proof fn lemma_attribute_layout(s: Seq<u8>, p: int, place: u32, value: u32)
    requires
        holds_at(s, p, le32(place) + le32(value)),
    ensures
        Attribute::spec_parse(s, p) == Ok::<((u32, u32), int), SlskError>(((place, value), p + 8)),
{
    broadcast use crate::frame::group_wire_lemmas;

    let w = le32(place) + le32(value);
    lemma_holds_part(s, p, w, 0, le32(place));
    crate::frame::lemma_u32_at(s, p, place);
    lemma_holds_part(s, p, w, 4, le32(value));
    crate::frame::lemma_u32_at(s, p + 4, value);
}

} // verus!
