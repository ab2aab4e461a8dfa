//! Search replies: the files of a peer that match one of our searches, sent
//! as a zlib-compressed body.
use crate::frame::{
    holds_at, item_roundtrips, lemma_bool_at, lemma_holds_part, lemma_list_at, lemma_str_at, lemma_u32_at,
    lemma_u64_at, str_bytes, item, le32, le64, read_list, ser_bool, ser_list, ser_str, sp_bool, sp_list, sp_str, sp_u32,
    sp_u64, views, write_bool, write_bytes, write_list, write_string, write_u32, write_u64,
    Reader,
};
use crate::peers::messages::p2p::shared_directories::{
    compressed_written, file_roundtrips, lemma_file_roundtrips, ser_compressed_msg, File, FileView,
};
use crate::peers::messages::p2p::zlib::{
    compress, decompress, spec_inflate_rest,
};
use crate::peers::messages::p2p::{write_peer_header, PeerMessageCode, PeerMessageHeader};
use crate::peers::messages::p2p::zlib::{rest, spec_zlib_compress, spec_zlib_decompress, ZLIB_MAX_RATIO};
use crate::SlskError;
use vstd::prelude::*;

verus! {

/// The answer of a peer to a search.
#[derive(Debug)]
pub struct SearchReply {
    pub username: String,
    pub ticket: u32,
    pub files: Vec<File>,
    pub slot_free: bool,
    pub average_speed: u32,
    pub queue_length: u64,
    pub locked_results: Vec<File>,
}

/// What a search reply holds: user name, ticket, files, free slot, average
/// speed, queue length and locked results.
pub type SearchReplyView = (Seq<char>, u32, Seq<FileView>, bool, u32, u64, Seq<FileView>);

impl View for SearchReply {
    type V = SearchReplyView;

    open spec fn view(&self) -> SearchReplyView {
        (
            self.username@,
            self.ticket,
            views(self.files@),
            self.slot_free,
            self.average_speed,
            self.queue_length,
            views(self.locked_results@),
        )
    }
}

/// The reply that an inflated body holds: user name, ticket, list of files,
/// free slot, average speed, queue length, and, when bytes remain, the list
/// of locked results (empty otherwise).
pub open spec fn spec_search_from_payload(d: Seq<u8>) -> Result<SearchReplyView, SlskError> {
    match sp_str(d, 0) {
        Err(e) => Err(e),
        Ok((username, p)) => match sp_u32(d, p) {
            Err(e) => Err(e),
            Ok((ticket, p)) => match sp_list(d, p, item::<File>()) {
                Err(e) => Err(e),
                Ok((files, p)) => match sp_bool(d, p) {
                    Err(e) => Err(e),
                    Ok((slot_free, p)) => match sp_u32(d, p) {
                        Err(e) => Err(e),
                        Ok((average_speed, p)) => match sp_u64(d, p) {
                            Err(e) => Err(e),
                            Ok((queue_length, p)) => if p < d.len() {
                                match sp_list(d, p, item::<File>()) {
                                    Err(e) => Err(e),
                                    Ok((locked, _)) => Ok(
                                        (
                                            username,
                                            ticket,
                                            files,
                                            slot_free,
                                            average_speed,
                                            queue_length,
                                            locked,
                                        ),
                                    ),
                                }
                            } else {
                                Ok(
                                    (
                                        username,
                                        ticket,
                                        files,
                                        slot_free,
                                        average_speed,
                                        queue_length,
                                        Seq::empty(),
                                    ),
                                )
                            },
                        },
                    },
                },
            },
        },
    }
}

/// The reply that the bytes from `p` to the end inflate to; a corrupt
/// stream is `InvalidData`.
pub open spec fn spec_parse_search_reply(s: Seq<u8>, p: int) -> Result<SearchReplyView, SlskError> {
    match spec_inflate_rest(s, p) {
        None => Err(SlskError::InvalidData),
        Some(d) => spec_search_from_payload(d),
    }
}

/// The inflated body of a search reply.
pub open spec fn spec_search_payload(v: SearchReplyView) -> Seq<u8> {
    ser_str(v.0) + le32(v.1) + ser_list::<File>(v.2) + ser_bool(v.3) + le32(v.4) + le64(v.5)
        + ser_list::<File>(v.6)
}

impl SearchReply {
    /// Reads a reply from an inflated body.
    pub fn from_payload(data: &[u8]) -> (res: Result<Self, SlskError>)
        ensures
            match spec_search_from_payload(data@) {
                Ok(v) => res matches Ok(x) && x@ == v,
                Err(e) => res == Err::<Self, SlskError>(e),
            },
    {
        let mut src = Reader::new(data);
        let username = src.read_string()?;
        let ticket = src.read_u32()?;
        let files = read_list::<File>(&mut src)?;
        let slot_free = src.read_bool()?;
        let average_speed = src.read_u32()?;
        let queue_length = src.read_u64()?;
        let locked_results = if src.has_remaining() {
            read_list::<File>(&mut src)?
        } else {
            let empty: Vec<File> = Vec::new();
            assert(views(empty@) =~= Seq::<FileView>::empty());
            empty
        };
        Ok(SearchReply {
            username,
            ticket,
            files,
            slot_free,
            average_speed,
            queue_length,
            locked_results,
        })
    }

    /// Inflates the rest of the message and reads the reply from it; the
    /// position does not move.
    pub fn parse(src: &mut Reader) -> (res: Result<Self, SlskError>)
        ensures
            final(src).data() == old(src).data(),
            final(src).position() == old(src).position(),
            match spec_parse_search_reply(old(src).data(), old(src).position()) {
                Ok(v) => res matches Ok(x) && x@ == v,
                Err(e) => res == Err::<Self, SlskError>(e),
            },
    {
        let data = decompress(src)?;
        SearchReply::from_payload(data.as_slice())
    }

    /// Writes a search reply: header with code `SearchReply`, then the
    /// compressed body. When the compressed body is too long for the length
    /// field, nothing is written and the result is `InvalidData`.
    pub fn write_to_buf(&self, buffer: &mut Vec<u8>) -> (res: Result<(), SlskError>)
        ensures
            compressed_written(
                old(buffer)@,
                final(buffer)@,
                res,
                spec_search_payload(self@),
                PeerMessageCode::SearchReply,
            ),
    {
        let mut payload: Vec<u8> = Vec::new();
        write_string(&mut payload, self.username.as_str());
        write_u32(&mut payload, self.ticket);
        write_list(&mut payload, &self.files);
        write_bool(&mut payload, self.slot_free);
        write_u32(&mut payload, self.average_speed);
        write_u64(&mut payload, self.queue_length);
        write_list(&mut payload, &self.locked_results);
        assert(payload@ =~= spec_search_payload(self@));
        let compressed = compress(payload.as_slice())?;
        if compressed.len() > (u32::MAX - 4) as usize {
            return Err(SlskError::InvalidData);
        }
        write_peer_header(buffer, compressed.len() as u32 + 4, PeerMessageCode::SearchReply);
        write_bytes(buffer, compressed.as_slice());
        assert(final(buffer)@ =~= old(buffer)@ + ser_compressed_msg(PeerMessageCode::SearchReply, compressed@));
        Ok(())
    }
}

/// A search reply reads back when its user name fits its prefix and its
/// files and locked results, whose counts fit the count fields, each read
/// back.
pub open spec fn search_reply_roundtrips(v: SearchReplyView) -> bool {
    &&& str_bytes(v.0) <= u32::MAX
    &&& v.2.len() <= u32::MAX
    &&& v.6.len() <= u32::MAX
    &&& forall|i: int| 0 <= i < v.2.len() ==> file_roundtrips(#[trigger] v.2[i])
    &&& forall|i: int| 0 <= i < v.6.len() ==> file_roundtrips(#[trigger] v.6[i])
}

/// The body of a search reply reads back as the reply it was made from.
#[verifier::spinoff_prover]
#[verifier::rlimit(80)]
pub proof fn lemma_search_payload_roundtrip(v: SearchReplyView)
    requires
        search_reply_roundtrips(v),
    ensures
        spec_search_from_payload(spec_search_payload(v)) == Ok::<SearchReplyView, SlskError>(v),
{
    broadcast use crate::frame::group_wire_lemmas;

    assert forall|i: int| 0 <= i < v.2.len() implies item_roundtrips::<File>(#[trigger] v.2[i]) by {
        lemma_file_roundtrips(v.2[i]);
    }
    assert forall|i: int| 0 <= i < v.6.len() implies item_roundtrips::<File>(#[trigger] v.6[i]) by {
        lemma_file_roundtrips(v.6[i]);
    }
    let w = spec_search_payload(v);
    assert(holds_at(w, 0, w)) by {
        assert(w.subrange(0, w.len() as int) =~= w);
    }
    let a = ser_str(v.0);
    let f = ser_list::<File>(v.2);
    let l = ser_list::<File>(v.6);
    lemma_holds_part(w, 0, w, 0, a);
    lemma_str_at(w, 0, v.0);
    let p1 = a.len() as int;
    lemma_holds_part(w, 0, w, p1, le32(v.1));
    lemma_u32_at(w, p1, v.1);
    lemma_holds_part(w, 0, w, p1 + 4, f);
    lemma_list_at::<File>(w, p1 + 4, v.2);
    let p2 = p1 + 4 + f.len();
    lemma_holds_part(w, 0, w, p2, ser_bool(v.3));
    lemma_bool_at(w, p2, v.3);
    lemma_holds_part(w, 0, w, p2 + 1, le32(v.4));
    lemma_u32_at(w, p2 + 1, v.4);
    lemma_holds_part(w, 0, w, p2 + 5, le64(v.5));
    lemma_u64_at(w, p2 + 5, v.5);
    lemma_holds_part(w, 0, w, p2 + 13, l);
    lemma_list_at::<File>(w, p2 + 13, v.6);
}

/// A search reply reads back: after a header that announces the compressed
/// body, `check` finds the whole message with the code `SearchReply`, and
/// the body parses to the reply that was compressed, when that body
/// inflates to its payload within the room given to it.
pub proof fn lemma_search_reply_roundtrip(v: SearchReplyView, compressed: Seq<u8>)
    requires
        search_reply_roundtrips(v),
        compressed.len() + 4 <= u32::MAX,
        compressed.len() * ZLIB_MAX_RATIO <= usize::MAX,
        spec_zlib_decompress(compressed, (compressed.len() * ZLIB_MAX_RATIO) as usize) == Some(
            spec_search_payload(v),
        ),
    ensures
        ({
            let msg = ser_compressed_msg(PeerMessageCode::SearchReply, compressed);
            &&& crate::peers::messages::p2p::spec_check(msg, 0) == Ok::<
                (PeerMessageHeader, int),
                SlskError,
            >(
                (
                    PeerMessageHeader {
                        code: PeerMessageCode::SearchReply,
                        message_len: compressed.len() as usize,
                    },
                    8,
                ),
            )
            &&& spec_parse_search_reply(msg, 8) == Ok::<SearchReplyView, SlskError>(v)
        }),
{
    broadcast use crate::frame::group_wire_lemmas;

    let msg = ser_compressed_msg(PeerMessageCode::SearchReply, compressed);
    assert(holds_at(msg, 0, msg)) by {
        assert(msg.subrange(0, msg.len() as int) =~= msg);
    }
    lemma_holds_part(msg, 0, msg, 0, le32((compressed.len() + 4) as u32));
    lemma_u32_at(msg, 0, (compressed.len() + 4) as u32);
    lemma_holds_part(msg, 0, msg, 4, le32(9));
    lemma_u32_at(msg, 4, 9);
    assert(rest(msg, 8) =~= compressed);
    lemma_search_payload_roundtrip(v);
}

/// A search reply that is written into an empty buffer reads back: when the
/// compressed body fits the length field the writer succeeds, and, when the
/// body inflates within the room that the parser gives it, `check` finds the
/// message and its body parses to the same reply.
pub proof fn lemma_written_search_reply_reads_back(
    v: SearchReplyView,
    after: Seq<u8>,
    res: Result<(), SlskError>,
)
    requires
        compressed_written(
            Seq::empty(),
            after,
            res,
            spec_search_payload(v),
            PeerMessageCode::SearchReply,
        ),
        search_reply_roundtrips(v),
        spec_zlib_compress(spec_search_payload(v)).len() + 4 <= u32::MAX,
        spec_zlib_compress(spec_search_payload(v)).len() * ZLIB_MAX_RATIO <= usize::MAX,
        spec_search_payload(v).len() < spec_zlib_compress(spec_search_payload(v)).len()
            * ZLIB_MAX_RATIO,
    ensures
        res is Ok,
        crate::peers::messages::p2p::spec_check(after, 0) == Ok::<(PeerMessageHeader, int), SlskError>(
            (
                PeerMessageHeader {
                    code: PeerMessageCode::SearchReply,
                    message_len: spec_zlib_compress(spec_search_payload(v)).len() as usize,
                },
                8,
            ),
        ),
        spec_parse_search_reply(after, 8) == Ok::<SearchReplyView, SlskError>(v),
{
    let c = spec_zlib_compress(spec_search_payload(v));
    assert(after =~= ser_compressed_msg(PeerMessageCode::SearchReply, c));
    lemma_search_reply_roundtrip(v, c);
}

} // verus!
