//! Cutting a captured stream of client to server traffic into messages, for
//! inspection.
use crate::frame::{drop_prefix, utf8_lossy, views, wire_text, Reader};
use crate::SlskError;
use crate::server::{spec_code_from_u32, MessageCode};
use vstd::bytes::spec_u32_from_le_bytes;
use vstd::prelude::*;

verus! {

/// One captured message: the name of its code, the code, the length of its
/// body and the body.
#[derive(Debug)]
pub struct SoulseekMessageDump {
    pub code: String,
    pub raw_code: u32,
    pub len: u32,
    pub message: Vec<u8>,
}

/// What a dump holds: code name, code, body length, body.
pub type DumpView = (Seq<char>, u32, u32, Seq<u8>);

impl View for SoulseekMessageDump {
    type V = DumpView;

    open spec fn view(&self) -> DumpView {
        (self.code@, self.raw_code, self.len, self.message@)
    }
}

/// The `u32` at position `p`.
pub open spec fn u32_at(s: Seq<u8>, p: int) -> u32 {
    spec_u32_from_le_bytes(s.subrange(p, p + 4))
}

/// Whether the message at `p` can be split: its length field is there, and
/// so is its code unless the length announces more bytes than follow.
pub open spec fn split_fits(s: Seq<u8>, p: int) -> bool {
    &&& 0 <= p
    &&& p + 4 <= s.len()
    &&& (u32_at(s, p) > ((s.len() - (p + 4)) as usize) as u32 || p + 8 <= s.len())
}

/// Splitting the message at `p`: when its length field announces more
/// bytes than follow (as a `u32`), the rest of the stream from `p` and the
/// position `p`; otherwise its code, the length of its body (the length
/// field less the four bytes of the code, or zero), its body and the
/// position after it.
pub open spec fn spec_split(s: Seq<u8>, p: int) -> Result<(MessageCode, u32, Seq<u8>, int), (Seq<u8>, int)> {
    let len = u32_at(s, p);
    if len > ((s.len() - (p + 4)) as usize) as u32 {
        Err((s.subrange(p, s.len() as int), p))
    } else {
        let l: u32 = if len >= 4 {
            (len - 4) as u32
        } else {
            0
        };
        Ok((spec_code_from_u32(u32_at(s, p + 4)), l, s.subrange(p + 8, p + 8 + l), p + 8 + l))
    }
}

/// Splits the message at the reader's position.
pub fn split_messages(cursor: &mut Reader) -> (res: Result<(MessageCode, u32, Vec<u8>), Vec<u8>>)
    requires
        split_fits(old(cursor).data(), old(cursor).position()),
    ensures
        final(cursor).data() == old(cursor).data(),
        match spec_split(old(cursor).data(), old(cursor).position()) {
            Err((rest, p)) => res matches Err(v) && v@ == rest && final(cursor).position() == p,
            Ok((code, len, message, p)) => res matches Ok((c, l, m)) && c == code && l == len
                && m@ == message && final(cursor).position() == p,
        },
{
    let ghost s = cursor.data();
    let start = cursor.pos();
    let len = match cursor.read_u32() {
        Ok(len) => len,
        Err(_) => {
            return Err(cursor.chunk());
        },
    };
    let remaining = cursor.remaining();
    if len > remaining as u32 {
        cursor.set_position(start);
        return Err(cursor.chunk());
    }
    let code = match cursor.read_u32() {
        Ok(code) => MessageCode::from(code),
        Err(_) => {
            return Err(cursor.chunk());
        },
    };
    let len = if len >= 4 {
        len - 4
    } else {
        0
    };
    proof {
        assert((remaining as u32) as usize <= remaining) by (bit_vector);
    }
    let message = match cursor.read_bytes(len as usize) {
        Ok(message) => message,
        Err(_) => {
            return Err(cursor.chunk());
        },
    };
    Ok((code, len, message))
}

/// The dumps of the messages from `p` on, while at least 8 bytes remain,
/// and the position after them; or, when a message announces more bytes than
/// follow, the rest of the stream from that message and its position.
pub open spec fn spec_dumps(s: Seq<u8>, p: int) -> Result<(Seq<DumpView>, int), (Seq<u8>, int)>
    decreases s.len() - p,
{
    if p < 0 || s.len() - p < 8 {
        Ok((Seq::empty(), p))
    } else {
        match spec_split(s, p) {
            Err(e) => Err(e),
            Ok((code, len, message, q)) => match spec_dumps(s, q) {
                Err(e) => Err(e),
                Ok((dumps, end)) => Ok(
                    (seq![(code.spec_name(), code.spec_code(), len, message)] + dumps, end),
                ),
            },
        }
    }
}

/// `r` with `ds` in front of its dumps.
pub open spec fn prepend(ds: Seq<DumpView>, r: Result<(Seq<DumpView>, int), (Seq<u8>, int)>) -> Result<
    (Seq<DumpView>, int),
    (Seq<u8>, int),
> {
    match r {
        Ok((xs, e)) => Ok((ds + xs, e)),
        Err(e) => Err(e),
    }
}

/// Dumps the messages of the stream from the reader's position while at
/// least 8 bytes remain, and returns them with the bytes left over; when a
/// message is not all there, returns the bytes from that message on and
/// leaves the reader there.
pub fn bytes_to_json_dump(cursor: &mut Reader) -> (res: Result<
    (Vec<SoulseekMessageDump>, Vec<u8>),
    Vec<u8>,
>)
    ensures
        final(cursor).data() == old(cursor).data(),
        match spec_dumps(old(cursor).data(), old(cursor).position()) {
            Ok((dumps, end)) => res matches Ok((v, rest)) && views(v@) == dumps && rest@
                == old(cursor).data().subrange(end, old(cursor).data().len() as int)
                && final(cursor).position() == end,
            Err((rest, p)) => res matches Err(v) && v@ == rest && final(cursor).position() == p,
        },
{
    let ghost s = cursor.data();
    let ghost p0 = cursor.position();
    let mut dumps: Vec<SoulseekMessageDump> = Vec::new();
    proof {
        assert(prepend(views(dumps@), spec_dumps(s, p0)) =~= spec_dumps(s, p0)) by {
            assert(views(dumps@) =~= Seq::<DumpView>::empty());
            match spec_dumps(s, p0) {
                Ok((xs, e)) => {
                    assert(Seq::<DumpView>::empty() + xs =~= xs);
                },
                Err(_) => {},
            }
        }
    }
    while cursor.remaining() >= 8
        invariant
            cursor.data() == s,
            s == old(cursor).data(),
            p0 == old(cursor).position(),
            spec_dumps(s, p0) == prepend(views(dumps@), spec_dumps(s, cursor.position())),
        decreases s.len() - cursor.position(),
    {
        // The position is within the data, as `split_messages` requires.
        let _start: usize = cursor.pos();
        match split_messages(cursor) {
            Err(rest) => {
                return Err(rest);
            },
            Ok((code, len, message)) => {
                let dump = SoulseekMessageDump {
                    code: code.name().to_string(),
                    raw_code: code.code(),
                    len,
                    message,
                };
                proof {
                    let d = dump@;
                    crate::frame::lemma_views_push(dumps@, dump);
                    match spec_dumps(s, cursor.position()) {
                        Ok((xs, e)) => {
                            assert(views(dumps@) + (seq![d] + xs) =~= views(dumps@).push(d) + xs);
                        },
                        Err(_) => {},
                    }
                }
                dumps.push(dump);
            },
        }
    }
    let rest = cursor.chunk();
    proof {
        assert(views(dumps@) + Seq::<DumpView>::empty() =~= views(dumps@));
    }
    Ok((dumps, rest))
}

/// Keeps what is left of a captured stream once its messages have been
/// dumped: nothing when no bytes remained, the bytes from `consumed` on
/// otherwise.
pub fn drop_dumped(unread: &mut Vec<u8>, consumed: usize, remains_empty: bool)
    requires
        consumed <= old(unread)@.len(),
    ensures
        remains_empty ==> final(unread)@ == Seq::<u8>::empty(),
        !remains_empty ==> final(unread)@ == old(unread)@.subrange(
            consumed as int,
            old(unread)@.len() as int,
        ),
{
    if remains_empty {
        *unread = Vec::new();
    } else {
        drop_prefix(unread, consumed);
    }
}

// ---------------------------------------------------------------------------
// Reading tcpdump's hexadecimal output
// ---------------------------------------------------------------------------
/// The bytes of `b` before its first `:`, all of them when it has none.
pub open spec fn before_colon(b: Seq<u8>) -> Seq<u8>
    decreases b.len(),
{
    if b.len() == 0 || b[0] == 58 {
        Seq::empty()
    } else {
        seq![b[0]] + before_colon(b.drop_first())
    }
}

/// The bytes of `b` after its first `:`, if it has one.
pub open spec fn after_colon(b: Seq<u8>) -> Option<Seq<u8>>
    decreases b.len(),
{
    if b.len() == 0 {
        None
    } else if b[0] == 58 {
        Some(b.drop_first())
    } else {
        after_colon(b.drop_first())
    }
}

/// The bytes of `b` that are not spaces.
pub open spec fn without_spaces(b: Seq<u8>) -> Seq<u8>
    decreases b.len(),
{
    if b.len() == 0 {
        b
    } else if b.last() == 32 {
        without_spaces(b.drop_last())
    } else {
        without_spaces(b.drop_last()).push(b.last())
    }
}

/// The hexadecimal text of a tcpdump output line: its second `:`-separated
/// field without spaces; `None` for a line without `:`.
pub open spec fn spec_hex_of_line(line: Seq<u8>) -> Option<Seq<u8>> {
    match after_colon(line) {
        None => None,
        Some(rest) => Some(without_spaces(before_colon(rest))),
    }
}

proof fn lemma_colon_scan(b: Seq<u8>, i: int)
    requires
        0 <= i <= b.len(),
        forall|j: int| 0 <= j < i ==> b[j] != 58,
    ensures
        after_colon(b) == after_colon(b.subrange(i, b.len() as int)),
        before_colon(b) == b.subrange(0, i) + before_colon(b.subrange(i, b.len() as int)),
    decreases i,
{
    if i > 0 {
        let d = b.drop_first();
        assert forall|j: int| 0 <= j < i - 1 implies d[j] != 58 by {
            assert(d[j] == b[j + 1]);
        }
        lemma_colon_scan(d, i - 1);
        assert(d.subrange(i - 1, d.len() as int) =~= b.subrange(i, b.len() as int));
        assert(seq![b[0]] + d.subrange(0, i - 1) =~= b.subrange(0, i));
        assert(b[0] != 58);
    } else {
        assert(b.subrange(0, b.len() as int) =~= b);
        assert(b.subrange(0, 0) + before_colon(b) =~= before_colon(b));
    }
}

/// The hexadecimal text of a tcpdump output line: what follows its first
/// `:` up to the next one, without spaces. `None` for a line without `:`.
pub fn hex_of_line(line: &str) -> (res: Option<String>)
    ensures
        match spec_hex_of_line(vstd::utf8::encode_utf8(line@)) {
            None => res is None,
            Some(h) => res matches Some(x) && x@ == wire_text(h),
        },
{
    let b = line.as_bytes();
    let ghost s = b@;
    let mut i: usize = 0;
    while i < b.len() && b[i] != 58
        invariant
            i <= s.len(),
            s == b@,
            forall|j: int| 0 <= j < i ==> s[j] != 58,
        decreases s.len() - i,
    {
        i = i + 1;
    }
    proof {
        lemma_colon_scan(s, i as int);
    }
    if i == b.len() {
        assert(s.subrange(i as int, s.len() as int) =~= Seq::<u8>::empty());
        return None;
    }
    let ghost rest = s.subrange(i + 1, s.len() as int);
    proof {
        assert(s.subrange(i as int, s.len() as int).drop_first() =~= rest);
    }
    let mut out: Vec<u8> = Vec::new();
    let mut k: usize = i + 1;
    while k < b.len() && b[k] != 58
        invariant
            i + 1 <= k <= s.len(),
            s == b@,
            rest == s.subrange(i + 1, s.len() as int),
            forall|j: int| 0 <= j < k - (i + 1) ==> rest[j] != 58,
            out@ == without_spaces(rest.subrange(0, k - (i + 1))),
        decreases s.len() - k,
    {
        proof {
            let t = rest.subrange(0, k + 1 - (i + 1));
            assert(t.drop_last() =~= rest.subrange(0, k - (i + 1)));
            assert(t.last() == b@[k as int]);
        }
        if b[k] != 32 {
            out.push(b[k]);
        }
        k = k + 1;
    }
    proof {
        let n = k - (i + 1);
        lemma_colon_scan(rest, n as int);
        if k < s.len() {
            assert(rest.subrange(n as int, rest.len() as int)[0] == 58);
        } else {
            assert(rest.subrange(n as int, rest.len() as int) =~= Seq::<u8>::empty());
        }
        assert(before_colon(rest) =~= rest.subrange(0, n as int));
    }
    Some(utf8_lossy(out.as_slice()))
}

/// The value of a decimal digit.
pub open spec fn digit(c: u8) -> Option<u8> {
    if 48 <= c <= 57 {
        Some((c - 48) as u8)
    } else {
        None
    }
}

fn read_digit(c: u8) -> (d: Option<u8>)
    ensures
        d == digit(c),
{
    if 48 <= c && c <= 57 {
        Some(c - 48)
    } else {
        None
    }
}

/// The hexadecimal text of the TCP payload of a captured packet, given as
/// the hexadecimal text of its IP frame: the IP header length, in 32-bit
/// words, is the second character, and the TCP data offset, in 32-bit
/// words, is the 25th character of the TCP header; both are read as decimal
/// digits. A text too short for them gives `UnexpectedEof`, a character
/// that is not a digit `InvalidData`.
pub open spec fn spec_tcp_payload_hex(m: Seq<u8>) -> Result<Seq<u8>, SlskError> {
    if m.len() < 2 {
        Err(SlskError::UnexpectedEof)
    } else {
        match digit(m[1]) {
            None => Err(SlskError::InvalidData),
            Some(ihl) => {
                let h = ihl * 8;
                if h > m.len() {
                    Err(SlskError::UnexpectedEof)
                } else {
                    let t = m.subrange(h, m.len() as int);
                    if t.len() < 25 {
                        Err(SlskError::UnexpectedEof)
                    } else {
                        match digit(t[24]) {
                            None => Err(SlskError::InvalidData),
                            Some(offset) => {
                                let d = offset * 4 * 2;
                                if d > t.len() {
                                    Err(SlskError::UnexpectedEof)
                                } else {
                                    Ok(t.subrange(d, t.len() as int))
                                }
                            },
                        }
                    }
                }
            },
        }
    }
}

/// The value of a hexadecimal digit, in either case.
pub open spec fn hex_value(c: u8) -> Option<u8> {
    if 48 <= c <= 57 {
        Some((c - 48) as u8)
    } else if 97 <= c <= 102 {
        Some((c - 87) as u8)
    } else if 65 <= c <= 70 {
        Some((c - 55) as u8)
    } else {
        None
    }
}

/// Hexadecimal text decoded to bytes, two digits per byte, the first one
/// the high half; `None` for an odd length or a character that is not a
/// hexadecimal digit.
pub open spec fn spec_hex_decode(s: Seq<u8>) -> Option<Seq<u8>> {
    if s.len() % 2 == 1 {
        None
    } else if exists|i: int| 0 <= i < s.len() && (#[trigger] hex_value(s[i])) is None {
        None
    } else {
        Some(
            Seq::new(
                s.len() / 2,
                |i: int| (16 * hex_value(s[2 * i])->0 + hex_value(s[2 * i + 1])->0) as u8,
            ),
        )
    }
}

/// `hex::decode`: the bytes of hexadecimal text, as `spec_hex_decode` says;
/// `None` where the crate reports an odd length or an invalid character.
#[verifier::external_body]
fn hex_decode(data: &[u8]) -> (res: Option<Vec<u8>>)
    ensures
        spec_hex_decode(data@) == (match res {
            Some(v) => Some(v@),
            None => None::<Seq<u8>>,
        }),
{
    hex::decode(data).ok()
}

/// The TCP payload of a captured packet, from the hexadecimal text of its IP
/// frame; text that is not hexadecimal gives `InvalidData`.
pub fn tcp_payload(message: &str) -> (res: Result<Vec<u8>, SlskError>)
    ensures
        match spec_tcp_payload_hex(vstd::utf8::encode_utf8(message@)) {
            Err(e) => res == Err::<Vec<u8>, SlskError>(e),
            Ok(h) => match spec_hex_decode(h) {
                None => res == Err::<Vec<u8>, SlskError>(SlskError::InvalidData),
                Some(v) => res matches Ok(x) && x@ == v,
            },
        },
{
    let m = message.as_bytes();
    if m.len() < 2 {
        return Err(SlskError::UnexpectedEof);
    }
    let ihl = match read_digit(m[1]) {
        Some(d) => d,
        None => {
            return Err(SlskError::InvalidData);
        },
    };
    let header_len = ihl as usize * 8;
    if header_len > m.len() {
        return Err(SlskError::UnexpectedEof);
    }
    let tcp_frame = vstd::slice::slice_subrange(m, header_len, m.len());
    if tcp_frame.len() < 25 {
        return Err(SlskError::UnexpectedEof);
    }
    let offset = match read_digit(tcp_frame[24]) {
        Some(d) => d,
        None => {
            return Err(SlskError::InvalidData);
        },
    };
    let data_start = offset as usize * 4 * 2;
    if data_start > tcp_frame.len() {
        return Err(SlskError::UnexpectedEof);
    }
    let data = vstd::slice::slice_subrange(tcp_frame, data_start, tcp_frame.len());
    match hex_decode(data) {
        Some(bytes) => Ok(bytes),
        None => Err(SlskError::InvalidData),
    }
}

} // verus!
