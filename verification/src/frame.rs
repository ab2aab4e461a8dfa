//! Wire primitives shared by every message family: little-endian integers,
//! length-prefixed strings and counted lists, both as specifications over byte
//! sequences and as executable readers and writers.
use crate::SlskError;
use vstd::bytes::*;
use vstd::slice::{slice_subrange, slice_to_vec};
use vstd::prelude::*;
use vstd::utf8::*;

verus! {

/// Length of the `u32` prefix written before every string.
pub const STR_LENGTH_PREFIX: u32 = 4;

// ---------------------------------------------------------------------------
// Specification of the wire format
// ---------------------------------------------------------------------------
/// Little-endian encoding of a `u32`.
pub open spec fn le32(x: u32) -> Seq<u8> {
    spec_u32_to_le_bytes(x)
}

/// Little-endian encoding of a `u64`.
pub open spec fn le64(x: u64) -> Seq<u8> {
    spec_u64_to_le_bytes(x)
}

pub broadcast proof fn lemma_le32(x: u32)
    ensures
        #[trigger] spec_u32_to_le_bytes(x).len() == 4,
        spec_u32_from_le_bytes(spec_u32_to_le_bytes(x)) == x,
{
    lemma_auto_spec_u32_to_from_le_bytes();
    assert(spec_u32_to_le_bytes(x).len() == 4);
}

pub broadcast proof fn lemma_le64(x: u64)
    ensures
        #[trigger] spec_u64_to_le_bytes(x).len() == 8,
        spec_u64_from_le_bytes(spec_u64_to_le_bytes(x)) == x,
{
    lemma_auto_spec_u64_to_from_le_bytes();
    assert(spec_u64_to_le_bytes(x).len() == 8);
}

pub broadcast group group_wire_lemmas {
    lemma_le32,
    lemma_le64,
    encode_utf8_valid_utf8,
    encode_utf8_decode_utf8,
}

/// Result of reading one field at position `p`: the field and the position after it.
pub type Read<T> = Result<(T, int), SlskError>;

pub open spec fn sp_u8(s: Seq<u8>, p: int) -> Read<u8> {
    if 0 <= p < s.len() {
        Ok((s[p], p + 1))
    } else {
        Err(SlskError::UnexpectedEof)
    }
}

pub open spec fn sp_u32(s: Seq<u8>, p: int) -> Read<u32> {
    if 0 <= p && p + 4 <= s.len() {
        Ok((spec_u32_from_le_bytes(s.subrange(p, p + 4)), p + 4))
    } else {
        Err(SlskError::UnexpectedEof)
    }
}

pub open spec fn sp_u64(s: Seq<u8>, p: int) -> Read<u64> {
    if 0 <= p && p + 8 <= s.len() {
        Ok((spec_u64_from_le_bytes(s.subrange(p, p + 8)), p + 8))
    } else {
        Err(SlskError::UnexpectedEof)
    }
}

/// A boolean is one byte, true exactly when it is 1.
pub open spec fn sp_bool(s: Seq<u8>, p: int) -> Read<bool> {
    match sp_u8(s, p) {
        Ok((b, q)) => Ok((b == 1, q)),
        Err(e) => Err(e),
    }
}

/// What `String::from_utf8_lossy` makes of a byte sequence.
pub uninterp spec fn spec_utf8_lossy(bytes: Seq<u8>) -> Seq<char>;

/// The text that string bytes stand for: their UTF-8 decoding where they are valid
/// UTF-8, the lossy decoding (invalid sequences replaced) otherwise.
pub open spec fn wire_text(bytes: Seq<u8>) -> Seq<char> {
    if valid_utf8(bytes) {
        decode_utf8(bytes)
    } else {
        spec_utf8_lossy(bytes)
    }
}

/// A string: a `u32` byte length, then that many bytes.
pub open spec fn sp_str(s: Seq<u8>, p: int) -> Read<Seq<char>> {
    match sp_u32(s, p) {
        Ok((n, q)) => if q + n <= s.len() {
            Ok((wire_text(s.subrange(q, q + n)), q + n))
        } else {
            Err(SlskError::UnexpectedEof)
        },
        Err(e) => Err(e),
    }
}

/// Where a failed string read leaves the position: after the length when the
/// length could be read, where it was otherwise.
pub open spec fn sp_str_fail_pos(s: Seq<u8>, p: int) -> int {
    match sp_u32(s, p) {
        Ok((_, q)) => q,
        Err(_) => p,
    }
}

/// `n` items read one after the other by `item`, starting at `p`.
pub open spec fn sp_rep<T>(
    s: Seq<u8>,
    p: int,
    n: nat,
    item: spec_fn(Seq<u8>, int) -> Read<T>,
) -> Read<Seq<T>>
    decreases n,
{
    if n == 0 {
        Ok((Seq::empty(), p))
    } else {
        match sp_rep(s, p, (n - 1) as nat, item) {
            Ok((xs, q)) => match item(s, q) {
                Ok((x, r)) => Ok((xs.push(x), r)),
                Err(e) => Err(e),
            },
            Err(e) => Err(e),
        }
    }
}

/// Once a repetition fails, every longer repetition fails with the same error.
pub proof fn lemma_rep_fail<T>(
    s: Seq<u8>,
    p: int,
    i: nat,
    n: nat,
    item: spec_fn(Seq<u8>, int) -> Read<T>,
)
    requires
        i <= n,
        sp_rep(s, p, i, item) is Err,
    ensures
        sp_rep(s, p, n, item) == sp_rep(s, p, i, item),
    decreases n,
{
    if i < n {
        lemma_rep_fail(s, p, i, (n - 1) as nat, item);
    }
}

/// A list with its `u32` count in front.
pub open spec fn sp_list<T>(s: Seq<u8>, p: int, item: spec_fn(Seq<u8>, int) -> Read<T>) -> Read<
    Seq<T>,
> {
    match sp_u32(s, p) {
        Ok((n, q)) => sp_rep(s, q, n as nat, item),
        Err(e) => Err(e),
    }
}

/// Views of the items of a vector.
pub open spec fn views<T: View>(v: Seq<T>) -> Seq<T::V> {
    v.map_values(|x: T| x@)
}

pub proof fn lemma_views_push<T: View>(v: Seq<T>, x: T)
    ensures
        views(v.push(x)) == views(v).push(x@),
{
    assert(views(v.push(x)) =~= views(v).push(x@));
}

/// What an executable read returns, given the specification of the field at
/// the reader's position: the field's view and the new position, or the error.
pub open spec fn read_matches<T: View>(
    res: Result<T, SlskError>,
    spec: Read<T::V>,
    end: int,
) -> bool {
    match spec {
        Ok((v, q)) => res matches Ok(x) && x@ == v && end == q,
        Err(e) => res == Err::<T, SlskError>(e),
    }
}

/// Encoding of a boolean.
pub open spec fn ser_bool(b: bool) -> Seq<u8> {
    if b {
        seq![1u8]
    } else {
        seq![0u8]
    }
}

/// Number of bytes of the UTF-8 encoding of a text.
pub open spec fn str_bytes(c: Seq<char>) -> int {
    encode_utf8(c).len() as int
}

/// Encoding of a string: its byte length as a `u32`, then its UTF-8 bytes.
pub open spec fn ser_str(c: Seq<char>) -> Seq<u8> {
    le32(encode_utf8(c).len() as u32) + encode_utf8(c)
}

/// Concatenation of the encodings of a list of strings.
pub open spec fn ser_strs(v: Seq<Seq<char>>) -> Seq<u8>
    decreases v.len(),
{
    if v.len() == 0 {
        Seq::empty()
    } else {
        ser_strs(v.drop_last()) + ser_str(v.last())
    }
}

/// Whether `s` holds `bytes` at position `p`.
pub open spec fn holds_at(s: Seq<u8>, p: int, bytes: Seq<u8>) -> bool {
    0 <= p && p + bytes.len() <= s.len() && s.subrange(p, p + bytes.len()) == bytes
}

/// A part of what `s` holds at `p` is held at its own offset.
pub proof fn lemma_holds_part(s: Seq<u8>, p: int, w: Seq<u8>, a: int, part: Seq<u8>)
    requires
        holds_at(s, p, w),
        0 <= a,
        a + part.len() <= w.len(),
        w.subrange(a, a + part.len()) =~= part,
    ensures
        holds_at(s, p + a, part),
{
    assert(s.subrange(p + a, p + a + part.len()) =~= w.subrange(a, a + part.len()));
}

/// A `u32` written at `p` reads back.
pub proof fn lemma_u32_at(s: Seq<u8>, p: int, x: u32)
    requires
        holds_at(s, p, le32(x)),
    ensures
        sp_u32(s, p) == Ok::<(u32, int), SlskError>((x, p + 4)),
{
    broadcast use group_wire_lemmas;

}

/// A `u64` written at `p` reads back.
pub proof fn lemma_u64_at(s: Seq<u8>, p: int, x: u64)
    requires
        holds_at(s, p, le64(x)),
    ensures
        sp_u64(s, p) == Ok::<(u64, int), SlskError>((x, p + 8)),
{
    broadcast use group_wire_lemmas;

}

/// A byte written at `p` reads back.
pub proof fn lemma_u8_at(s: Seq<u8>, p: int, x: u8)
    requires
        holds_at(s, p, seq![x]),
    ensures
        sp_u8(s, p) == Ok::<(u8, int), SlskError>((x, p + 1)),
{
    assert(s[p] == s.subrange(p, p + 1)[0]);
}

/// A boolean written at `p` reads back.
pub proof fn lemma_bool_at(s: Seq<u8>, p: int, b: bool)
    requires
        holds_at(s, p, ser_bool(b)),
    ensures
        sp_bool(s, p) == Ok::<(bool, int), SlskError>((b, p + 1)),
{
    assert(s[p] == s.subrange(p, p + 1)[0]);
}

/// A string whose byte length fits the `u32` prefix reads back from `p`.
pub proof fn lemma_str_at(s: Seq<u8>, p: int, c: Seq<char>)
    requires
        str_bytes(c) <= u32::MAX,
        holds_at(s, p, ser_str(c)),
    ensures
        sp_str(s, p) == Ok::<(Seq<char>, int), SlskError>((c, p + ser_str(c).len())),
{
    broadcast use group_wire_lemmas;

    let b = encode_utf8(c);
    let w = ser_str(c);
    assert(w.subrange(0, 4) =~= le32(b.len() as u32));
    assert(w.subrange(4, w.len() as int) =~= b);
    assert(s.subrange(p, p + 4) =~= w.subrange(0, 4));
    lemma_u32_at(s, p, b.len() as u32);
    assert(s.subrange(p + 4, p + 4 + b.len()) =~= w.subrange(4, w.len() as int));
}

// ---------------------------------------------------------------------------
// Parsing and writing traits
// ---------------------------------------------------------------------------
/// A value with a wire encoding that can be read from a byte cursor.
pub trait ParseBytes: Sized + View {
    /// The value read at position `p` of `s` and the position after it.
    spec fn spec_parse(s: Seq<u8>, p: int) -> Read<Self::V>;

    fn parse(src: &mut Reader) -> (res: Result<Self, SlskError>)
        ensures
            final(src).data() == old(src).data(),
            read_matches(res, Self::spec_parse(old(src).data(), old(src).position()), final(src).position()),
    ;
}

/// A value with a wire encoding that can be appended to a buffer.
pub trait ToBytes: Sized + View {
    /// The bytes written for a value.
    spec fn spec_bytes(v: Self::V) -> Seq<u8>;

    fn write_to_buf(&self, buffer: &mut Vec<u8>)
        ensures
            final(buffer)@ == old(buffer)@ + Self::spec_bytes(self@),
    ;
}

/// The reading function of a parsable type, as a value.
pub open spec fn item<T: ParseBytes>() -> spec_fn(Seq<u8>, int) -> Read<T::V> {
    |s: Seq<u8>, p: int| T::spec_parse(s, p)
}

/// What reading a list returns: the views of its items and the new position,
/// or the error.
pub open spec fn list_matches<T: View>(
    res: Result<Vec<T>, SlskError>,
    spec: Read<Seq<T::V>>,
    end: int,
) -> bool {
    match spec {
        Ok((v, q)) => res matches Ok(x) && views(x@) == v && end == q,
        Err(e) => res == Err::<Vec<T>, SlskError>(e),
    }
}

/// Reads `n` items.
pub fn read_rep<T: ParseBytes>(src: &mut Reader, n: u32) -> (res: Result<Vec<T>, SlskError>)
    ensures
        final(src).data() == old(src).data(),
        list_matches(res, sp_rep(old(src).data(), old(src).position(), n as nat, item::<T>()), final(src).position()),
{
    let ghost s = src.data();
    let ghost p0 = src.position();
    let mut items: Vec<T> = Vec::new();
    let mut i: u32 = 0;
    assert(views(items@) =~= Seq::<T::V>::empty());
    while i < n
        invariant
            src.data() == s,
            s == old(src).data(),
            p0 == old(src).position(),
            i <= n,
            sp_rep(s, p0, i as nat, item::<T>()) == Read::<Seq<T::V>>::Ok((views(items@), src.position())),
        decreases n - i,
    {
        match T::parse(src) {
            Ok(x) => {
                proof {
                    lemma_views_push(items@, x);
                }
                items.push(x);
            },
            Err(e) => {
                proof {
                    lemma_rep_fail(s, p0, (i + 1) as nat, n as nat, item::<T>());
                }
                return Err(e);
            },
        }
        i = i + 1;
    }
    Ok(items)
}

/// Reads a list: its `u32` count, then that many items.
pub fn read_list<T: ParseBytes>(src: &mut Reader) -> (res: Result<Vec<T>, SlskError>)
    ensures
        final(src).data() == old(src).data(),
        list_matches(res, sp_list(old(src).data(), old(src).position(), item::<T>()), final(src).position()),
{
    let n = src.read_u32()?;
    read_rep(src, n)
}

/// Concatenated encodings of items.
pub open spec fn ser_rep<T: ToBytes>(v: Seq<T::V>) -> Seq<u8>
    decreases v.len(),
{
    if v.len() == 0 {
        Seq::empty()
    } else {
        ser_rep::<T>(v.drop_last()) + T::spec_bytes(v.last())
    }
}

/// Encoding of a list: the item count as a `u32` (truncated as `as u32`
/// does), then the items.
pub open spec fn ser_list<T: ToBytes>(v: Seq<T::V>) -> Seq<u8> {
    le32(v.len() as u32) + ser_rep::<T>(v)
}

/// Writes the items one after the other.
pub fn write_rep<T: ToBytes>(buffer: &mut Vec<u8>, items: &Vec<T>)
    ensures
        final(buffer)@ == old(buffer)@ + ser_rep::<T>(views(items@)),
{
    let ghost start = buffer@;
    let mut i: usize = 0;
    assert(views(items@.subrange(0, 0)) =~= Seq::<T::V>::empty());
    while i < items.len()
        invariant
            i <= items@.len(),
            buffer@ == start + ser_rep::<T>(views(items@.subrange(0, i as int))),
        decreases items@.len() - i,
    {
        items[i].write_to_buf(buffer);
        proof {
            let prev = views(items@.subrange(0, i as int));
            let next = views(items@.subrange(0, i + 1));
            assert(next.drop_last() =~= prev);
            assert(next.last() == items@[i as int]@);
        }
        i = i + 1;
        assert(buffer@ =~= start + ser_rep::<T>(views(items@.subrange(0, i as int))));
    }
    assert(items@.subrange(0, items@.len() as int) =~= items@);
}

/// Writes a list: its length as a `u32`, then its items.
pub fn write_list<T: ToBytes>(buffer: &mut Vec<u8>, items: &Vec<T>)
    ensures
        final(buffer)@ == old(buffer)@ + ser_list::<T>(views(items@)),
{
    write_u32(buffer, items.len() as u32);
    write_rep(buffer, items);
    assert(final(buffer)@ =~= old(buffer)@ + ser_list::<T>(views(items@)));
}

/// An item that reads back wherever it is written.
pub open spec fn item_roundtrips<T: ParseBytes + ToBytes>(x: T::V) -> bool {
    forall|s: Seq<u8>, p: int|
        holds_at(s, p, T::spec_bytes(x)) ==> #[trigger] T::spec_parse(s, p) == Ok::<
            (T::V, int),
            SlskError,
        >((x, p + T::spec_bytes(x).len()))
}

/// Items that each read back, written one after the other, read back.
pub proof fn lemma_rep_at<T: ParseBytes + ToBytes>(s: Seq<u8>, p: int, v: Seq<T::V>)
    requires
        forall|i: int| 0 <= i < v.len() ==> item_roundtrips::<T>(#[trigger] v[i]),
        holds_at(s, p, ser_rep::<T>(v)),
    ensures
        sp_rep(s, p, v.len(), item::<T>()) == Ok::<(Seq<T::V>, int), SlskError>(
            (v, p + ser_rep::<T>(v).len()),
        ),
    decreases v.len(),
{
    if v.len() == 0 {
        assert(v =~= Seq::<T::V>::empty());
    } else {
        let d = v.drop_last();
        let x = v.last();
        let w = ser_rep::<T>(v);
        let wd = ser_rep::<T>(d);
        assert(w == wd + T::spec_bytes(x));
        assert(s.subrange(p, p + wd.len()) =~= w.subrange(0, wd.len() as int));
        assert(w.subrange(0, wd.len() as int) =~= wd);
        assert forall|i: int| 0 <= i < d.len() implies item_roundtrips::<T>(#[trigger] d[i]) by {
            assert(d[i] == v[i]);
        }
        lemma_rep_at::<T>(s, p, d);
        let q = p + wd.len();
        assert(s.subrange(q, q + T::spec_bytes(x).len()) =~= w.subrange(
            wd.len() as int,
            w.len() as int,
        ));
        assert(w.subrange(wd.len() as int, w.len() as int) =~= T::spec_bytes(x));
        assert(item_roundtrips::<T>(v[v.len() - 1]));
        assert(T::spec_parse(s, q) == Ok::<(T::V, int), SlskError>(
            (x, q + T::spec_bytes(x).len()),
        ));
        assert(d.push(x) =~= v);
    }
}

/// A list of items that each read back, with its count, reads back.
pub proof fn lemma_list_at<T: ParseBytes + ToBytes>(s: Seq<u8>, p: int, v: Seq<T::V>)
    requires
        v.len() <= u32::MAX,
        forall|i: int| 0 <= i < v.len() ==> item_roundtrips::<T>(#[trigger] v[i]),
        holds_at(s, p, ser_list::<T>(v)),
    ensures
        sp_list(s, p, item::<T>()) == Ok::<(Seq<T::V>, int), SlskError>(
            (v, p + ser_list::<T>(v).len()),
        ),
{
    broadcast use group_wire_lemmas;

    let w = ser_list::<T>(v);
    let r = ser_rep::<T>(v);
    assert(s.subrange(p, p + 4) =~= w.subrange(0, 4));
    assert(w.subrange(0, 4) =~= le32(v.len() as u32));
    lemma_u32_at(s, p, v.len() as u32);
    assert(s.subrange(p + 4, p + 4 + r.len()) =~= w.subrange(4, w.len() as int));
    assert(w.subrange(4, w.len() as int) =~= r);
    lemma_rep_at::<T>(s, p + 4, v);
}

/// A string reads back wherever it is written, when its length fits.
pub proof fn lemma_string_roundtrips(c: Seq<char>)
    requires
        str_bytes(c) <= u32::MAX,
    ensures
        item_roundtrips::<String>(c),
{
    assert forall|s: Seq<u8>, p: int| holds_at(s, p, String::spec_bytes(c)) implies #[trigger] String::spec_parse(
        s,
        p,
    ) == Ok::<(Seq<char>, int), SlskError>((c, p + String::spec_bytes(c).len())) by {
        lemma_str_at(s, p, c);
    }
}

impl ParseBytes for String {
    open spec fn spec_parse(s: Seq<u8>, p: int) -> Read<Seq<char>> {
        sp_str(s, p)
    }

    fn parse(src: &mut Reader) -> (res: Result<Self, SlskError>) {
        src.read_string()
    }
}

impl ToBytes for String {
    open spec fn spec_bytes(v: Seq<char>) -> Seq<u8> {
        ser_str(v)
    }

    fn write_to_buf(&self, buffer: &mut Vec<u8>) {
        write_string(buffer, self.as_str());
    }
}

impl ParseBytes for u32 {
    open spec fn spec_parse(s: Seq<u8>, p: int) -> Read<u32> {
        sp_u32(s, p)
    }

    fn parse(src: &mut Reader) -> (res: Result<Self, SlskError>) {
        src.read_u32()
    }
}

// ---------------------------------------------------------------------------
// Executable readers
// ---------------------------------------------------------------------------
/// A read position over a byte slice.
pub struct Reader<'a> {
    buf: &'a [u8],
    pos: usize,
}

impl<'a> Reader<'a> {
    #[verifier::type_invariant]
    spec fn inv(&self) -> bool {
        self.pos <= self.buf@.len()
    }

    /// The bytes being read.
    pub closed spec fn data(&self) -> Seq<u8> {
        self.buf@
    }

    /// The current position.
    pub closed spec fn position(&self) -> int {
        self.pos as int
    }

    pub fn new(buf: &'a [u8]) -> (r: Self)
        ensures
            r.data() == buf@,
            r.position() == 0,
    {
        Reader { buf, pos: 0 }
    }

    /// A reader positioned at `pos`.
    pub fn at(buf: &'a [u8], pos: usize) -> (r: Self)
        requires
            pos <= buf@.len(),
        ensures
            r.data() == buf@,
            r.position() == pos,
    {
        Reader { buf, pos }
    }

    pub fn pos(&self) -> (p: usize)
        ensures
            p == self.position(),
            p <= self.data().len(),
    {
        proof {
            use_type_invariant(self);
        }
        self.pos
    }

    pub fn remaining(&self) -> (n: usize)
        ensures
            n == self.data().len() - self.position(),
    {
        proof {
            use_type_invariant(self);
        }
        self.buf.len() - self.pos
    }

    pub fn has_remaining(&self) -> (b: bool)
        ensures
            b == (self.position() < self.data().len()),
    {
        proof {
            use_type_invariant(self);
        }
        self.pos < self.buf.len()
    }

    pub fn read_u8(&mut self) -> (res: Result<u8, SlskError>)
        ensures
            final(self).data() == old(self).data(),
            read_matches(res, sp_u8(old(self).data(), old(self).position()), final(self).position()),
    {
        proof {
            use_type_invariant(&*self);
        }
        if self.pos < self.buf.len() {
            let b = self.buf[self.pos];
            self.pos = self.pos + 1;
            Ok(b)
        } else {
            Err(SlskError::UnexpectedEof)
        }
    }

    pub fn read_bool(&mut self) -> (res: Result<bool, SlskError>)
        ensures
            final(self).data() == old(self).data(),
            read_matches(res, sp_bool(old(self).data(), old(self).position()), final(self).position()),
    {
        let b = self.read_u8()?;
        Ok(b == 1)
    }

    pub fn read_u32(&mut self) -> (res: Result<u32, SlskError>)
        ensures
            final(self).data() == old(self).data(),
            read_matches(res, sp_u32(old(self).data(), old(self).position()), final(self).position()),
            res is Err ==> final(self).position() == old(self).position(),
    {
        proof {
            use_type_invariant(&*self);
        }
        if self.buf.len() - self.pos >= 4 {
            let x = u32_from_le_bytes(slice_subrange(self.buf, self.pos, self.pos + 4));
            self.pos = self.pos + 4;
            Ok(x)
        } else {
            Err(SlskError::UnexpectedEof)
        }
    }

    pub fn read_u64(&mut self) -> (res: Result<u64, SlskError>)
        ensures
            final(self).data() == old(self).data(),
            read_matches(res, sp_u64(old(self).data(), old(self).position()), final(self).position()),
    {
        proof {
            use_type_invariant(&*self);
        }
        if self.buf.len() - self.pos >= 8 {
            let x = u64_from_le_bytes(slice_subrange(self.buf, self.pos, self.pos + 8));
            self.pos = self.pos + 8;
            Ok(x)
        } else {
            Err(SlskError::UnexpectedEof)
        }
    }

    /// Reads a length-prefixed string; bytes that are not valid UTF-8 are
    /// replaced as `String::from_utf8_lossy` does.
    pub fn read_string(&mut self) -> (res: Result<String, SlskError>)
        ensures
            final(self).data() == old(self).data(),
            read_matches(res, sp_str(old(self).data(), old(self).position()), final(self).position()),
            res is Err ==> final(self).position() == sp_str_fail_pos(
                old(self).data(),
                old(self).position(),
            ),
    {
        let n = self.read_u32()?;
        proof {
            use_type_invariant(&*self);
        }
        if n as usize <= self.buf.len() - self.pos {
            let bytes = slice_subrange(self.buf, self.pos, self.pos + n as usize);
            let text = if n > 0 {
                utf8_lossy(bytes)
            } else {
                let empty = String::new();
                proof {
                    assert(bytes@ =~= Seq::<u8>::empty());
                    assert(encode_utf8(Seq::<char>::empty()) =~= Seq::<u8>::empty());
                    encode_utf8_valid_utf8(Seq::<char>::empty());
                    encode_utf8_decode_utf8(Seq::<char>::empty());
                }
                empty
            };
            self.pos = self.pos + n as usize;
            Ok(text)
        } else {
            Err(SlskError::UnexpectedEof)
        }
    }

    /// Moves to position `pos`.
    pub fn set_position(&mut self, pos: usize)
        requires
            pos <= old(self).data().len(),
        ensures
            final(self).data() == old(self).data(),
            final(self).position() == pos,
    {
        self.pos = pos;
    }

    /// Reads the next `n` bytes.
    pub fn read_bytes(&mut self, n: usize) -> (res: Result<Vec<u8>, SlskError>)
        ensures
            final(self).data() == old(self).data(),
            old(self).position() + n <= old(self).data().len() ==> (res matches Ok(v) && v@
                == old(self).data().subrange(old(self).position(), old(self).position() + n)
                && final(self).position() == old(self).position() + n),
            old(self).position() + n > old(self).data().len() ==> res == Err::<Vec<u8>, SlskError>(
                SlskError::UnexpectedEof,
            ) && final(self).position() == old(self).position(),
    {
        proof {
            use_type_invariant(&*self);
        }
        if n <= self.buf.len() - self.pos {
            let v = slice_to_vec(slice_subrange(self.buf, self.pos, self.pos + n));
            self.pos = self.pos + n;
            Ok(v)
        } else {
            Err(SlskError::UnexpectedEof)
        }
    }

    /// All the bytes from the current position to the end, without moving.
    pub fn chunk(&self) -> (v: Vec<u8>)
        ensures
            v@ == self.data().subrange(self.position(), self.data().len() as int),
    {
        proof {
            use_type_invariant(self);
        }
        slice_to_vec(slice_subrange(self.buf, self.pos, self.buf.len()))
    }
}

/// `String::from_utf8_lossy`: the text of `bytes`, with each invalid UTF-8
/// sequence replaced by U+FFFD. The contract names the result and states the
/// documented fact that valid UTF-8 is decoded as such; what replaces invalid
/// sequences is left to the name.
#[verifier::external_body]
pub(crate) fn utf8_lossy(bytes: &[u8]) -> (s: String)
    ensures
        s@ == spec_utf8_lossy(bytes@),
        valid_utf8(bytes@) ==> s@ == decode_utf8(bytes@),
{
    String::from_utf8_lossy(bytes).to_string()
}

// ---------------------------------------------------------------------------
// Executable writers
// ---------------------------------------------------------------------------
pub fn write_u8(out: &mut Vec<u8>, x: u8)
    ensures
        final(out)@ == old(out)@.push(x),
{
    out.push(x);
}

pub fn write_bool(out: &mut Vec<u8>, b: bool)
    ensures
        final(out)@ == old(out)@ + ser_bool(b),
{
    if b {
        out.push(1u8);
    } else {
        out.push(0u8);
    }
    assert(final(out)@ =~= old(out)@ + ser_bool(b));
}

/// Appends `bytes` to `out`.
/// ASCII decimal digits of a natural number.
pub open spec fn decimal(n: nat) -> Seq<u8>
    decreases n,
{
    if n < 10 {
        seq![(48 + n) as u8]
    } else {
        decimal(n / 10).push((48 + n % 10) as u8)
    }
}

/// Appends the decimal digits of `n`.
pub fn write_decimal(out: &mut Vec<u8>, n: u64)
    ensures
        final(out)@ == old(out)@ + decimal(n as nat),
    decreases n,
{
    if n < 10 {
        out.push(48 + n as u8);
    } else {
        write_decimal(out, n / 10);
        out.push(48 + (n % 10) as u8);
    }
    assert(final(out)@ =~= old(out)@ + decimal(n as nat));
}

pub fn write_bytes(out: &mut Vec<u8>, bytes: &[u8])
    ensures
        final(out)@ == old(out)@ + bytes@,
{
    let ghost start = out@;
    let mut i: usize = 0;
    while i < bytes.len()
        invariant
            0 <= i <= bytes@.len(),
            out@ == start + bytes@.subrange(0, i as int),
        decreases bytes@.len() - i,
    {
        out.push(bytes[i]);
        i = i + 1;
        assert(out@ =~= start + bytes@.subrange(0, i as int));
    }
    assert(bytes@.subrange(0, bytes@.len() as int) =~= bytes@);
}

pub fn write_u32(out: &mut Vec<u8>, x: u32)
    ensures
        final(out)@ == old(out)@ + le32(x),
{
    let b = u32_to_le_bytes(x);
    write_bytes(out, b.as_slice());
}

pub fn write_u64(out: &mut Vec<u8>, x: u64)
    ensures
        final(out)@ == old(out)@ + le64(x),
{
    let b = u64_to_le_bytes(x);
    write_bytes(out, b.as_slice());
}

/// Removes the first `n` bytes of `v`.
pub fn drop_prefix(v: &mut Vec<u8>, n: usize)
    requires
        n <= old(v)@.len(),
    ensures
        final(v)@ == old(v)@.subrange(n as int, old(v)@.len() as int),
{
    let rest = slice_to_vec(slice_subrange(v.as_slice(), n, v.len()));
    *v = rest;
}

/// Appends a string as its `u32` byte length followed by its UTF-8 bytes.
pub fn write_string(out: &mut Vec<u8>, s: &str)
    ensures
        final(out)@ == old(out)@ + ser_str(s@),
{
    let bytes = s.as_bytes();
    write_u32(out, bytes.len() as u32);
    write_bytes(out, bytes);
    assert(final(out)@ =~= old(out)@ + ser_str(s@));
}

/// Reads a length-prefixed string from a byte cursor.
pub fn read_string(src: &mut Reader) -> (res: Result<String, SlskError>)
    ensures
        final(src).data() == old(src).data(),
        read_matches(res, sp_str(old(src).data(), old(src).position()), final(src).position()),
{
    src.read_string()
}

/// Reads a boolean: one byte, true exactly when it is 1.
pub fn read_bool(src: &mut Reader) -> (res: Result<bool, SlskError>)
    ensures
        final(src).data() == old(src).data(),
        read_matches(res, sp_bool(old(src).data(), old(src).position()), final(src).position()),
{
    src.read_bool()
}

/// Reads an IPv4 address, sent as a little-endian `u32` whose value is the
/// address in host order (`Ipv4Addr::from(u32)`).
pub fn read_ipv4(src: &mut Reader) -> (res: Result<u32, SlskError>)
    ensures
        final(src).data() == old(src).data(),
        read_matches(res, sp_u32(old(src).data(), old(src).position()), final(src).position()),
{
    src.read_u32()
}

} // verus!
