//! Zlib compression of the bodies of share and search replies, through the
//! `flate2` crate.
use crate::frame::Reader;
use crate::SlskError;
use flate2::write::ZlibEncoder;
use flate2::{Compression, Decompress, FlushDecompress};
use std::io::Write;
use vstd::prelude::*;

verus! {

/// The zlib stream that `flate2`'s `ZlibEncoder` writes for `data` at the
/// default compression level.
pub uninterp spec fn spec_zlib_compress(data: Seq<u8>) -> Seq<u8>;

/// What inflating the zlib stream `input` in one call gives when the output
/// may hold `capacity` bytes: the bytes produced, or `None` when `flate2`
/// reports the stream as corrupt.
pub uninterp spec fn spec_zlib_decompress(input: Seq<u8>, capacity: usize) -> Option<Seq<u8>>;

/// Compresses `data` with `flate2::write::ZlibEncoder` at
/// `Compression::default()` into a `Vec`, as `write_all` then `finish`.
/// Both succeed: the encoder writes into a `Vec`, which never fails, and
/// `miniz_oxide` reports an error only for parameters that are never given
/// here. The result is the named stream, which starts with the two byte zlib
/// header and ends with the four byte Adler-32 checksum, and inflates back to
/// the data it was made from, given room for all of it.
#[verifier::external_body]
fn zlib_compress(data: &[u8]) -> (res: Option<Vec<u8>>)
    ensures
        res is Some,
        res matches Some(v) ==> v@ == spec_zlib_compress(data@) && v@.len() >= 6,
        res matches Some(v) ==> forall|capacity: usize|
            data@.len() < capacity ==> #[trigger] spec_zlib_decompress(v@, capacity) == Some(
                data@,
            ),
{
    let mut encoder = ZlibEncoder::new(Vec::new(), Compression::default());
    match encoder.write_all(data) {
        Ok(()) => encoder.finish().ok(),
        Err(_) => None,
    }
}

/// Inflates `input` with `flate2::Decompress::new(true)` (a zlib header is
/// expected) and `FlushDecompress::Sync`, into an output of `capacity` bytes,
/// keeping the `total_out` bytes produced. The result is the named one; it
/// is never longer than the output it was written to.
#[verifier::external_body]
fn zlib_decompress(input: &[u8], capacity: usize) -> (res: Option<Vec<u8>>)
    ensures
        spec_zlib_decompress(input@, capacity) == (match res {
            Some(v) => Some(v@),
            None => None::<Seq<u8>>,
        }),
        res matches Some(v) ==> v@.len() <= capacity,
{
    let mut out = vec![0u8; capacity];
    let mut inflater = Decompress::new(true);
    match inflater.decompress(input, &mut out, FlushDecompress::Sync) {
        Ok(_) => {
            out.truncate(inflater.total_out() as usize);
            Some(out)
        },
        Err(_) => None,
    }
}

/// Largest ratio between inflated and compressed sizes that zlib allows.
pub const ZLIB_MAX_RATIO: usize = 1032;

/// Whether an output room of `ZLIB_MAX_RATIO` times `n` bytes fits a `usize`.
pub open spec fn inflate_room_fits(n: int) -> bool {
    n * ZLIB_MAX_RATIO <= usize::MAX
}

/// The bytes from `p` to the end of `s`.
pub open spec fn rest(s: Seq<u8>, p: int) -> Seq<u8> {
    s.subrange(p, s.len() as int)
}

/// Inflating what remains after `p`, with room for the largest ratio;
/// `None` when that room does not fit a `usize`.
pub open spec fn spec_inflate_rest(s: Seq<u8>, p: int) -> Option<Seq<u8>> {
    if inflate_room_fits(s.len() - p) {
        spec_zlib_decompress(rest(s, p), ((s.len() - p) * ZLIB_MAX_RATIO) as usize)
    } else {
        None
    }
}

/// Inflates all the bytes that remain in `src`, without moving it; the
/// output may be `ZLIB_MAX_RATIO` times as large as the input. A corrupt
/// stream, or an input so long that the room for its output does not fit a
/// `usize`, gives `InvalidData`.
pub fn decompress(src: &Reader) -> (res: Result<Vec<u8>, SlskError>)
    ensures
        match spec_inflate_rest(src.data(), src.position()) {
            Some(d) => res matches Ok(v) && v@ == d,
            None => res == Err::<Vec<u8>, SlskError>(SlskError::InvalidData),
        },
{
    let capacity = match src.remaining().checked_mul(ZLIB_MAX_RATIO) {
        Some(c) => c,
        None => return Err(SlskError::InvalidData),
    };
    let input = src.chunk();
    match zlib_decompress(input.as_slice(), capacity) {
        Some(data) => Ok(data),
        None => Err(SlskError::InvalidData),
    }
}

/// Inflates `input` into an output of at most `capacity` bytes. A corrupt
/// stream gives `InvalidData`.
pub fn decompress_bounded(input: &[u8], capacity: usize) -> (res: Result<Vec<u8>, SlskError>)
    ensures
        match spec_zlib_decompress(input@, capacity) {
            Some(d) => res matches Ok(v) && v@ == d,
            None => res == Err::<Vec<u8>, SlskError>(SlskError::InvalidData),
        },
{
    match zlib_decompress(input, capacity) {
        Some(data) => Ok(data),
        None => Err(SlskError::InvalidData),
    }
}

/// Compresses `data` into a zlib stream: always the named stream, at least
/// six bytes long, which inflates back to `data` given room for all of it.
pub fn compress(data: &[u8]) -> (res: Result<Vec<u8>, SlskError>)
    ensures
        res is Ok,
        res matches Ok(v) ==> v@ == spec_zlib_compress(data@) && v@.len() >= 6,
        res matches Ok(v) ==> forall|capacity: usize|
            data@.len() < capacity ==> #[trigger] spec_zlib_decompress(v@, capacity) == Some(
                data@,
            ),
{
    match zlib_compress(data) {
        Some(v) => Ok(v),
        None => Err(SlskError::InvalidData),
    }
}

} // verus!
