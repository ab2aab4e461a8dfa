//! Login request and response.
use crate::frame::{
    le32, read_matches, ser_str, sp_str, sp_u32, sp_u8, str_bytes, utf8_lossy, wire_text,
    write_string, write_u32, ParseBytes, Read, Reader,
};
use crate::server::{ser_header, write_header, MessageCode};
use crate::SlskError;
use crate::frame::{holds_at, lemma_holds_part, lemma_str_at, lemma_u32_at, lemma_u8_at};
use vstd::prelude::*;
use vstd::utf8::{decode_utf8, encode_utf8, pop_first_scalar, valid_utf8};

verus! {

/// Major version of the client that we announce.
pub const VERSION: u32 = 157;

/// Minor version of the client that we announce.
pub const MINOR_VERSION: u32 = 19;

/// The MD5 digest of some bytes.
pub uninterp spec fn spec_md5(data: Seq<u8>) -> Seq<u8>;

/// `md5::compute`: the 16 bytes of the MD5 digest of `data`. The contract
/// names the digest and states its length, as the crate's `Digest([u8; 16])`
/// shows.
#[verifier::external_body]
fn md5_digest(data: &[u8]) -> (d: Vec<u8>)
    ensures
        d@ == spec_md5(data@),
        d@.len() == 16,
{
    md5::compute(data).0.to_vec()
}

/// The ASCII code of a hexadecimal digit in lower case.
pub open spec fn hex_digit(n: int) -> u8 {
    if n < 10 {
        (48 + n) as u8
    } else {
        (87 + n) as u8
    }
}

/// Lower-case hexadecimal text of bytes, two digits per byte, as ASCII bytes.
pub open spec fn hex_lower(b: Seq<u8>) -> Seq<u8>
    decreases b.len(),
{
    if b.len() == 0 {
        Seq::empty()
    } else {
        hex_lower(b.drop_last()) + seq![hex_digit((b.last() / 16) as int), hex_digit((b.last() % 16) as int)]
    }
}

/// Lower-case hexadecimal text of bytes.
pub fn to_hex_lower(data: &[u8]) -> (s: String)
    ensures
        s@ == wire_text(hex_lower(data@)),
{
    let mut out: Vec<u8> = Vec::new();
    let mut i: usize = 0;
    while i < data.len()
        invariant
            i <= data@.len(),
            out@ == hex_lower(data@.subrange(0, i as int)),
        decreases data@.len() - i,
    {
        let b = data[i];
        let hi = b / 16;
        let lo = b % 16;
        let hi_c: u8 = if hi < 10 { 48 + hi } else { 87 + hi };
        let lo_c: u8 = if lo < 10 { 48 + lo } else { 87 + lo };
        out.push(hi_c);
        out.push(lo_c);
        proof {
            assert(data@.subrange(0, i + 1).drop_last() =~= data@.subrange(0, i as int));
        }
        i = i + 1;
        assert(out@ =~= hex_lower(data@.subrange(0, i as int)));
    }
    assert(data@.subrange(0, data@.len() as int) =~= data@);
    utf8_lossy(out.as_slice())
}

/// Hexadecimal text is twice as long as its bytes, and ASCII.
proof fn lemma_hex_lower_ascii(b: Seq<u8>)
    ensures
        hex_lower(b).len() == 2 * b.len(),
        forall|i: int| 0 <= i < hex_lower(b).len() ==> #[trigger] hex_lower(b)[i] < 128,
    decreases b.len(),
{
    if b.len() > 0 {
        lemma_hex_lower_ascii(b.drop_last());
        let h = hex_lower(b);
        let pre = hex_lower(b.drop_last());
        assert forall|i: int| 0 <= i < h.len() implies #[trigger] h[i] < 128 by {
            if i < pre.len() {
                assert(h[i] == pre[i]);
            }
        }
    }
}

/// ASCII bytes are valid UTF-8 and decode to as many characters.
proof fn lemma_ascii_utf8(h: Seq<u8>)
    requires
        forall|i: int| 0 <= i < h.len() ==> #[trigger] h[i] < 128,
    ensures
        valid_utf8(h),
        decode_utf8(h).len() == h.len(),
        encode_utf8(decode_utf8(h)) == h,
    decreases h.len(),
{
    if h.len() > 0 {
        let t = h.subrange(1, h.len() as int);
        assert forall|i: int| 0 <= i < t.len() implies #[trigger] t[i] < 128 by {
            assert(t[i] == h[i + 1]);
        }
        lemma_ascii_utf8(t);
        let b0 = h[0];
        assert((b0 & 0x7F) as u32 == b0 as u32) by (bit_vector)
            requires
                b0 < 128,
        ;
        assert(pop_first_scalar(h) =~= t);
    }
    vstd::utf8::decode_utf8_encode_utf8(h);
}

/// The MD5 digest, in lower-case hexadecimal, of a user name followed by a password.
pub open spec fn spec_login_digest(username: Seq<char>, password: Seq<char>) -> Seq<char> {
    wire_text(hex_lower(spec_md5(encode_utf8(username) + encode_utf8(password))))
}

/// Login request: user name, password, client version, MD5 digest of the user
/// name followed by the password, and minor version.
#[derive(Debug)]
pub struct LoginRequest {
    pub username: String,
    pub password: String,
    pub version: u32,
    pub md5_digest: String,
    pub minor_version: u32,
}

impl View for LoginRequest {
    type V = (Seq<char>, Seq<char>, u32, Seq<char>, u32);

    open spec fn view(&self) -> Self::V {
        (self.username@, self.password@, self.version, self.md5_digest@, self.minor_version)
    }
}

impl LoginRequest {
    /// A login request with the digest of `username` followed by `password`,
    /// and the versions that we announce.
    pub fn new(username: &str, password: &str) -> (r: Self)
        ensures
            r@ == (
                username@,
                password@,
                VERSION,
                spec_login_digest(username@, password@),
                MINOR_VERSION,
            ),
            r.md5_digest@.len() == 32,
            str_bytes(r.md5_digest@) == 32,
    {
        let mut data: Vec<u8> = Vec::new();
        crate::frame::write_bytes(&mut data, username.as_bytes());
        crate::frame::write_bytes(&mut data, password.as_bytes());
        let digest = md5_digest(data.as_slice());
        let md5_digest = to_hex_lower(digest.as_slice());
        proof {
            lemma_hex_lower_ascii(digest@);
            lemma_ascii_utf8(hex_lower(digest@));
        }
        LoginRequest {
            username: username.to_string(),
            password: password.to_string(),
            version: VERSION,
            md5_digest,
            minor_version: MINOR_VERSION,
        }
    }

    /// Length field: code, three strings with their prefixes, two versions.
    pub open spec fn spec_len(v: (Seq<char>, Seq<char>, u32, Seq<char>, u32)) -> int {
        4 + (str_bytes(v.0) + 4) + (str_bytes(v.1) + 4) + (str_bytes(v.3) + 4) + 4 + 4
    }

    pub open spec fn spec_bytes(v: (Seq<char>, Seq<char>, u32, Seq<char>, u32)) -> Seq<u8> {
        ser_header(Self::spec_len(v) as u32, MessageCode::Login) + ser_str(v.0) + ser_str(v.1)
            + le32(v.2) + ser_str(v.3) + le32(v.4)
    }

    /// Writes the request: header with code `Login`, user name, password,
    /// version, digest, minor version.
    pub fn write_to_buf(&self, buffer: &mut Vec<u8>)
        requires
            Self::spec_len(self@) <= u32::MAX,
        ensures
            final(buffer)@ == old(buffer)@ + Self::spec_bytes(self@),
    {
        let username = self.username.as_str().as_bytes().len() as u32 + 4;
        let password = self.password.as_str().as_bytes().len() as u32 + 4;
        let md5_digest = self.md5_digest.as_str().as_bytes().len() as u32 + 4;
        let length = 4 + username + password + md5_digest + 4 + 4;
        write_header(buffer, length, MessageCode::Login);
        write_string(buffer, self.username.as_str());
        write_string(buffer, self.password.as_str());
        write_u32(buffer, self.version);
        write_string(buffer, self.md5_digest.as_str());
        write_u32(buffer, self.minor_version);
        assert(final(buffer)@ =~= old(buffer)@ + Self::spec_bytes(self@));
    }
}

/// Answer of the server to a login request.
#[derive(Debug)]
pub enum LoginResponse {
    /// Code 0: the login failed.
    Failure { reason: String },
    /// Code 1: the login succeeded.
    Success { greeting_message: String, user_ip: u32, password_md5_digest: String },
}

impl View for LoginResponse {
    /// `Ok` with greeting, address and digest on success, `Err` with the
    /// reason on failure.
    type V = Result<(Seq<char>, u32, Seq<char>), Seq<char>>;

    open spec fn view(&self) -> Self::V {
        match self {
            LoginResponse::Failure { reason } => Err(reason@),
            LoginResponse::Success { greeting_message, user_ip, password_md5_digest } => Ok(
                (greeting_message@, *user_ip, password_md5_digest@),
            ),
        }
    }
}

impl ParseBytes for LoginResponse {
    /// A code byte: 0 then the reason, or 1 then greeting, address and
    /// digest. Any other code is invalid.
    open spec fn spec_parse(s: Seq<u8>, p: int) -> Read<Self::V> {
        match sp_u8(s, p) {
            Err(e) => Err(e),
            Ok((code, p)) => if code == 0 {
                match sp_str(s, p) {
                    Err(e) => Err(e),
                    Ok((reason, p)) => Ok((Err(reason), p)),
                }
            } else if code == 1 {
                match sp_str(s, p) {
                    Err(e) => Err(e),
                    Ok((greeting, p)) => match sp_u32(s, p) {
                        Err(e) => Err(e),
                        Ok((ip, p)) => match sp_str(s, p) {
                            Err(e) => Err(e),
                            Ok((digest, p)) => Ok((Ok((greeting, ip, digest)), p)),
                        },
                    },
                }
            } else {
                Err(SlskError::InvalidData)
            },
        }
    }

    fn parse(src: &mut Reader) -> (res: Result<Self, SlskError>) {
        let code = src.read_u8()?;
        if code == 0 {
            let reason = src.read_string()?;
            Ok(LoginResponse::Failure { reason })
        } else if code == 1 {
            let greeting_message = src.read_string()?;
            let user_ip = src.read_u32()?;
            let password_md5_digest = src.read_string()?;
            Ok(LoginResponse::Success { greeting_message, user_ip, password_md5_digest })
        } else {
            Err(SlskError::InvalidData)
        }
    }
}

/// A successful login answer on the wire: the byte 1, the greeting, the
/// address as a `u32` and the digest, in that order.
pub proof fn lemma_login_success_layout(s: Seq<u8>, p: int, greeting: Seq<char>, ip: u32, digest: Seq<char>)
    requires
        str_bytes(greeting) <= u32::MAX,
        str_bytes(digest) <= u32::MAX,
        holds_at(s, p, seq![1u8] + ser_str(greeting) + le32(ip) + ser_str(digest)),
    ensures
        LoginResponse::spec_parse(s, p) == Ok::<(Result<(Seq<char>, u32, Seq<char>), Seq<char>>, int), SlskError>(
            (Ok((greeting, ip, digest)), p + (seq![1u8] + ser_str(greeting) + le32(ip) + ser_str(digest)).len()),
        ),
{
    broadcast use crate::frame::group_wire_lemmas;

    let w = seq![1u8] + ser_str(greeting) + le32(ip) + ser_str(digest);
    lemma_holds_part(s, p, w, 0int, seq![1u8]);
    lemma_u8_at(s, p + 0int, 1u8);
    lemma_holds_part(s, p, w, 0int + seq![1u8].len(), ser_str(greeting));
    lemma_str_at(s, p + 0int + seq![1u8].len(), greeting);
    lemma_holds_part(s, p, w, 0int + seq![1u8].len() + ser_str(greeting).len(), le32(ip));
    lemma_u32_at(s, p + 0int + seq![1u8].len() + ser_str(greeting).len(), ip);
    lemma_holds_part(s, p, w, 0int + seq![1u8].len() + ser_str(greeting).len() + le32(ip).len(), ser_str(digest));
    lemma_str_at(s, p + 0int + seq![1u8].len() + ser_str(greeting).len() + le32(ip).len(), digest);
}

/// A refused login on the wire: the byte 0 and the reason.
pub proof fn lemma_login_failure_layout(s: Seq<u8>, p: int, reason: Seq<char>)
    requires
        str_bytes(reason) <= u32::MAX,
        holds_at(s, p, seq![0u8] + ser_str(reason)),
    ensures
        LoginResponse::spec_parse(s, p) == Ok::<(Result<(Seq<char>, u32, Seq<char>), Seq<char>>, int), SlskError>(
            (Err(reason), p + (seq![0u8] + ser_str(reason)).len()),
        ),
{
    broadcast use crate::frame::group_wire_lemmas;

    let w = seq![0u8] + ser_str(reason);
    lemma_holds_part(s, p, w, 0int, seq![0u8]);
    lemma_u8_at(s, p + 0int, 0u8);
    lemma_holds_part(s, p, w, 0int + seq![0u8].len(), ser_str(reason));
    lemma_str_at(s, p + 0int + seq![0u8].len(), reason);
}

} // verus!
