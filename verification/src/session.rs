use vstd::prelude::*;
use vstd::string::StringSliceAdditionalSpecFns;
use vstd::utf8::{encode_utf8, is_ascii_chars, is_ascii_chars_encode_utf8};

verus! {

/// `hex::FromHexError`, the error of `hex::decode`.
#[verifier::external_type_specification]
#[verifier::external_body]
pub struct ExFromHexError(hex::FromHexError);

/// The value of a hex digit (`0`-`9`, `a`-`f`, `A`-`F`), as `hex` reads it.
pub open spec fn hex_digit_value(b: u8) -> Option<u8> {
    if 48 <= b <= 57 {
        Some((b - 48) as u8)
    } else if 65 <= b <= 70 {
        Some((b - 55) as u8)
    } else if 97 <= b <= 102 {
        Some((b - 87) as u8)
    } else {
        None
    }
}

/// Bytes that `hex::decode` accepts: an even number of hex digits.
pub open spec fn is_hex_text(b: Seq<u8>) -> bool {
    &&& b.len() % 2 == 0
    &&& forall|i: int| 0 <= i < b.len() ==> (#[trigger] hex_digit_value(b[i])) is Some
}

/// The bytes that a hex text stands for: each pair of digits, high digit
/// first, gives one byte.
pub open spec fn spec_hex_decode(b: Seq<u8>) -> Seq<u8> {
    Seq::new(
        b.len() / 2,
        |i: int|
            (hex_digit_value(b[2 * i])->0 * 16 + hex_digit_value(b[2 * i + 1])->0) as u8,
    )
}

/// The lowercase hex digit for `d` (0 to 15).
pub open spec fn hex_digit_lower(d: int) -> char {
    if d < 10 {
        (d + 48) as char
    } else {
        (d + 87) as char
    }
}

/// The lowercase hex text of `b`: two digits per byte, high digit first.
pub open spec fn spec_hex_encode(b: Seq<u8>) -> Seq<char> {
    Seq::new(
        2 * b.len(),
        |i: int|
            hex_digit_lower(if i % 2 == 0 { b[i / 2] / 16 } else { b[i / 2] % 16 } as int),
    )
}

/// `hex::decode`: succeeds exactly on an even number of hex digits (either
/// case), and then gives one byte per pair of digits. Which error it gives
/// otherwise (odd length, or the first invalid character) is not stated.
#[verifier::external_body]
fn hex_decode(data: &[u8]) -> (res: Result<Vec<u8>, hex::FromHexError>)
    ensures
        res is Ok <==> is_hex_text(data@),
        res matches Ok(v) ==> v@ == spec_hex_decode(data@),
{
    hex::decode(data)
}

/// `hex::encode`: two lowercase hex digits per byte, high digit first.
#[verifier::external_body]
fn hex_encode(data: &[u8]) -> (res: String)
    ensures
        res@ == spec_hex_encode(data@),
{
    hex::encode(data)
}

/// The 32-byte digest that `sha3_rust::sha3_256` computes for `input` (the
/// crate's Keccak sponge with SHA-3 padding).
pub uninterp spec fn spec_sha3_256(input: Seq<u8>) -> Seq<u8>;

/// `sha3_rust::sha3_256`: the crate's 32-byte digest of `input`, a function
/// of the input bytes alone. The crate counts the input's bits in a `usize`,
/// so the bit count must fit.
#[verifier::external_body]
fn sha3_256(input: &[u8]) -> (res: [u8; 32])
    requires
        input@.len() * 8 <= usize::MAX,
    ensures
        res@ == spec_sha3_256(input@),
{
    sha3_rust::sha3_256(input)
}

/// The text sent to the server in place of a password: the lowercase hex of
/// the `sha3_rust::sha3_256` digest of the password's UTF-8 bytes
/// (64 characters).
pub fn hash_password_hex(cleartext_pwd: &str) -> (res: String)
    requires
        cleartext_pwd.spec_bytes().len() * 8 <= usize::MAX,
    ensures
        res@ == spec_hex_encode(spec_sha3_256(cleartext_pwd.spec_bytes())),
        res@.len() == 64,
{
    let digest = sha3_256(cleartext_pwd.as_bytes());
    digest_hex(&digest)
}

/// The lowercase hex text of a 32-byte digest (64 characters).
pub fn digest_hex(digest: &[u8; 32]) -> (res: String)
    ensures
        res@ == spec_hex_encode(digest@),
        res@.len() == 64,
{
    hex_encode(digest)
}

/// Attempts to decode a hex-encoded session hash: `Some` exactly when the
/// text is 64 hex digits, and then the 32 bytes they stand for.
pub fn decode_session_hash(hex_str: &str) -> (res: Option<[u8; 32]>)
    ensures
        res is Some <==> is_hex_text(hex_str.spec_bytes()) && hex_str.spec_bytes().len() == 64,
        res matches Some(h) ==> h@ == spec_hex_decode(hex_str.spec_bytes()),
{
    match hex_decode(hex_str.as_bytes()) {
        Ok(bytes) => {
            if bytes.len() == 32 {
                let mut out: [u8; 32] = [0u8; 32];
                let mut i: usize = 0;
                while i < 32
                    invariant
                        0 <= i <= 32,
                        bytes@.len() == 32,
                        forall|j: int| 0 <= j < i ==> out@[j] == bytes@[j],
                    decreases 32 - i,
                {
                    out[i] = bytes[i];
                    i = i + 1;
                }
                assert(out@ =~= bytes@);
                Some(out)
            } else {
                None
            }
        },
        Err(_) => None,
    }
}

/// Decoding the hex text of any bytes gives those bytes back: the lowercase
/// hex of `h`, read as UTF-8 bytes, is accepted by the decoder and stands for
/// `h`. (So `decode_session_hash` gives back every 32-byte hash from its
/// hex text, such as the text `hash_password_hex` produces.)
pub proof fn lemma_hex_roundtrip(h: Seq<u8>)
    ensures
        is_ascii_chars(spec_hex_encode(h)),
        encode_utf8(spec_hex_encode(h)).len() == 2 * h.len(),
        is_hex_text(encode_utf8(spec_hex_encode(h))),
        spec_hex_decode(encode_utf8(spec_hex_encode(h))) == h,
{
    let t = spec_hex_encode(h);
    assert forall|i: int| 0 <= i < t.len() implies '\0' <= #[trigger] t[i] <= '\u{7f}' by {
        let d: int = if i % 2 == 0 { h[i / 2] / 16 } else { h[i / 2] % 16 } as int;
        assert(0 <= d < 16);
    }
    is_ascii_chars_encode_utf8(t);
    let b = encode_utf8(t);
    assert forall|i: int| 0 <= i < b.len() implies hex_digit_value(b[i]) == Some(
        (if i % 2 == 0 { h[i / 2] / 16 } else { h[i / 2] % 16 }) as u8,
    ) by {
        assert(t[i] as u8 == b[i]);
    }
    assert forall|i: int| 0 <= i < b.len() implies (#[trigger] hex_digit_value(b[i])) is Some by {
        assert(t[i] as u8 == b[i]);
    }
    assert forall|k: int| 0 <= k < h.len() implies #[trigger] spec_hex_decode(b)[k] == h[k] by {
        assert(t[2 * k] as u8 == b[2 * k]);
        assert(t[2 * k + 1] as u8 == b[2 * k + 1]);
        assert((2 * k) / 2 == k && (2 * k) % 2 == 0);
        assert((2 * k + 1) / 2 == k && (2 * k + 1) % 2 == 1);
    }
    assert(spec_hex_decode(b) =~= h);
}

/// The ASCII upper-case form of a byte (letters `a`-`z` only).
pub open spec fn ascii_upper(b: u8) -> u8 {
    if 97 <= b <= 122 {
        (b - 32) as u8
    } else {
        b
    }
}

/// Hex digits read the same in either case: upper-casing an accepted hex
/// text gives an accepted text that stands for the same bytes, and each
/// digit's value is below 16, so each pair gives `16 * high + low`.
pub proof fn lemma_hex_case_insensitive(b: Seq<u8>)
    requires
        is_hex_text(b),
    ensures
        is_hex_text(b.map_values(|x: u8| ascii_upper(x))),
        spec_hex_decode(b.map_values(|x: u8| ascii_upper(x))) == spec_hex_decode(b),
        spec_hex_decode(b).len() * 2 == b.len(),
        forall|i: int| 0 <= i < b.len() ==> (#[trigger] hex_digit_value(b[i]))->0 < 16,
{
    let u = b.map_values(|x: u8| ascii_upper(x));
    assert forall|i: int| 0 <= i < u.len() implies #[trigger] hex_digit_value(u[i]) == hex_digit_value(b[i]) by {
        assert(hex_digit_value(b[i]) is Some);
    }
    assert forall|i: int| 0 <= i < u.len() implies (#[trigger] hex_digit_value(u[i])) is Some by {
        assert(hex_digit_value(u[i]) == hex_digit_value(b[i]));
        assert(hex_digit_value(b[i]) is Some);
    }
    assert forall|k: int| 0 <= k < b.len() / 2 implies #[trigger] spec_hex_decode(u)[k] == spec_hex_decode(b)[k] by {
        assert(hex_digit_value(u[2 * k]) == hex_digit_value(b[2 * k]));
        assert(hex_digit_value(u[2 * k + 1]) == hex_digit_value(b[2 * k + 1]));
    }
    assert(spec_hex_decode(u) =~= spec_hex_decode(b));
    assert forall|i: int| 0 <= i < b.len() implies (#[trigger] hex_digit_value(b[i]))->0 < 16 by {
        assert(hex_digit_value(b[i]) is Some);
    }
}

/// What the site keeps about a live connection (fields of fixed size).
#[derive(Clone, Copy, PartialEq)]
pub struct ConnectionInfo {
    pub connection_id: i32,
    pub user_id: i32,
    pub session_hash: [u8; 32],
}

impl ConnectionInfo {
    /// Copies the field `session_hash`, to pass it from the frontend to the
    /// middleware.
    pub fn copy_session_hash(&self) -> (res: [u8; 32])
        ensures
            res == self.session_hash,
    {
        self.session_hash
    }
}

} // verus!
