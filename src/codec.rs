//! Byte encodings used in payloads and object keys: base64 (through the
//! `base64` crate), SHA-256 digests (through `sha2`) and lower-case hex.

use vstd::prelude::*;
use base64::Engine;
use sha2::Digest;

verus! {

/// The standard, padded base64 text of some bytes.
pub uninterp spec fn base64_of(b: Seq<u8>) -> Seq<char>;

/// The bytes that standard base64 text decodes to, or `None` when the text
/// is not valid standard base64.
pub uninterp spec fn base64_decoded(s: Seq<char>) -> Option<Seq<u8>>;

/// The SHA-256 digest of some bytes.
pub uninterp spec fn sha256_of(b: Seq<u8>) -> Seq<u8>;

/// Relies on `base64::engine::general_purpose::STANDARD.encode`: padded
/// standard base64, which depends on the bytes alone; it panics only when the
/// output length overflows `usize`.
#[verifier::external_body]
pub(crate) fn base64_encode(b: &[u8]) -> (r: String)
    requires
        b@.len() <= usize::MAX / 2,
    ensures
        r@ == base64_of(b@),
        b@.len() == 0 ==> r@.len() == 0,
{
    base64::engine::general_purpose::STANDARD.encode(b)
}

/// Relies on `base64::engine::general_purpose::STANDARD.decode`: the decoded
/// bytes, or an error for text that is not standard base64.
#[verifier::external_body]
pub(crate) fn base64_decode(s: &str) -> (r: Option<Vec<u8>>)
    ensures
        r.is_some() == base64_decoded(s@).is_some(),
        r.is_some() ==> r.unwrap()@ == base64_decoded(s@).unwrap(),
{
    base64::engine::general_purpose::STANDARD.decode(s).ok()
}

/// Relies on `sha2::Sha256::digest`: the 32-byte SHA-256 digest.
#[verifier::external_body]
pub(crate) fn sha256(b: &[u8]) -> (r: Vec<u8>)
    ensures
        r@ == sha256_of(b@),
        r@.len() == 32,
{
    sha2::Sha256::digest(b).to_vec()
}

/// The sixteen lower-case hexadecimal digits.
pub open spec fn hex_digits() -> Seq<char> {
    seq!['0', '1', '2', '3', '4', '5', '6', '7', '8', '9', 'a', 'b', 'c', 'd', 'e', 'f']
}

/// Two lower-case hex digits per byte, high nibble first.
pub open spec fn hex_of(b: Seq<u8>) -> Seq<char>
    decreases b.len(),
{
    if b.len() == 0 {
        Seq::empty()
    } else {
        let last = b[b.len() - 1];
        hex_of(b.drop_last()) + seq![hex_digits()[(last / 16) as int], hex_digits()[(last % 16) as int]]
    }
}

/// Lower-case hex text of some bytes.
pub fn hex_lower(b: &[u8]) -> (r: String)
    ensures
        r@ == hex_of(b@),
{
    let table = "0123456789abcdef";
    proof {
        reveal_strlit("0123456789abcdef");
    }
    assert(table@ =~= hex_digits());
    let mut out = String::new();
    let mut i: usize = 0;
    while i < b.len()
        invariant
            i <= b.len(),
            table@ == hex_digits(),
            out@ == hex_of(b@.subrange(0, i as int)),
        decreases b.len() - i,
    {
        let x = b[i];
        let hi = (x / 16) as usize;
        let lo = (x % 16) as usize;
        let before = Ghost(out@);
        out.append(table.substring_char(hi, hi + 1));
        out.append(table.substring_char(lo, lo + 1));
        proof {
            let pre = b@.subrange(0, i + 1);
            assert(pre.drop_last() =~= b@.subrange(0, i as int));
            assert(out@ =~= before@ + seq![hex_digits()[hi as int], hex_digits()[lo as int]]);
        }
        i = i + 1;
    }
    assert(b@.subrange(0, b@.len() as int) =~= b@);
    out
}

/// Lower-case hex text of the SHA-256 digest of some bytes.
pub fn sha256_hex(b: &[u8]) -> (r: String)
    ensures
        r@ == hex_of(sha256_of(b@)),
        r@.len() == 64,
{
    let d = sha256(b);
    let h = hex_lower(d.as_slice());
    proof {
        lemma_hex_len(d@);
    }
    h
}

/// Hex text has two characters per byte.
pub proof fn lemma_hex_len(b: Seq<u8>)
    ensures
        hex_of(b).len() == 2 * b.len(),
    decreases b.len(),
{
    if b.len() > 0 {
        lemma_hex_len(b.drop_last());
    }
}

} // verus!
