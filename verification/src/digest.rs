//! The change detector: a SHA-256 content digest over the new output and
//! over the previously displayed one, compared for equality. It is a fast
//! path that spares the diff highlighter when the output is stable; equal
//! content always compares as unchanged, and unequal content compares as
//! changed up to the collision resistance of the digest.

use crate::text::{lemma_ascii_bytes_text, text_of, ByteOrString};
use sha2::{Digest, Sha256};
use vstd::prelude::*;
use vstd::utf8::{decode_utf8_encode_utf8, encode_utf8};

verus! {

/// The SHA-256 digest of a byte sequence. What the 32 digest bytes are is
/// the hash function's business; the library relies only on the digest
/// being a function of the input bytes.
pub uninterp spec fn sha256_of(bytes: Seq<u8>) -> Seq<u8>;

/// Relies on sha2's `Sha256` (`new`, `update`, `finalize`): the SHA-256
/// digest depends on the input bytes alone and is 32 bytes long.
#[verifier::external_body]
fn sha256_digest(bytes: &[u8]) -> (r: Vec<u8>)
    ensures
        r@ == sha256_of(bytes@),
        r@.len() == 32,
{
    let mut hasher = Sha256::new();
    hasher.update(bytes);
    hasher.finalize().to_vec()
}

/// Digesting the same byte sequence twice always yields equal digests.
/// (That two different sequences yield unequal digests holds only with
/// overwhelming probability, which is not a statement this library makes.)
pub proof fn lemma_digest_deterministic(a: Seq<u8>, b: Seq<u8>)
    requires
        a == b,
    ensures
        sha256_of(a) == sha256_of(b),
{
}

fn bytes_equal(a: &Vec<u8>, b: &Vec<u8>) -> (r: bool)
    ensures
        r == (a@ == b@),
{
    if a.len() != b.len() {
        return false;
    }
    let mut i: usize = 0;
    while i < a.len()
        invariant
            i <= a.len(),
            a@.len() == b@.len(),
            forall|j: int| 0 <= j < i ==> a@[j] == b@[j],
        decreases a.len() - i,
    {
        if a[i] != b[i] {
            return false;
        }
        i = i + 1;
    }
    proof {
        assert(a@ =~= b@);
    }
    true
}

/// True when the content digests of the new output and of the previously
/// displayed one differ. Equal content is always reported unchanged, so the
/// display is never recomputed for stable output.
pub fn outputs_changed(current: &ByteOrString, previous: &ByteOrString) -> (changed: bool)
    ensures
        changed == (sha256_of(current@) != sha256_of(previous@)),
        current@ == previous@ ==> !changed,
{
    let a = sha256_digest(current.as_bytes());
    let b = sha256_digest(previous.as_bytes());
    !bytes_equal(&a, &b)
}

/// One hex digit, as its lowercase ASCII byte.
pub open spec fn hex_digit(n: u8) -> u8
    recommends
        n < 16,
{
    if n < 10 {
        (0x30 + n) as u8
    } else {
        (0x57 + n) as u8
    }
}

/// The lowercase hex encoding of a byte sequence: two ASCII digits per
/// byte, high nibble first.
pub open spec fn hex_ascii(bytes: Seq<u8>) -> Seq<u8>
    decreases bytes.len(),
{
    if bytes.len() == 0 {
        Seq::<u8>::empty()
    } else {
        hex_ascii(bytes.drop_last()) + seq![
            hex_digit(bytes.last() / 16),
            hex_digit(bytes.last() % 16),
        ]
    }
}

fn hex_digit_byte(n: u8) -> (r: u8)
    requires
        n < 16,
    ensures
        r == hex_digit(n),
        r < 0x80,
{
    if n < 10 {
        0x30 + n
    } else {
        0x57 + n
    }
}

fn to_hex(bytes: &Vec<u8>) -> (r: Vec<u8>)
    ensures
        r@ == hex_ascii(bytes@),
        forall|i: int| 0 <= i < r@.len() ==> r@[i] < 0x80,
{
    let mut r: Vec<u8> = Vec::new();
    let mut i: usize = 0;
    while i < bytes.len()
        invariant
            i <= bytes.len(),
            r@ == hex_ascii(bytes@.subrange(0, i as int)),
            forall|j: int| 0 <= j < r@.len() ==> r@[j] < 0x80,
        decreases bytes.len() - i,
    {
        let b = bytes[i];
        r.push(hex_digit_byte(b / 16));
        r.push(hex_digit_byte(b % 16));
        proof {
            let pre = bytes@.subrange(0, i as int);
            let cur = bytes@.subrange(0, i + 1);
            assert(cur.drop_last() =~= pre);
            assert(cur.last() == bytes@[i as int]);
            assert(r@ =~= hex_ascii(cur));
        }
        i = i + 1;
    }
    proof {
        assert(bytes@.subrange(0, bytes@.len() as int) =~= bytes@);
    }
    r
}

/// The content digest in the form the tool displays: the lowercase hex text
/// of the SHA-256 digest of the content bytes.
pub fn get_sha256(input: &ByteOrString) -> (r: String)
    ensures
        r@ == text_of(hex_ascii(sha256_of(input@))),
        encode_utf8(r@) == hex_ascii(sha256_of(input@)),
{
    let digest = sha256_digest(input.as_bytes());
    let hex = to_hex(&digest);
    proof {
        lemma_ascii_bytes_text(hex@);
        decode_utf8_encode_utf8(hex@);
    }
    let hex_text = ByteOrString::Bytes(hex);
    hex_text.as_string()
}

} // verus!
