//! Command output as it moves through the library: either the raw bytes a
//! command produced or the text that was last displayed. Raw bytes that are
//! not valid UTF-8 cannot be displayed; converting them yields empty text
//! (a deliberate, lossy degradation) and the loop goes on.

use std::io::Write;
use vstd::prelude::*;
use vstd::string::StringSliceAdditionalSpecFns;
use vstd::utf8::{
    decode_utf8, encode_utf8, encode_utf8_decode_utf8, encode_utf8_valid_utf8, is_ascii_chars,
    is_ascii_chars_encode_utf8, valid_utf8,
};

verus! {

/// The text a byte sequence displays as: its UTF-8 decoding where the bytes
/// are valid UTF-8, and empty text where they are not.
pub open spec fn text_of(bytes: Seq<u8>) -> Seq<char> {
    if valid_utf8(bytes) {
        decode_utf8(bytes)
    } else {
        Seq::<char>::empty()
    }
}

/// A sequence of ASCII bytes is valid UTF-8 and displays as exactly those
/// bytes, one character per byte.
pub proof fn lemma_ascii_bytes_text(bytes: Seq<u8>)
    requires
        forall|i: int| 0 <= i < bytes.len() ==> bytes[i] < 0x80,
    ensures
        valid_utf8(bytes),
        text_of(bytes) == Seq::new(bytes.len(), |i: int| bytes[i] as char),
{
    let chars = Seq::new(bytes.len(), |i: int| bytes[i] as char);
    assert(is_ascii_chars(chars));
    is_ascii_chars_encode_utf8(chars);
    assert(encode_utf8(chars) =~= bytes);
    encode_utf8_valid_utf8(chars);
    encode_utf8_decode_utf8(chars);
}

/// One run's output: the raw bytes captured from the command, or the text
/// form that was last displayed.
pub enum ByteOrString {
    Bytes(Vec<u8>),
    String(String),
}

impl View for ByteOrString {
    type V = Seq<u8>;

    /// The byte sequence a value stands for: raw bytes as they are, text as
    /// its UTF-8 encoding.
    open spec fn view(&self) -> Seq<u8> {
        match self {
            ByteOrString::Bytes(bytes) => bytes@,
            ByteOrString::String(string) => encode_utf8(string@),
        }
    }
}

/// Relies on `std::str::from_utf8`: it succeeds exactly on the byte
/// sequences that are valid UTF-8, and returns the text those bytes encode.
/// On failure this prints a diagnostic, the one trace the tool leaves of
/// content it drops.
#[verifier::external_body]
fn bytes_to_string(bytes: &[u8]) -> (r: Option<String>)
    ensures
        r is Some <==> valid_utf8(bytes@),
        r matches Some(s) ==> s@ == decode_utf8(bytes@),
{
    match std::str::from_utf8(bytes) {
        Ok(string) => Some(string.to_string()),
        Err(e) => {
            let _ = writeln!(std::io::stdout(), "Failed to convert bytes to string: {}", e);
            None
        },
    }
}

impl ByteOrString {
    /// The byte sequence this value stands for.
    pub fn as_bytes(&self) -> (r: &[u8])
        ensures
            r@ == self@,
    {
        match self {
            ByteOrString::Bytes(bytes) => bytes.as_slice(),
            ByteOrString::String(string) => string.as_str().as_bytes(),
        }
    }

    /// The text this value displays as: raw bytes are decoded, and where
    /// they are not valid UTF-8 the content degrades to empty text.
    pub fn as_string(&self) -> (r: String)
        ensures
            r@ == text_of(self@),
    {
        match self {
            ByteOrString::Bytes(bytes) => match bytes_to_string(bytes.as_slice()) {
                Some(string) => string,
                None => String::new(),
            },
            ByteOrString::String(string) => {
                proof {
                    encode_utf8_valid_utf8(string@);
                    encode_utf8_decode_utf8(string@);
                }
                string.clone()
            },
        }
    }
}

} // verus!
