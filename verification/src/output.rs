//! Cleaning of raw PTY output: terminal escape sequences are removed and
//! the remaining bytes are decoded to text before they are stored.

use vstd::prelude::*;

verus! {

/// The bytes that remain after stripping ANSI escape sequences; the result
/// depends on the input bytes alone.
pub uninterp spec fn ansi_stripped(data: Seq<u8>) -> Seq<u8>;

/// The text obtained by lossy UTF-8 decoding, with invalid sequences
/// replaced; the result depends on the input bytes alone.
pub uninterp spec fn utf8_lossy(data: Seq<u8>) -> Seq<char>;

/// The text a raw chunk of PTY output is stored as.
pub open spec fn chunk_text(data: Seq<u8>) -> Seq<char> {
    utf8_lossy(ansi_stripped(data))
}

/// Relies on `strip_ansi_escapes::strip`: it removes ANSI escape sequences
/// and returns the remaining bytes, a function of the input alone, and
/// writes nothing for empty input.
#[verifier::external_body]
fn strip_ansi(data: &[u8]) -> (stripped: Vec<u8>)
    ensures
        stripped@ == ansi_stripped(data@),
        data@.len() == 0 ==> stripped@.len() == 0,
{
    strip_ansi_escapes::strip(data)
}

/// Relies on `String::from_utf8_lossy`: it decodes the bytes, replacing
/// invalid UTF-8 sequences, a function of the input alone, and returns the
/// empty string for empty input.
#[verifier::external_body]
fn decode_utf8_lossy(data: &[u8]) -> (text: String)
    ensures
        text@ == utf8_lossy(data@),
        data@.len() == 0 ==> text@.len() == 0,
{
    String::from_utf8_lossy(data).into_owned()
}

/// Strip ANSI escape codes from a raw chunk of PTY output and decode what
/// remains to text.
pub fn clean_chunk(data: &[u8]) -> (text: String)
    ensures
        text@ == chunk_text(data@),
        data@.len() == 0 ==> text@.len() == 0,
{
    let stripped = strip_ansi(data);
    decode_utf8_lossy(stripped.as_slice())
}

} // verus!
