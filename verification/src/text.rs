//! Bytes read as text.

use vstd::prelude::*;
use vstd::utf8::*;

verus! {

/// The error of `core::str::from_utf8`, which is handed on and never looked into.
#[verifier::external_type_specification]
#[verifier::external_body]
pub struct ExUtf8Error(core::str::Utf8Error);

/// The error of `core::str::from_utf8` for a byte string that is not valid UTF-8.
pub uninterp spec fn utf8_refusal(bytes: Seq<u8>) -> core::str::Utf8Error;

/// `core::str::from_utf8` accepts exactly the valid UTF-8 byte strings, and hands
/// the same bytes back as a string slice. Its error, which says how far the bytes are
/// valid, depends on the bytes alone.
pub assume_specification[ core::str::from_utf8 ](v: &[u8]) -> (r: Result<&str, core::str::Utf8Error>)
    ensures
        r is Ok <==> valid_utf8(v@),
        r matches Ok(s) ==> encode_utf8(s@) == v@,
        r matches Err(e) ==> e == utf8_refusal(v@),
;

/// The text that `String::from_utf8_lossy` makes of a byte string.
pub uninterp spec fn lossy_text(bytes: Seq<u8>) -> Seq<char>;

/// Calls `String::from_utf8_lossy` and takes ownership of its result. The result
/// depends on the bytes alone, and valid UTF-8 is decoded as it stands. Any invalid
/// sequence, which is one byte at least, is replaced by one U+FFFD, which takes three
/// bytes: so the text is at most three times as long as the input. How the replacement
/// characters are placed is not stated.
#[verifier::external_body]
fn from_utf8_lossy(bytes: &[u8]) -> (text: String)
    ensures
        text@ == lossy_text(bytes@),
        valid_utf8(bytes@) ==> text@ == decode_utf8(bytes@),
        encode_utf8(text@).len() <= 3 * bytes@.len(),
{
    String::from_utf8_lossy(bytes).into_owned()
}

/// The text of a byte string that is valid UTF-8, and for any other the decoder's
/// error.
pub fn strict_text(bytes: &[u8]) -> (text: Result<String, core::str::Utf8Error>)
    ensures
        match text {
            Ok(t) => valid_utf8(bytes@) && t@ == decode_utf8(bytes@),
            Err(e) => !valid_utf8(bytes@) && e == utf8_refusal(bytes@),
        },
{
    match core::str::from_utf8(bytes) {
        Ok(s) => {
            proof {
                encode_utf8_decode_utf8(s@);
            }
            Ok(s.to_string())
        },
        Err(e) => Err(e),
    }
}

/// The text that a byte string is read as where any byte string must be read: valid
/// UTF-8 as it stands, and other input with replacement characters.
pub open spec fn readable_text(bytes: Seq<u8>) -> Seq<char> {
    if valid_utf8(bytes) {
        decode_utf8(bytes)
    } else {
        lossy_text(bytes)
    }
}

/// The text of a byte string, with replacement characters where it is not valid
/// UTF-8. It is at most three times as long as the byte string.
pub fn text_or_replacement(bytes: &[u8]) -> (text: String)
    ensures
        text@ == readable_text(bytes@),
        encode_utf8(text@).len() <= 3 * bytes@.len(),
{
    from_utf8_lossy(bytes)
}

/// The UTF-8 bytes of two texts in a row are the bytes of the first and then those
/// of the second.
pub proof fn lemma_encode_concat(a: Seq<char>, b: Seq<char>)
    ensures
        encode_utf8(a + b) == encode_utf8(a) + encode_utf8(b),
    decreases a.len(),
{
    if a.len() == 0 {
        assert(a + b =~= b);
        assert(encode_utf8(a) + encode_utf8(b) =~= encode_utf8(b));
    } else {
        lemma_encode_concat(a.drop_first(), b);
        assert((a + b).drop_first() =~= a.drop_first() + b);
        assert(encode_utf8(a + b) =~= encode_utf8(a) + encode_utf8(b));
    }
}

/// Valid UTF-8 is read as it stands, and only other input as `String::from_utf8_lossy`
/// reads it: so the bytes of a text are read as that text.
pub proof fn lemma_text_is_read_as_it_stands(text: Seq<char>, bytes: Seq<u8>)
    ensures
        readable_text(encode_utf8(text)) == text,
        valid_utf8(bytes) ==> encode_utf8(readable_text(bytes)) == bytes,
        !valid_utf8(bytes) ==> readable_text(bytes) == lossy_text(bytes),
{
    encode_utf8_valid_utf8(text);
    encode_utf8_decode_utf8(text);
    if valid_utf8(bytes) {
        decode_utf8_encode_utf8(bytes);
    }
}

} // verus!
