//! Text extraction: from the bytes that the host holds for a string value to
//! a text, or to the signal that there is none.

use vstd::prelude::*;
use vstd::utf8::*;

verus! {

/// The text that a raw representation stands for: its decoding where the host
/// produced bytes and they are well-formed UTF-8, nothing otherwise.
pub open spec fn text_of(raw: Option<Seq<u8>>) -> Option<Seq<char>> {
    match raw {
        Some(bytes) => if valid_utf8(bytes) {
            Some(decode_utf8(bytes))
        } else {
            None
        },
        None => None,
    }
}

/// What the host handed over, as a mathematical value.
pub open spec fn raw_view(raw: Option<Vec<u8>>) -> Option<Seq<u8>> {
    match raw {
        Some(bytes) => Some(bytes@),
        None => None,
    }
}

/// `String::from_utf8` of the standard library, with its error dropped.
///
/// Believed, not proved: the call succeeds exactly on well-formed UTF-8, and
/// the string it returns is made of the very bytes it was given.
#[verifier::external_body]
fn string_from_utf8(bytes: Vec<u8>) -> (text: Option<String>)
    ensures
        text.is_some() <==> valid_utf8(bytes@),
        text matches Some(s) ==> encode_utf8(s@) == bytes@,
{
    match String::from_utf8(bytes) {
        Ok(s) => Some(s),
        Err(_) => None,
    }
}

/// Turns what the host handed over for a string value into a text.
///
/// `raw` is `None` where the host could not produce a representation at all.
/// The result is `None` in that case and where the bytes are not well-formed
/// UTF-8; otherwise it is the text those bytes encode, and encoding it again
/// gives the same bytes back.
pub fn extract(raw: Option<Vec<u8>>) -> (text: Option<String>)
    ensures
        text.is_some() == text_of(raw_view(raw)).is_some(),
        text matches Some(s) ==> Some(s@) == text_of(raw_view(raw)),
        text matches Some(s) ==> Some(encode_utf8(s@)) == raw_view(raw),
{
    match raw {
        Some(bytes) => {
            let text = string_from_utf8(bytes);
            proof {
                if text.is_some() {
                    encode_utf8_decode_utf8(text.unwrap()@);
                }
            }
            text
        },
        None => None,
    }
}

} // verus!
