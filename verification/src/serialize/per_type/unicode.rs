//! The two string encoders: one for the host's string type itself, one for
//! the types derived from it.

use crate::handle::ValueHandle;
use crate::serialize::error::SerializeError;
use crate::serialize::host::Request;
use crate::serialize::token::{outcome_of, Outcome, Token, TokenView};
use crate::text::{extract, raw_view, text_of};
use vstd::prelude::*;
use vstd::utf8::*;

verus! {

/// How encoding a string ends, given what the host handed over for it: a
/// string token with exactly the text that the bytes encode, or `InvalidStr`
/// where there are no bytes or they are not well-formed UTF-8.
pub open spec fn str_outcome(raw: Option<Seq<u8>>) -> Outcome {
    match text_of(raw) {
        Some(text) => Ok(TokenView::Str(text)),
        None => Err(SerializeError::InvalidStr),
    }
}

/// Encodes a value whose type is exactly the host's string type.
pub struct StrSerializer {
    pub ptr: ValueHandle,
}

impl StrSerializer {
    pub fn new(ptr: ValueHandle) -> (encoder: Self)
        ensures
            encoder.ptr == ptr,
    {
        StrSerializer { ptr: ptr }
    }

    /// What this encoder needs from the host: the stored text, read directly.
    pub fn request(&self) -> (request: Request)
        ensures
            request == Request::ReadText(self.ptr),
    {
        Request::ReadText(self.ptr)
    }

    /// Encodes the value from the bytes the host read for it.
    ///
    /// Succeeds exactly where there are bytes and they are well-formed UTF-8.
    /// The token then holds the text they encode, so that encoding the
    /// token's text gives the same bytes again. Otherwise the result is
    /// `InvalidStr`, and no token exists.
    pub fn serialize(&self, raw: Option<Vec<u8>>) -> (result: Result<Token, SerializeError>)
        ensures
            outcome_of(result) == str_outcome(raw_view(raw)),
            result matches Ok(token) ==> token@ matches TokenView::Str(text) && Some(
                encode_utf8(text),
            ) == raw_view(raw),
    {
        let uni = {
            let tmp = extract(raw);
            if tmp.is_none() {
                return Err(SerializeError::InvalidStr);
            }
            tmp.unwrap()
        };
        Ok(Token::Str(uni))
    }
}

/// Encodes a value whose type is derived from the host's string type.
///
/// Such a type may produce its text in its own way, so the stored text of the
/// base type is not read; the host converts the value instead.
pub struct StrSubclassSerializer {
    pub ptr: ValueHandle,
}

impl StrSubclassSerializer {
    pub fn new(ptr: ValueHandle) -> (encoder: Self)
        ensures
            encoder.ptr == ptr,
    {
        StrSubclassSerializer { ptr: ptr }
    }

    /// What this encoder needs from the host: the text, by way of the host's
    /// general conversion.
    pub fn request(&self) -> (request: Request)
        ensures
            request == Request::ConvertText(self.ptr),
    {
        Request::ConvertText(self.ptr)
    }

    /// Encodes the value from the bytes the host's conversion produced.
    ///
    /// The result is the one that `StrSerializer::serialize` gives for the
    /// same bytes.
    pub fn serialize(&self, raw: Option<Vec<u8>>) -> (result: Result<Token, SerializeError>)
        ensures
            outcome_of(result) == str_outcome(raw_view(raw)),
            result matches Ok(token) ==> token@ matches TokenView::Str(text) && Some(
                encode_utf8(text),
            ) == raw_view(raw),
    {
        let uni = extract(raw);
        if uni.is_none() {
            return Err(SerializeError::InvalidStr);
        }
        Ok(Token::Str(uni.unwrap()))
    }
}

} // verus!
