//! The integer encoder.

use crate::handle::ValueHandle;
use crate::serialize::error::SerializeError;
use crate::serialize::host::Request;
use crate::serialize::token::Token;
use vstd::prelude::*;

verus! {

/// Encodes a value of the host's integer type.
pub struct IntSerializer {
    pub ptr: ValueHandle,
}

impl IntSerializer {
    pub fn new(ptr: ValueHandle) -> (encoder: Self)
        ensures
            encoder.ptr == ptr,
    {
        IntSerializer { ptr: ptr }
    }

    /// What this encoder needs from the host: the number the value holds.
    pub fn request(&self) -> (request: Request)
        ensures
            request == Request::ReadInt(self.ptr),
    {
        Request::ReadInt(self.ptr)
    }

    /// Encodes the value from the number the host read: always a number
    /// token that holds it.
    pub fn serialize(&self, number: i64) -> (result: Result<Token, SerializeError>)
        ensures
            result == Ok::<Token, SerializeError>(Token::Int(number)),
    {
        Ok(Token::Int(number))
    }
}

} // verus!
