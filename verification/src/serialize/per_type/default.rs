//! The fallback encoder: for a value that no encoder knows, it has the
//! session's callable produce a substitute, within a ceiling on how often.

use crate::handle::OwnedHandle;
use crate::serialize::error::SerializeError;
use crate::serialize::host::{Request, Substitute};
use crate::serialize::serializer::ObjectSerializer;
use vstd::prelude::*;

verus! {

/// What the fallback encoder decides for a value before anything is called.
///
/// Without a callable the value is unsupported. With one, the ceiling on
/// fallback calls is tested first: once it is reached, nothing is called any
/// more. Below it, the callable is to be called with the value as its only
/// argument.
pub open spec fn decision(previous: ObjectSerializer) -> Result<Request, SerializeError> {
    match previous.state.fallback_callback {
        None => Err(SerializeError::UnsupportedType(previous.ptr)),
        Some(callable) => if previous.state.at_limit() {
            Err(SerializeError::DefaultRecursionLimit)
        } else {
            Ok(Request::CallFallback { callable, argument: previous.ptr })
        },
    }
}

/// The value that is encoded in place of `previous` once the callable has
/// returned `substitute`: the substitute itself, under counters that record
/// one more fallback call and carry the same callable.
pub open spec fn successor(previous: ObjectSerializer, substitute: Substitute) -> ObjectSerializer {
    ObjectSerializer {
        ptr: substitute.handle.lent(),
        runtime_type: substitute.runtime_type,
        state: previous.state.advanced(),
    }
}

/// Encodes a value that no encoder knows.
pub struct DefaultSerializer<'a> {
    pub previous: &'a ObjectSerializer,
}

impl<'a> DefaultSerializer<'a> {
    pub fn new(previous: &'a ObjectSerializer) -> (encoder: Self)
        ensures
            encoder.previous == previous,
    {
        Self { previous: previous }
    }

    /// Decides what happens to the value: the request to call the fallback,
    /// or the error that ends the encoding before any call.
    pub fn serialize(&self) -> (result: Result<Request, SerializeError>)
        ensures
            result == decision(*self.previous),
    {
        match self.previous.state.fallback_callback {
            Some(callable) => {
                if self.previous.state.default_calls_limit() {
                    return Err(SerializeError::DefaultRecursionLimit);
                }
                Ok(Request::CallFallback { callable, argument: self.previous.ptr })
            },
            None => Err(SerializeError::UnsupportedType(self.previous.ptr)),
        }
    }

    /// Takes what the fallback call returned.
    ///
    /// Where the call failed, the value is unsupported. Otherwise the result
    /// is the substitute as the next value to encode, together with the
    /// handle that has to be released once that encoding has ended, however
    /// it ends.
    pub fn resume(&self, returned: Option<Substitute>) -> (result: Result<
        (ObjectSerializer, OwnedHandle),
        SerializeError,
    >)
        requires
            decision(*self.previous) is Ok,
        ensures
            match returned {
                None => result == Err::<(ObjectSerializer, OwnedHandle), SerializeError>(
                    SerializeError::UnsupportedType(self.previous.ptr),
                ),
                Some(substitute) => result == Ok::<(ObjectSerializer, OwnedHandle), SerializeError>(
                    (successor(*self.previous, substitute), substitute.handle),
                ),
            },
    {
        match returned {
            None => Err(SerializeError::UnsupportedType(self.previous.ptr)),
            Some(substitute) => {
                let next = ObjectSerializer::new(
                    substitute.handle.borrow(),
                    substitute.runtime_type,
                    self.previous.state.copy_for_default_call(),
                );
                Ok((next, substitute.handle))
            },
        }
    }
}

} // verus!
