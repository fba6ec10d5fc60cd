//! The dispatcher: one value, and the choice of the encoder for its type.

use crate::handle::ValueHandle;
use crate::serialize::host::RuntimeType;
use crate::serialize::per_type::default::DefaultSerializer;
use crate::serialize::per_type::integer::IntSerializer;
use crate::serialize::per_type::unicode::{StrSerializer, StrSubclassSerializer};
use crate::serialize::state::SerializationState;
use vstd::prelude::*;

verus! {

/// A value on its way to an encoder: its handle, the type the host reports
/// for it, and the session's state as it stands for it.
#[derive(Clone, Copy, Debug, PartialEq, Eq, Structural)]
pub struct ObjectSerializer {
    pub ptr: ValueHandle,
    pub runtime_type: RuntimeType,
    pub state: SerializationState,
}

/// The encoder that a value is routed to.
pub enum Encoder<'a> {
    Str(StrSerializer),
    StrSubclass(StrSubclassSerializer),
    Int(IntSerializer),
    Default(DefaultSerializer<'a>),
}

impl ObjectSerializer {
    pub fn new(ptr: ValueHandle, runtime_type: RuntimeType, state: SerializationState) -> (value:
        Self)
        ensures
            value == (ObjectSerializer { ptr, runtime_type, state }),
    {
        ObjectSerializer { ptr, runtime_type, state }
    }

    /// Routes the value by its exact type. The direct reading of a stored
    /// text is chosen for the string type itself and for nothing else: a
    /// derived type goes through the host's conversion, and every type
    /// without an encoder of its own goes to the fallback encoder.
    pub fn dispatch(&self) -> (encoder: Encoder<'_>)
        ensures
            match self.runtime_type {
                RuntimeType::Str => encoder == Encoder::Str(StrSerializer { ptr: self.ptr }),
                RuntimeType::StrSubclass => encoder == Encoder::StrSubclass(
                    StrSubclassSerializer { ptr: self.ptr },
                ),
                RuntimeType::Int => encoder == Encoder::Int(IntSerializer { ptr: self.ptr }),
                RuntimeType::Other => encoder matches Encoder::Default(fallback)
                    && *fallback.previous == *self,
            },
    {
        match self.runtime_type {
            RuntimeType::Str => Encoder::Str(StrSerializer::new(self.ptr)),
            RuntimeType::StrSubclass => Encoder::StrSubclass(StrSubclassSerializer::new(self.ptr)),
            RuntimeType::Int => Encoder::Int(IntSerializer::new(self.ptr)),
            RuntimeType::Other => Encoder::Default(DefaultSerializer::new(self)),
        }
    }
}

} // verus!
