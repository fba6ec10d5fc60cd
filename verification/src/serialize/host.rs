//! The conversation with the host runtime: what the engine asks of it, and
//! what it answers.

use crate::handle::{OwnedHandle, ValueHandle};
use crate::text::raw_view;
use vstd::prelude::*;

verus! {

/// What the host reports about the exact type of a value.
#[derive(Clone, Copy, Debug, PartialEq, Eq, Structural)]
pub enum RuntimeType {
    /// Exactly the host's string type.
    Str,
    /// A type derived from the host's string type.
    StrSubclass,
    /// The host's integer type.
    Int,
    /// A type that no encoder knows.
    Other,
}

/// One thing the engine asks the host to do.
#[derive(Clone, Copy, Debug, PartialEq, Eq, Structural)]
pub enum Request {
    /// Read the stored text of a value whose type is exactly the string type,
    /// without going through the host's conversion machinery.
    ReadText(ValueHandle),
    /// Produce the text of a string-like value through the host's general
    /// conversion entry point.
    ConvertText(ValueHandle),
    /// Read the number an integer value holds.
    ReadInt(ValueHandle),
    /// Call `callable` with `argument` as its one and only argument.
    CallFallback { callable: ValueHandle, argument: ValueHandle },
    /// Give up the hold on a substitute that a fallback call created.
    Release(ValueHandle),
}

/// A value that a fallback call created, with the type the host reports for
/// it. Whoever receives it owns it.
#[derive(Debug, PartialEq, Eq, Structural)]
pub struct Substitute {
    pub handle: OwnedHandle,
    pub runtime_type: RuntimeType,
}

/// The host's answer to a request.
#[derive(Debug, PartialEq, Eq)]
pub enum Reply {
    /// The bytes of a text, or `None` where the host could not produce them.
    Text(Option<Vec<u8>>),
    /// The number that was read.
    Int(i64),
    /// What the fallback returned, or `None` where the call failed.
    Returned(Option<Substitute>),
    /// The hold was given up.
    Released,
}

/// A reply as a mathematical value.
pub enum ReplyView {
    Text(Option<Seq<u8>>),
    Int(i64),
    Returned(Option<Substitute>),
    Released,
}

impl View for Reply {
    type V = ReplyView;

    open spec fn view(&self) -> ReplyView {
        match self {
            Reply::Text(raw) => ReplyView::Text(raw_view(*raw)),
            Reply::Int(number) => ReplyView::Int(*number),
            Reply::Returned(substitute) => ReplyView::Returned(*substitute),
            Reply::Released => ReplyView::Released,
        }
    }
}

} // verus!
