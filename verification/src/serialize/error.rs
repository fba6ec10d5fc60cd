//! The ways in which encoding a value ends without output.

use crate::handle::ValueHandle;
use vstd::prelude::*;

verus! {

/// Why a value could not be encoded. Each of them ends the whole session.
#[derive(Clone, Copy, Debug, PartialEq, Eq, Structural)]
pub enum SerializeError {
    /// No encoder knows the value's type, and no fallback produced a
    /// substitute. The handle names the value for the report only; the error
    /// holds no ownership of it.
    UnsupportedType(ValueHandle),
    /// A string value whose representation is not well-formed UTF-8.
    InvalidStr,
    /// The chain of fallback calls reached its ceiling.
    DefaultRecursionLimit,
}

} // verus!
