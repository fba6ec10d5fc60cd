//! An encoding engine for values that live in a host object runtime.
//!
//! The engine never touches the host itself. It decides, one step at a time,
//! what has to be asked of the host (read a text, call the fallback, release a
//! value) and what follows from each answer, until a single output token or a
//! single error is left.

pub mod handle;
pub mod serialize;
pub mod text;
