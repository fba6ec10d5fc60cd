//! The encoding engine: its errors, its counters, the encoders for single
//! types, and the session that strings them together.

pub mod error;
pub mod host;
pub mod laws;
pub mod model;
pub mod per_type;
pub mod serializer;
pub mod session;
pub mod state;
pub mod token;
