//! One encoder for each type the engine knows, and the fallback encoder for
//! all the others.

pub mod default;
pub mod integer;
pub mod unicode;
