//! Helpers that the rest of the library builds on.

pub mod casing;
pub mod clock;
pub mod secret;
pub mod text;
pub mod uuid_text;
