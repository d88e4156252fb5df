//! Decoding of PNG-style chunked image containers into a validated, structured form.

pub mod error;
pub mod reader;
pub mod chunk;
pub mod types;
pub mod metadata;
pub mod image;
pub mod lemmas;
