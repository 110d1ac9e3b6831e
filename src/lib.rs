//! Decoder for the 128-byte display identification block and its first CTA extension.
pub mod bits;
pub mod cp437;
pub mod text;
pub mod error;
pub mod edid;
pub mod extension;
pub use edid::parse;
