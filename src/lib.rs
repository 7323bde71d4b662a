//! Decoding of single-byte character codes into text.
pub mod decoder;
pub mod owned;
pub mod table;
