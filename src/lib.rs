//! Colors stored as four 8-bit channels in gamma-encoded sRGB, with exact
//! packing into 32-bit integers, hexadecimal and human-readable text,
//! and checked decoding from sequences and byte buffers.

pub mod decode;
pub mod encoded;
pub mod text;

pub use decode::{DecodeError, Element};
pub use encoded::EncodedColor;
