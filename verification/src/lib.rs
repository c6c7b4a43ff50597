//! Parser for the header region of a WebP image container: the outer RIFF
//! envelope and, when present, the extended (`VP8X`) chunk carrying feature
//! flags and canvas dimensions.
//!
//! The parser is a forward-only cursor over an in-memory byte sequence; it
//! never decodes pixel data. Callers hand it the leading bytes of a file and
//! receive either a typed header value or a typed error saying exactly where
//! and why decoding stopped.

pub mod byte_reader;
pub mod encoding;
pub mod error;
pub mod webp;
