//! The ways a header parse can fail.

use vstd::prelude::*;

verus! {

/// A decode step failed. Every failure aborts the whole parse: no partial
/// header value is produced.
#[derive(Debug, Clone, Copy, PartialEq, Eq)]
pub enum WebpError {
    /// The byte source ended before the current field was complete:
    /// `expected` bytes were needed at `offset` but only `actual` remained.
    TruncatedInput { offset: usize, expected: usize, actual: usize },
    /// The chunk tag matched no implemented decoder; `tag` is the four bytes
    /// that were observed.
    UnsupportedChunkType { tag: [u8; 4] },
}

} // verus!
