use vstd::prelude::*;

verus! {

/// The ways in which reading a FLAC stream's metadata can fail.
#[derive(Clone, Copy, Debug, PartialEq, Eq, Structural)]
pub enum FlacError {
    /// The stream does not start with the bytes `fLaC`.
    InvalidStreamHeader,
    /// A stream-info block declares a length other than 34 bytes.
    InvalidStreamInfoLength,
    /// A stream-info block holds a bits-per-sample value below 4.
    InvalidBitsPerSample,
    /// A second stream-info block follows the first one.
    DuplicateStreamInfo,
    /// A block header uses the reserved block type 127.
    ReservedBlockType,
    /// No stream-info block opened the metadata section.
    MissingStreamInfoBlock,
    /// A length-prefixed field runs past the end of its block.
    TruncatedBlock,
    /// The input ended before the bytes that were needed.
    UnexpectedEof,
}

} // verus!
