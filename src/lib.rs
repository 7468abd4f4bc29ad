//! Reading the metadata section of a FLAC stream: the stream header, the
//! metadata block headers and the bodies of the block types that carry
//! information (stream info, tag list, picture).

pub mod error;
pub mod reader;
pub mod text;
pub mod metadata;
pub mod blocks;
pub mod stream;

pub use error::FlacError;
pub use reader::ByteReader;
pub use stream::{FlacStream, ParsedMetadata};
