use vstd::prelude::*;

use crate::error::FlacError;
use crate::reader::{
    be_value,
    lemma_pow256_eight,
    pow256,
    ByteReader,
};

verus! {

/// The audio parameters that the mandatory first metadata block carries.
#[derive(Clone, Copy, Debug, PartialEq, Eq, Structural)]
pub struct StreamInfo {
    /// The smallest block size of the stream, in samples.
    pub min_block_size: u16,
    /// The largest block size of the stream, in samples.
    pub max_block_size: u16,
    /// The smallest frame size, in bytes; 0 where it is unknown.
    pub min_frame_size: u32,
    /// The largest frame size, in bytes; 0 where it is unknown.
    pub max_frame_size: u32,
    /// The sample rate, in Hz.
    pub sample_rate: u32,
    /// The number of channels, 1 to 8.
    pub channels: u32,
    /// The bits per sample, 4 to 32.
    pub bits_per_sample: u32,
    /// The total number of samples per channel; 0 where it is unknown.
    pub samples: u64,
    /// The MD5 checksum of the unencoded audio data.
    pub md5sum: u128,
}

/// The header that precedes every metadata block.
#[derive(Clone, Copy, Debug, PartialEq, Eq, Structural)]
pub struct BlockHeader {
    /// Whether this block is the last one of the metadata section.
    pub is_last: bool,
    /// The block type, 0 to 127.
    pub block_type: u8,
    /// The length of the block's body in bytes, below `2^24`.
    pub length: u32,
}

/// The length of a stream-info block's body.
pub const STREAMINFO_LENGTH: usize = 34;

/// The header that the 32-bit big-endian word `w` encodes: bit 31 is the
/// last-block flag, bits 30 to 24 the block type, bits 23 to 0 the length.
pub open spec fn header_of(w: nat) -> BlockHeader {
    BlockHeader {
        is_last: w / 0x8000_0000 % 2 == 1,
        block_type: (w / 0x100_0000 % 128) as u8,
        length: (w % 0x100_0000) as u32,
    }
}

/// The fields of a 34-byte stream-info body `b`, before any check.
pub open spec fn streaminfo_of(b: Seq<u8>) -> StreamInfo {
    let packed = be_value(b.subrange(10, 18));
    StreamInfo {
        min_block_size: be_value(b.subrange(0, 2)) as u16,
        max_block_size: be_value(b.subrange(2, 4)) as u16,
        min_frame_size: be_value(b.subrange(4, 7)) as u32,
        max_frame_size: be_value(b.subrange(7, 10)) as u32,
        sample_rate: (packed / 0x1000_0000_0000) as u32,
        channels: (packed / 0x200_0000_0000 % 8 + 1) as u32,
        bits_per_sample: (packed / 0x10_0000_0000 % 32 + 1) as u32,
        samples: (packed % 0x10_0000_0000) as u64,
        md5sum: (be_value(b.subrange(18, 26)) * 0x1_0000_0000_0000_0000 + be_value(
            b.subrange(26, 34),
        )) as u128,
    }
}

/// The decoded stream-info block, rejected where the bits per sample fall
/// below 4.
pub open spec fn streaminfo_spec(b: Seq<u8>) -> Result<StreamInfo, FlacError> {
    let info = streaminfo_of(b);
    if info.bits_per_sample < 4 {
        Err(FlacError::InvalidBitsPerSample)
    } else {
        Ok(info)
    }
}

/// A stream-info value that a stream can hold.
pub open spec fn valid_streaminfo(info: StreamInfo) -> bool {
    &&& 1 <= info.channels <= 8
    &&& 4 <= info.bits_per_sample <= 32
}

/// Every stream-info block that decodes has 1 to 8 channels and 4 to 32 bits
/// per sample.
pub proof fn lemma_streaminfo_valid(b: Seq<u8>)
    requires
        b.len() == 34,
        streaminfo_spec(b) is Ok,
    ensures
        valid_streaminfo(streaminfo_spec(b)->Ok_0),
{
}

/// Reads a metadata block header.
pub fn read_block_header(input: &mut ByteReader) -> (r: Result<BlockHeader, FlacError>)
    requires
        old(input).wf(),
    ensures
        r == (if old(input).has(4) {
            Ok(header_of(be_value(old(input).ahead(4))))
        } else {
            Err(FlacError::UnexpectedEof)
        }),
        old(input).advanced(final(input), if r is Ok { 4 } else { 0 }),
{
    proof {
        lemma_pow256_eight();
    }
    match input.read_be(4) {
        Ok(w) => Ok(
            BlockHeader {
                is_last: w / 0x8000_0000 % 2 == 1,
                block_type: (w / 0x100_0000 % 128) as u8,
                length: (w % 0x100_0000) as u32,
            },
        ),
        Err(e) => Err(e),
    }
}

/// Reads the 34-byte body of a stream-info block.
pub fn read_streaminfo_block(input: &mut ByteReader) -> (r: Result<StreamInfo, FlacError>)
    requires
        old(input).wf(),
    ensures
        r == (if old(input).has(34) {
            streaminfo_spec(old(input).ahead(34))
        } else {
            Err(FlacError::UnexpectedEof)
        }),
        old(input).continues(final(input)),
        r is Ok ==> old(input).advanced(final(input), 34),
{
    proof {
        input.lemma_wf();
    }
    if input.len() - input.position() < STREAMINFO_LENGTH {
        return Err(FlacError::UnexpectedEof);
    }
    let ghost b = input.ahead(34);
    let ghost start = input.pos();
    let ghost src = input.bytes();
    proof {
        lemma_pow256_eight();
        assert(b.subrange(0, 2) =~= src.subrange(start, start + 2));
        assert(b.subrange(2, 4) =~= src.subrange(start + 2, start + 4));
        assert(b.subrange(4, 7) =~= src.subrange(start + 4, start + 7));
        assert(b.subrange(7, 10) =~= src.subrange(start + 7, start + 10));
        assert(b.subrange(10, 18) =~= src.subrange(start + 10, start + 18));
        assert(b.subrange(18, 26) =~= src.subrange(start + 18, start + 26));
        assert(b.subrange(26, 34) =~= src.subrange(start + 26, start + 34));
    }
    let min_block_size = input.read_be(2);
    let max_block_size = input.read_be(2);
    let min_frame_size = input.read_be(3);
    let max_frame_size = input.read_be(3);
    let packed = input.read_be(8);
    let md5_high = input.read_be(8);
    let md5_low = input.read_be(8);
    match (min_block_size, max_block_size, min_frame_size, max_frame_size, packed, md5_high, md5_low) {
        (Ok(min_bs), Ok(max_bs), Ok(min_fs), Ok(max_fs), Ok(packed), Ok(hi), Ok(lo)) => {
            let info = StreamInfo {
                min_block_size: min_bs as u16,
                max_block_size: max_bs as u16,
                min_frame_size: min_fs as u32,
                max_frame_size: max_fs as u32,
                sample_rate: (packed / 0x1000_0000_0000) as u32,
                channels: (packed / 0x200_0000_0000 % 8 + 1) as u32,
                bits_per_sample: (packed / 0x10_0000_0000 % 32 + 1) as u32,
                samples: packed % 0x10_0000_0000,
                md5sum: hi as u128 * 0x1_0000_0000_0000_0000 + lo as u128,
            };
            if info.bits_per_sample < 4 {
                Err(FlacError::InvalidBitsPerSample)
            } else {
                Ok(info)
            }
        },
        _ => Err(FlacError::UnexpectedEof),
    }
}

} // verus!
