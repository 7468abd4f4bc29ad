use vstd::prelude::*;

use crate::blocks::{
    decode_picture,
    decode_vorbis_comment,
    picture_spec,
    vorbis_comment_spec,
    Picture,
    PictureView,
    VorbisComment,
    VorbisCommentView,
};
use crate::error::FlacError;
use crate::metadata::{
    header_of,
    lemma_streaminfo_valid,
    valid_streaminfo,
    read_block_header,
    read_streaminfo_block,
    streaminfo_spec,
    BlockHeader,
    StreamInfo,
    STREAMINFO_LENGTH,
};
use crate::reader::{be_value, ByteReader};

verus! {

/// The 32-bit big-endian word `fLaC` that opens every FLAC stream.
pub const STREAM_MARKER: u32 = 0x664c_6143;

/// The block type that the format reserves and never allows.
pub const RESERVED_BLOCK_TYPE: u8 = 127;

/// One decoded metadata block.
pub enum MetadataBlock {
    StreamInfo(StreamInfo),
    VorbisComment(VorbisComment),
    Picture(Picture),
    /// A block whose content is not kept: padding, a block of a type that
    /// is not decoded, or a picture whose MIME type is not text.
    Skipped,
}

pub ghost enum BlockView {
    StreamInfo(StreamInfo),
    VorbisComment(VorbisCommentView),
    Picture(PictureView),
    Skipped,
}

impl View for MetadataBlock {
    type V = BlockView;

    open spec fn view(&self) -> BlockView {
        match self {
            MetadataBlock::StreamInfo(i) => BlockView::StreamInfo(*i),
            MetadataBlock::VorbisComment(c) => BlockView::VorbisComment(c@),
            MetadataBlock::Picture(p) => BlockView::Picture(p@),
            MetadataBlock::Skipped => BlockView::Skipped,
        }
    }
}

/// What the metadata blocks of a stream have given so far.
#[derive(Debug)]
pub struct ParsedMetadata {
    pub info: Option<StreamInfo>,
    pub vorbis_comment: Option<VorbisComment>,
    pub picture: Option<Picture>,
}

pub ghost struct MetadataView {
    pub info: Option<StreamInfo>,
    pub vorbis_comment: Option<VorbisCommentView>,
    pub picture: Option<PictureView>,
}

impl View for ParsedMetadata {
    type V = MetadataView;

    open spec fn view(&self) -> MetadataView {
        MetadataView {
            info: self.info,
            vorbis_comment: match self.vorbis_comment {
                Some(c) => Some(c@),
                None => None,
            },
            picture: match self.picture {
                Some(p) => Some(p@),
                None => None,
            },
        }
    }
}

pub open spec fn empty_metadata() -> MetadataView {
    MetadataView { info: None, vorbis_comment: None, picture: None }
}

/// The block that a body `b` of a block of the given type decodes to.
pub open spec fn body_spec(block_type: u8, b: Seq<u8>) -> Result<BlockView, FlacError> {
    if block_type == 0 {
        match streaminfo_spec(b) {
            Ok(i) => Ok(BlockView::StreamInfo(i)),
            Err(e) => Err(e),
        }
    } else if block_type == 4 {
        match vorbis_comment_spec(b) {
            Ok(c) => Ok(BlockView::VorbisComment(c)),
            Err(e) => Err(e),
        }
    } else if block_type == 6 {
        match picture_spec(b) {
            Ok(Some(p)) => Ok(BlockView::Picture(p)),
            Ok(None) => Ok(BlockView::Skipped),
            Err(e) => Err(e),
        }
    } else {
        Ok(BlockView::Skipped)
    }
}

/// The block whose header is `h` and whose body starts at offset `p` of `s`.
#[verifier::opaque]
pub open spec fn block_spec(s: Seq<u8>, p: int, h: BlockHeader) -> Result<BlockView, FlacError> {
    if h.block_type == RESERVED_BLOCK_TYPE {
        Err(FlacError::ReservedBlockType)
    } else if h.block_type == 0 && h.length != 34 {
        Err(FlacError::InvalidStreamInfoLength)
    } else if p + h.length > s.len() {
        Err(FlacError::UnexpectedEof)
    } else {
        body_spec(h.block_type, s.subrange(p, p + h.length))
    }
}

/// `m` once `block` is taken in. A stream-info block is kept only as the
/// first block, and a second one is an error; a later tag list or picture
/// replaces an earlier one.
pub open spec fn merge_spec(m: MetadataView, block: BlockView, first: bool) -> Result<
    MetadataView,
    FlacError,
> {
    match block {
        BlockView::StreamInfo(i) => if m.info is Some {
            Err(FlacError::DuplicateStreamInfo)
        } else if first {
            Ok(MetadataView { info: Some(i), ..m })
        } else {
            Ok(m)
        },
        BlockView::VorbisComment(c) => Ok(MetadataView { vorbis_comment: Some(c), ..m }),
        BlockView::Picture(pic) => Ok(MetadataView { picture: Some(pic), ..m }),
        BlockView::Skipped => Ok(m),
    }
}

/// The metadata and the end offset of the blocks that start at offset `p` of
/// `s`, up to and including the one flagged as last.
pub open spec fn blocks_spec(s: Seq<u8>, p: int, m: MetadataView, first: bool) -> Result<
    (MetadataView, int),
    FlacError,
>
    decreases s.len() - p,
{
    if p < 0 || p + 4 > s.len() {
        Err(FlacError::UnexpectedEof)
    } else {
        let h = header_of(be_value(s.subrange(p, p + 4)));
        let next = p + 4 + h.length;
        match block_spec(s, p + 4, h) {
            Err(e) => Err(e),
            Ok(block) => match merge_spec(m, block, first) {
                Err(e) => Err(e),
                Ok(m2) => if h.is_last {
                    Ok((m2, next))
                } else if next <= s.len() {
                    blocks_spec(s, next, m2, false)
                } else {
                    Err(FlacError::UnexpectedEof)
                },
            },
        }
    }
}

/// The stream info, the metadata and the end offset of the stream that
/// starts at offset `p` of `s`.
pub open spec fn stream_spec(s: Seq<u8>, p: int) -> Result<(StreamInfo, MetadataView, int), FlacError> {
    if p < 0 || p + 4 > s.len() {
        Err(FlacError::UnexpectedEof)
    } else if be_value(s.subrange(p, p + 4)) != STREAM_MARKER {
        Err(FlacError::InvalidStreamHeader)
    } else {
        match blocks_spec(s, p + 4, empty_metadata(), true) {
            Err(e) => Err(e),
            Ok((m, end)) => match m.info {
                Some(i) => Ok((i, m, end)),
                None => Err(FlacError::MissingStreamInfoBlock),
            },
        }
    }
}

proof fn lemma_blocks_keep_valid(s: Seq<u8>, p: int, m: MetadataView, first: bool)
    requires
        m.info matches Some(i) ==> valid_streaminfo(i),
        blocks_spec(s, p, m, first) is Ok,
    ensures
        blocks_spec(s, p, m, first)->Ok_0.0.info matches Some(i) ==> valid_streaminfo(i),
    decreases s.len() - p,
{
    reveal(block_spec);
    let h = header_of(be_value(s.subrange(p, p + 4)));
    let next = p + 4 + h.length;
    let block = block_spec(s, p + 4, h)->Ok_0;
    if block matches BlockView::StreamInfo(i) {
        lemma_streaminfo_valid(s.subrange(p + 4, p + 4 + h.length));
    }
    let m2 = merge_spec(m, block, first)->Ok_0;
    if !h.is_last {
        lemma_blocks_keep_valid(s, next, m2, false);
    }
}

proof fn lemma_blocks_never_set_info(s: Seq<u8>, p: int, m: MetadataView)
    requires
        m.info is None,
        blocks_spec(s, p, m, false) is Ok,
    ensures
        blocks_spec(s, p, m, false)->Ok_0.0.info is None,
    decreases s.len() - p,
{
    let h = header_of(be_value(s.subrange(p, p + 4)));
    let next = p + 4 + h.length;
    let block = block_spec(s, p + 4, h)->Ok_0;
    let m2 = merge_spec(m, block, false)->Ok_0;
    if !h.is_last {
        lemma_blocks_never_set_info(s, next, m2);
    }
}

/// Every stream that parses has 1 to 8 channels and 4 to 32 bits per
/// sample.
pub proof fn lemma_parsed_streaminfo_valid(s: Seq<u8>, p: int)
    requires
        stream_spec(s, p) is Ok,
    ensures
        valid_streaminfo(stream_spec(s, p)->Ok_0.0),
{
    lemma_blocks_keep_valid(s, p + 4, empty_metadata(), true);
}

/// Parsing the same bytes twice gives equal results.
pub proof fn lemma_parse_deterministic(a: Seq<u8>, b: Seq<u8>, p: int)
    requires
        a == b,
    ensures
        stream_spec(a, p) == stream_spec(b, p),
{
}

/// A stream whose first block is padding lacks stream info, whatever blocks
/// follow: once the blocks are read up to the last one, it fails as missing
/// its stream-info block.
pub proof fn lemma_padding_first_is_missing(s: Seq<u8>, p: int)
    requires
        0 <= p,
        p + 8 <= s.len(),
        be_value(s.subrange(p, p + 4)) == STREAM_MARKER,
        header_of(be_value(s.subrange(p + 4, p + 8))).block_type == 1,
        blocks_spec(s, p + 4, empty_metadata(), true) is Ok,
    ensures
        stream_spec(s, p) == Err::<(StreamInfo, MetadataView, int), FlacError>(
            FlacError::MissingStreamInfoBlock,
        ),
{
    reveal(block_spec);
    let h = header_of(be_value(s.subrange(p + 4, p + 8)));
    if !h.is_last {
        lemma_blocks_never_set_info(s, p + 8 + h.length, empty_metadata());
    }
}

/// A block of a type that is not decoded (neither stream info, tag list nor
/// picture, nor the reserved type) is skipped whole: it leaves the metadata
/// as it was, and reading goes on at the next block header.
pub proof fn lemma_unknown_block_skipped(s: Seq<u8>, p: int, m: MetadataView, first: bool)
    requires
        0 <= p,
        p + 4 <= s.len(),
        ({
            let h = header_of(be_value(s.subrange(p, p + 4)));
            &&& h.block_type != 0
            &&& h.block_type != 4
            &&& h.block_type != 6
            &&& h.block_type != RESERVED_BLOCK_TYPE
            &&& p + 4 + h.length <= s.len()
        }),
    ensures
        ({
            let h = header_of(be_value(s.subrange(p, p + 4)));
            &&& block_spec(s, p + 4, h) == Ok::<BlockView, FlacError>(BlockView::Skipped)
            &&& merge_spec(m, BlockView::Skipped, first) == Ok::<MetadataView, FlacError>(m)
            &&& !h.is_last ==> blocks_spec(s, p, m, first) == blocks_spec(
                s,
                p + 4 + h.length,
                m,
                false,
            )
            &&& h.is_last ==> blocks_spec(s, p, m, first) == Ok::<(MetadataView, int), FlacError>(
                (m, p + 4 + h.length),
            )
        }),
{
    reveal(block_spec);
}

pub open spec fn block_result_view(r: Result<MetadataBlock, FlacError>) -> Result<BlockView, FlacError> {
    match r {
        Ok(b) => Ok(b@),
        Err(e) => Err(e),
    }
}

/// Checks the four-byte stream marker.
pub fn read_stream_header(input: &mut ByteReader) -> (r: Result<(), FlacError>)
    requires
        old(input).wf(),
    ensures
        r == (if !old(input).has(4) {
            Err(FlacError::UnexpectedEof)
        } else if be_value(old(input).ahead(4)) != STREAM_MARKER {
            Err(FlacError::InvalidStreamHeader)
        } else {
            Ok::<(), FlacError>(())
        }),
        old(input).advanced(final(input), if old(input).has(4) { 4 } else { 0 }),
{
    match input.read_be_u32() {
        Ok(w) => if w != STREAM_MARKER {
            Err(FlacError::InvalidStreamHeader)
        } else {
            Ok(())
        },
        Err(e) => Err(e),
    }
}

/// Reads the body of the block whose header is `header`, which the cursor
/// follows. A stream-info block of the wrong length and a block of the
/// reserved type are refused before any byte of the body is read.
pub fn read_metadata_block(input: &mut ByteReader, header: BlockHeader) -> (r: Result<
    MetadataBlock,
    FlacError,
>)
    requires
        old(input).wf(),
        header.length < 0x100_0000,
    ensures
        block_result_view(r) == block_spec(old(input).bytes(), old(input).pos(), header),
        old(input).continues(final(input)),
        r is Ok ==> old(input).advanced(final(input), header.length as int),
        header.block_type == RESERVED_BLOCK_TYPE || (header.block_type == 0 && header.length
            != 34) ==> final(input).pos() == old(input).pos(),
{
    proof {
        reveal(block_spec);
    }
    let length = header.length;
    if header.block_type == RESERVED_BLOCK_TYPE {
        return Err(FlacError::ReservedBlockType);
    }
    if header.block_type == 0 {
        if length as usize != STREAMINFO_LENGTH {
            return Err(FlacError::InvalidStreamInfoLength);
        }
        proof {
            input.lemma_wf();
        }
        return match read_streaminfo_block(input) {
            Ok(i) => Ok(MetadataBlock::StreamInfo(i)),
            Err(e) => Err(e),
        };
    }
    if header.block_type == 4 || header.block_type == 6 {
        let body = match input.read_exact(length as usize) {
            Ok(b) => b,
            Err(e) => return Err(e),
        };
        if header.block_type == 4 {
            match decode_vorbis_comment(body) {
                Ok(c) => Ok(MetadataBlock::VorbisComment(c)),
                Err(e) => Err(e),
            }
        } else {
            match decode_picture(body) {
                Ok(Some(p)) => Ok(MetadataBlock::Picture(p)),
                Ok(None) => Ok(MetadataBlock::Skipped),
                Err(e) => Err(e),
            }
        }
    } else {
        match input.skip(length as usize) {
            Ok(()) => Ok(MetadataBlock::Skipped),
            Err(e) => Err(e),
        }
    }
}

impl ParsedMetadata {
    pub fn new() -> (r: ParsedMetadata)
        ensures
            r@ == empty_metadata(),
    {
        ParsedMetadata { info: None, vorbis_comment: None, picture: None }
    }

    /// Takes in one block; `first` tells whether it opened the metadata
    /// section.
    pub fn merge(&mut self, block: MetadataBlock, first: bool) -> (r: Result<(), FlacError>)
        ensures
            match merge_spec(old(self)@, block@, first) {
                Ok(m) => r is Ok && final(self)@ == m,
                Err(e) => r == Err::<(), FlacError>(e) && final(self)@ == old(self)@,
            },
    {
        match block {
            MetadataBlock::StreamInfo(i) => {
                if self.info.is_some() {
                    return Err(FlacError::DuplicateStreamInfo);
                }
                if first {
                    self.info = Some(i);
                }
                Ok(())
            },
            MetadataBlock::VorbisComment(c) => {
                self.vorbis_comment = Some(c);
                Ok(())
            },
            MetadataBlock::Picture(p) => {
                self.picture = Some(p);
                Ok(())
            },
            MetadataBlock::Skipped => Ok(()),
        }
    }
}

/// A FLAC stream whose metadata section has been read: its stream info and
/// what the other metadata blocks held.
pub struct FlacStream {
    streaminfo: StreamInfo,
    metadata: ParsedMetadata,
}

impl FlacStream {
    pub closed spec fn info_spec(&self) -> StreamInfo {
        self.streaminfo
    }

    pub closed spec fn metadata_spec(&self) -> MetadataView {
        self.metadata@
    }

    /// Reads the stream header and the metadata blocks up to the one flagged
    /// as last, leaving the cursor where the audio frames begin.
    pub fn new(input: &mut ByteReader) -> (r: Result<FlacStream, FlacError>)
        requires
            old(input).wf(),
        ensures
            old(input).continues(final(input)),
            match r {
                Ok(f) => stream_spec(old(input).bytes(), old(input).pos()) == Ok::<
                    (StreamInfo, MetadataView, int),
                    FlacError,
                >((f.info_spec(), f.metadata_spec(), final(input).pos())),
                Err(e) => stream_spec(old(input).bytes(), old(input).pos()) == Err::<
                    (StreamInfo, MetadataView, int),
                    FlacError,
                >(e),
            },
            old(input).has(4) && be_value(old(input).ahead(4)) != STREAM_MARKER
                ==> final(input).pos() == old(input).pos() + 4,
    {
        let ghost s = input.bytes();
        let ghost p0 = input.pos();
        proof {
            input.lemma_wf();
        }
        match read_stream_header(input) {
            Ok(()) => {},
            Err(e) => return Err(e),
        }
        let mut metadata = ParsedMetadata::new();
        let mut first = true;
        let mut done = false;
        while !done
            invariant
                input.wf(),
                input.bytes() == s,
                s == old(input).bytes(),
                p0 == old(input).pos(),
                0 <= p0,
                p0 + 4 <= s.len(),
                be_value(s.subrange(p0, p0 + 4)) == STREAM_MARKER,
                blocks_spec(s, p0 + 4, empty_metadata(), true) == (if done {
                    Ok((metadata@, input.pos()))
                } else {
                    blocks_spec(s, input.pos(), metadata@, first)
                }),
            decreases s.len() - input.pos() + (if done { 0int } else { 1int }),
        {
            proof {
                input.lemma_wf();
            }
            let ghost cur = input.pos();
            let ghost m = metadata@;
            let header = match read_block_header(input) {
                Ok(h) => h,
                Err(e) => return Err(e),
            };
            proof {
                input.lemma_wf();
                assert(header.length < 0x100_0000);
            }
            let block = match read_metadata_block(input, header) {
                Ok(b) => b,
                Err(e) => return Err(e),
            };
            match metadata.merge(block, first) {
                Ok(()) => {},
                Err(e) => return Err(e),
            }
            proof {
                input.lemma_wf();
            }
            first = false;
            if header.is_last {
                done = true;
            }
        }
        match metadata.info {
            Some(info) => Ok(FlacStream { streaminfo: info, metadata }),
            None => Err(FlacError::MissingStreamInfoBlock),
        }
    }

    /// The stream info of the stream.
    pub fn streaminfo(&self) -> (r: &StreamInfo)
        ensures
            *r == self.info_spec(),
    {
        &self.streaminfo
    }

    /// The metadata blocks of the stream: its stream info again, its last tag
    /// list and its last picture, where it had them.
    pub fn metadata(&self) -> (r: &ParsedMetadata)
        ensures
            r@ == self.metadata_spec(),
    {
        &self.metadata
    }
}

} // verus!
