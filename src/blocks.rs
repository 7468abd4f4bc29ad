use vstd::prelude::*;

use crate::error::FlacError;
use crate::reader::{
    be_value,
    le_u32_value,
    lemma_pow256_eight,
    ByteReader,
};
use crate::text::{
    decode_utf8,
    text_or_empty,
    text_or_empty_spec,
    utf8_text,
};

verus! {

/// A tag list: the encoder's vendor string and the `KEY=VALUE` entries, in
/// the order in which the block stores them.
#[derive(Debug)]
pub struct VorbisComment {
    pub vendor: String,
    pub comments: Vec<String>,
}

pub ghost struct VorbisCommentView {
    pub vendor: Seq<char>,
    pub comments: Seq<Seq<char>>,
}

impl View for VorbisComment {
    type V = VorbisCommentView;

    open spec fn view(&self) -> VorbisCommentView {
        VorbisCommentView {
            vendor: self.vendor@,
            comments: self.comments@.map_values(|c: String| c@),
        }
    }
}

/// An embedded picture.
#[derive(Debug)]
pub struct Picture {
    pub picture_type: u32,
    pub mime: String,
    pub description: String,
    pub width: u32,
    pub height: u32,
    pub depth: u32,
    pub index_colors: u32,
    pub image: Vec<u8>,
}

pub ghost struct PictureView {
    pub picture_type: u32,
    pub mime: Seq<char>,
    pub description: Seq<char>,
    pub width: u32,
    pub height: u32,
    pub depth: u32,
    pub index_colors: u32,
    pub image: Seq<u8>,
}

impl View for Picture {
    type V = PictureView;

    open spec fn view(&self) -> PictureView {
        PictureView {
            picture_type: self.picture_type,
            mime: self.mime@,
            description: self.description@,
            width: self.width,
            height: self.height,
            depth: self.depth,
            index_colors: self.index_colors,
            image: self.image@,
        }
    }
}

/// The view of a text that may have failed to decode.
pub open spec fn decoded_view(t: Option<String>) -> Option<Seq<char>> {
    match t {
        Some(s) => Some(s@),
        None => None,
    }
}

impl Picture {
    /// The picture whose MIME type and description decoded to `mime` and
    /// `description`: none where the MIME type is not text, and an empty
    /// description where the description is not.
    pub fn from_decoded(
        picture_type: u32,
        mime: Option<String>,
        description: Option<String>,
        width: u32,
        height: u32,
        depth: u32,
        index_colors: u32,
        image: Vec<u8>,
    ) -> (r: Option<Picture>)
        ensures
            match mime {
                None => r is None,
                Some(m) => r matches Some(p) && p@ == (PictureView {
                    picture_type,
                    mime: m@,
                    description: text_or_empty_spec(decoded_view(description)),
                    width,
                    height,
                    depth,
                    index_colors,
                    image: image@,
                }),
            },
    {
        match mime {
            None => None,
            Some(mime) => Some(
                Picture {
                    picture_type,
                    mime,
                    description: text_or_empty(description),
                    width,
                    height,
                    depth,
                    index_colors,
                    image,
                },
            ),
        }
    }
}

/// The text that the bytes encode, or the empty text where they are not UTF-8.
pub open spec fn text_of(b: Seq<u8>) -> Seq<char> {
    text_or_empty_spec(utf8_text(b))
}

/// The little-endian 32-bit value at offset `p` of `b`.
pub open spec fn le32_at(b: Seq<u8>, p: int) -> int {
    le_u32_value(b.subrange(p, p + 4)) as int
}

/// The big-endian 32-bit value at offset `p` of `b`.
pub open spec fn be32_at(b: Seq<u8>, p: int) -> int {
    be_value(b.subrange(p, p + 4)) as int
}

/// The `n` length-prefixed entries of a tag list that start at offset `p` of
/// the block body `b`.
pub open spec fn comments_spec(b: Seq<u8>, p: int, n: nat) -> Result<Seq<Seq<char>>, FlacError>
    decreases n,
{
    if n == 0 {
        Ok(Seq::empty())
    } else if p + 4 > b.len() {
        Err(FlacError::TruncatedBlock)
    } else {
        let len = le32_at(b, p);
        if p + 4 + len > b.len() {
            Err(FlacError::TruncatedBlock)
        } else {
            match comments_spec(b, p + 4 + len, (n - 1) as nat) {
                Ok(rest) => Ok(seq![text_of(b.subrange(p + 4, p + 4 + len))] + rest),
                Err(e) => Err(e),
            }
        }
    }
}

/// `done` followed by the entries that `rest` gives, or the error of `rest`.
pub open spec fn prepend_comments(
    done: Seq<Seq<char>>,
    rest: Result<Seq<Seq<char>>, FlacError>,
) -> Result<Seq<Seq<char>>, FlacError> {
    match rest {
        Ok(r) => Ok(done + r),
        Err(e) => Err(e),
    }
}

/// The tag list that the block body `b` holds. Its length fields are
/// little-endian.
pub open spec fn vorbis_comment_spec(b: Seq<u8>) -> Result<VorbisCommentView, FlacError> {
    if b.len() < 4 {
        Err(FlacError::TruncatedBlock)
    } else {
        let vendor_len = le32_at(b, 0);
        if 4 + vendor_len + 4 > b.len() {
            Err(FlacError::TruncatedBlock)
        } else {
            match comments_spec(b, 8 + vendor_len, le32_at(b, 4 + vendor_len) as nat) {
                Ok(comments) => Ok(
                    VorbisCommentView { vendor: text_of(b.subrange(4, 4 + vendor_len)), comments },
                ),
                Err(e) => Err(e),
            }
        }
    }
}

/// The picture that the block body `b` holds; `None` where its MIME type is
/// not UTF-8 text.
pub open spec fn picture_spec(b: Seq<u8>) -> Result<Option<PictureView>, FlacError> {
    let mime_end = 8 + be32_at(b, 4);
    let desc_end = mime_end + 4 + be32_at(b, mime_end);
    let image_end = desc_end + 20 + be32_at(b, desc_end + 16);
    if b.len() < 8 || b.len() < mime_end + 4 || b.len() < desc_end + 20 || b.len() < image_end {
        Err(FlacError::TruncatedBlock)
    } else {
        match utf8_text(b.subrange(8, mime_end)) {
            None => Ok(None),
            Some(mime) => Ok(
                Some(
                    PictureView {
                        picture_type: be32_at(b, 0) as u32,
                        mime,
                        description: text_of(b.subrange(mime_end + 4, desc_end)),
                        width: be32_at(b, desc_end) as u32,
                        height: be32_at(b, desc_end + 4) as u32,
                        depth: be32_at(b, desc_end + 8) as u32,
                        index_colors: be32_at(b, desc_end + 12) as u32,
                        image: b.subrange(desc_end + 20, image_end),
                    },
                ),
            ),
        }
    }
}

/// Reads a little-endian 32-bit length inside a block body.
fn body_le_u32(r: &mut ByteReader) -> (v: Result<u32, FlacError>)
    requires
        old(r).wf(),
    ensures
        v == (if old(r).has(4) {
            Ok(le_u32_value(old(r).ahead(4)) as u32)
        } else {
            Err(FlacError::TruncatedBlock)
        }),
        old(r).advanced(final(r), if v is Ok { 4 } else { 0 }),
        v is Ok ==> le_u32_value(old(r).ahead(4)) <= u32::MAX,
{
    match r.read_le_u32() {
        Ok(v) => Ok(v),
        Err(_) => Err(FlacError::TruncatedBlock),
    }
}

/// Reads a big-endian 32-bit value inside a block body.
fn body_be_u32(r: &mut ByteReader) -> (v: Result<u32, FlacError>)
    requires
        old(r).wf(),
    ensures
        v == (if old(r).has(4) {
            Ok(be_value(old(r).ahead(4)) as u32)
        } else {
            Err(FlacError::TruncatedBlock)
        }),
        old(r).advanced(final(r), if v is Ok { 4 } else { 0 }),
        v is Ok ==> be_value(old(r).ahead(4)) <= u32::MAX,
{
    match r.read_be_u32() {
        Ok(v) => Ok(v),
        Err(_) => Err(FlacError::TruncatedBlock),
    }
}

/// Reads `n` bytes inside a block body.
fn body_bytes(r: &mut ByteReader, n: u32) -> (v: Result<Vec<u8>, FlacError>)
    requires
        old(r).wf(),
    ensures
        match v {
            Ok(bytes) => old(r).has(n as int) && bytes@ == old(r).ahead(n as int),
            Err(e) => !old(r).has(n as int) && e == FlacError::TruncatedBlock,
        },
        old(r).advanced(final(r), if v is Ok { n as int } else { 0 }),
{
    match r.read_exact(n as usize) {
        Ok(v) => Ok(v),
        Err(_) => Err(FlacError::TruncatedBlock),
    }
}

/// Decodes the body of a tag-list block. An entry, or the vendor string,
/// that is not UTF-8 becomes the empty string; the others keep their order.
pub fn decode_vorbis_comment(body: Vec<u8>) -> (r: Result<VorbisComment, FlacError>)
    ensures
        match r {
            Ok(c) => vorbis_comment_spec(body@) == Ok::<VorbisCommentView, FlacError>(c@),
            Err(e) => vorbis_comment_spec(body@) == Err::<VorbisCommentView, FlacError>(e),
        },
{
    let ghost b = body@;
    let mut r = ByteReader::new(body);
    let vendor_len = match body_le_u32(&mut r) {
        Ok(v) => v,
        Err(e) => return Err(e),
    };
    let vendor_bytes = match body_bytes(&mut r, vendor_len) {
        Ok(v) => v,
        Err(e) => return Err(e),
    };
    let vendor = text_or_empty(decode_utf8(vendor_bytes));
    let count = match body_le_u32(&mut r) {
        Ok(v) => v,
        Err(e) => return Err(e),
    };
    let ghost first = r.pos();
    let mut comments: Vec<String> = Vec::new();
    let mut i: u32 = 0;
    while i < count
        invariant
            r.wf(),
            r.bytes() == b,
            b == body@,
            i <= count,
            vorbis_comment_spec(b) == (match comments_spec(b, first, count as nat) {
                Ok(c) => Ok(VorbisCommentView { vendor: vendor@, comments: c }),
                Err(e) => Err(e),
            }),
            comments_spec(b, first, count as nat) == prepend_comments(
                comments@.map_values(|c: String| c@),
                comments_spec(b, r.pos(), (count - i) as nat),
            ),
        decreases count - i,
    {
        let ghost p = r.pos();
        let ghost done = comments@.map_values(|c: String| c@);
        proof {
            reveal_with_fuel(comments_spec, 1);
        }
        let len = match body_le_u32(&mut r) {
            Ok(v) => v,
            Err(e) => {
                assert(comments_spec(b, p, (count - i) as nat) == Err::<Seq<Seq<char>>, FlacError>(e));
                return Err(e);
            },
        };
        let bytes = match body_bytes(&mut r, len) {
            Ok(v) => v,
            Err(e) => {
                assert(le32_at(b, p) == len);
                assert(comments_spec(b, p, (count - i) as nat) == Err::<Seq<Seq<char>>, FlacError>(e));
                return Err(e);
            },
        };
        let entry = text_or_empty(decode_utf8(bytes));
        comments.push(entry);
        i = i + 1;
        proof {
            let next = comments@.map_values(|c: String| c@);
            assert(next =~= done + seq![text_of(b.subrange(p + 4, p + 4 + len))]);
            let rest = comments_spec(b, r.pos(), (count - i) as nat);
            match rest {
                Ok(t) => {
                    assert(done + (seq![text_of(b.subrange(p + 4, p + 4 + len))] + t) =~= next
                        + t);
                },
                Err(_) => {},
            }
        }
    }
    proof {
        assert(comments@.map_values(|c: String| c@) + Seq::<Seq<char>>::empty() =~= comments@.map_values(
            |c: String| c@,
        ));
    }
    Ok(VorbisComment { vendor, comments })
}

/// Decodes the body of a picture block: `None` where its MIME type is not
/// UTF-8; a description that is not UTF-8 becomes the empty string.
pub fn decode_picture(body: Vec<u8>) -> (r: Result<Option<Picture>, FlacError>)
    ensures
        match r {
            Ok(Some(p)) => picture_spec(body@) == Ok::<Option<PictureView>, FlacError>(Some(p@)),
            Ok(None) => picture_spec(body@) == Ok::<Option<PictureView>, FlacError>(None),
            Err(e) => picture_spec(body@) == Err::<Option<PictureView>, FlacError>(e),
        },
{
    let ghost b = body@;
    let mut r = ByteReader::new(body);
    let picture_type = match body_be_u32(&mut r) {
        Ok(v) => v,
        Err(e) => return Err(e),
    };
    let mime_len = match body_be_u32(&mut r) {
        Ok(v) => v,
        Err(e) => return Err(e),
    };
    let mime = match body_bytes(&mut r, mime_len) {
        Ok(v) => v,
        Err(e) => return Err(e),
    };
    let description_len = match body_be_u32(&mut r) {
        Ok(v) => v,
        Err(e) => return Err(e),
    };
    let description = match body_bytes(&mut r, description_len) {
        Ok(v) => v,
        Err(e) => return Err(e),
    };
    let width = match body_be_u32(&mut r) {
        Ok(v) => v,
        Err(e) => return Err(e),
    };
    let height = match body_be_u32(&mut r) {
        Ok(v) => v,
        Err(e) => return Err(e),
    };
    let depth = match body_be_u32(&mut r) {
        Ok(v) => v,
        Err(e) => return Err(e),
    };
    let index_colors = match body_be_u32(&mut r) {
        Ok(v) => v,
        Err(e) => return Err(e),
    };
    let image_len = match body_be_u32(&mut r) {
        Ok(v) => v,
        Err(e) => return Err(e),
    };
    let image = match body_bytes(&mut r, image_len) {
        Ok(v) => v,
        Err(e) => return Err(e),
    };
    Ok(
        Picture::from_decoded(
            picture_type,
            decode_utf8(mime),
            decode_utf8(description),
            width,
            height,
            depth,
            index_colors,
            image,
        ),
    )
}

} // verus!
