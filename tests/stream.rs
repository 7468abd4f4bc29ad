use claxon::blocks::{decode_picture, decode_vorbis_comment, Picture};
use claxon::metadata::{read_block_header, read_streaminfo_block, BlockHeader, StreamInfo};
use claxon::stream::{read_metadata_block, read_stream_header, MetadataBlock};
use claxon::text::text_or_empty;
use claxon::{ByteReader, FlacError, FlacStream, ParsedMetadata};

fn marker() -> Vec<u8> {
    b"fLaC".to_vec()
}

fn block_header(is_last: bool, block_type: u8, length: u32) -> Vec<u8> {
    let word = ((is_last as u32) << 31) | ((block_type as u32) << 24) | length;
    word.to_be_bytes().to_vec()
}

fn streaminfo_body(channels: u64, bits_per_sample: u64) -> Vec<u8> {
    let mut b = Vec::new();
    b.extend_from_slice(&4096u16.to_be_bytes());
    b.extend_from_slice(&4096u16.to_be_bytes());
    b.extend_from_slice(&14u32.to_be_bytes()[1..]);
    b.extend_from_slice(&8000u32.to_be_bytes()[1..]);
    let packed: u64 =
        (44100u64 << 44) | ((channels - 1) << 41) | ((bits_per_sample - 1) << 36) | 1_000_000;
    b.extend_from_slice(&packed.to_be_bytes());
    for i in 0..16u8 {
        b.push(i);
    }
    b
}

fn streaminfo_block(is_last: bool) -> Vec<u8> {
    let mut b = block_header(is_last, 0, 34);
    b.extend(streaminfo_body(2, 16));
    b
}

fn le_string(s: &[u8]) -> Vec<u8> {
    let mut b = (s.len() as u32).to_le_bytes().to_vec();
    b.extend_from_slice(s);
    b
}

fn vorbis_body(vendor: &[u8], comments: &[&[u8]]) -> Vec<u8> {
    let mut b = le_string(vendor);
    b.extend_from_slice(&(comments.len() as u32).to_le_bytes());
    for c in comments {
        b.extend(le_string(c));
    }
    b
}

fn be_string(s: &[u8]) -> Vec<u8> {
    let mut b = (s.len() as u32).to_be_bytes().to_vec();
    b.extend_from_slice(s);
    b
}

fn picture_body(mime: &[u8], description: &[u8], image: &[u8]) -> Vec<u8> {
    let mut b = 3u32.to_be_bytes().to_vec();
    b.extend(be_string(mime));
    b.extend(be_string(description));
    for v in [640u32, 480, 24, 0] {
        b.extend_from_slice(&v.to_be_bytes());
    }
    b.extend(be_string(image));
    b
}

fn with_block(mut stream: Vec<u8>, is_last: bool, block_type: u8, body: &[u8]) -> Vec<u8> {
    stream.extend(block_header(is_last, block_type, body.len() as u32));
    stream.extend_from_slice(body);
    stream
}

fn open(bytes: Vec<u8>) -> (Result<FlacStream, FlacError>, ByteReader) {
    let mut input = ByteReader::new(bytes);
    let r = FlacStream::new(&mut input);
    (r, input)
}

fn error_of(r: Result<FlacStream, FlacError>) -> Option<FlacError> {
    r.err()
}

fn expected_streaminfo() -> StreamInfo {
    StreamInfo {
        min_block_size: 4096,
        max_block_size: 4096,
        min_frame_size: 14,
        max_frame_size: 8000,
        sample_rate: 44100,
        channels: 2,
        bits_per_sample: 16,
        samples: 1_000_000,
        md5sum: 0x0001_0203_0405_0607_0809_0a0b_0c0d_0e0f,
    }
}

#[test]
fn test_open_stream() {
    let mut bytes = marker();
    bytes.extend(streaminfo_block(true));
    let (r, _) = open(bytes);
    let flac_stream = r.unwrap();
    assert_eq!(*flac_stream.streaminfo(), expected_streaminfo());
}

#[test]
fn streaminfo_fields_are_decoded() {
    let mut input = ByteReader::new(streaminfo_body(8, 32));
    let info = read_streaminfo_block(&mut input).unwrap();
    assert_eq!(info.channels, 8);
    assert_eq!(info.bits_per_sample, 32);
    assert_eq!(info.sample_rate, 44100);
    assert_eq!(info.samples, 1_000_000);
    assert_eq!(input.position(), 34);
}

#[test]
fn streaminfo_channels_and_bits_stay_in_range() {
    for channels in 1..=8u64 {
        for bits in 4..=32u64 {
            let mut input = ByteReader::new(streaminfo_body(channels, bits));
            let info = read_streaminfo_block(&mut input).unwrap();
            assert!(1 <= info.channels && info.channels <= 8);
            assert!(4 <= info.bits_per_sample && info.bits_per_sample <= 32);
            assert_eq!(info.channels as u64, channels);
            assert_eq!(info.bits_per_sample as u64, bits);
        }
    }
}

#[test]
fn streaminfo_with_three_bits_per_sample_is_rejected() {
    let mut input = ByteReader::new(streaminfo_body(2, 3));
    assert_eq!(read_streaminfo_block(&mut input), Err(FlacError::InvalidBitsPerSample));
    let mut bytes = marker();
    bytes = with_block(bytes, true, 0, &streaminfo_body(2, 3));
    assert_eq!(error_of(open(bytes).0), Some(FlacError::InvalidBitsPerSample));
}

#[test]
fn parsing_twice_gives_equal_results() {
    let mut bytes = marker();
    bytes.extend(streaminfo_block(false));
    bytes = with_block(bytes, true, 4, &vorbis_body(b"ref", &[b"TITLE=x"]));
    let a = open(bytes.clone()).0.unwrap();
    let b = open(bytes).0.unwrap();
    assert_eq!(a.streaminfo(), b.streaminfo());
    let ca = a.metadata().vorbis_comment.as_ref().unwrap();
    let cb = b.metadata().vorbis_comment.as_ref().unwrap();
    assert_eq!(ca.vendor, cb.vendor);
    assert_eq!(ca.comments, cb.comments);
}

#[test]
fn ogg_marker_is_an_invalid_stream_header() {
    let mut bytes = b"OggS".to_vec();
    bytes.extend(streaminfo_block(true));
    let (r, input) = open(bytes);
    assert_eq!(error_of(r), Some(FlacError::InvalidStreamHeader));
    assert_eq!(input.position(), 4);
}

#[test]
fn stream_header_check() {
    let mut input = ByteReader::new(marker());
    assert_eq!(read_stream_header(&mut input), Ok(()));
    let mut short = ByteReader::new(b"fLa".to_vec());
    assert_eq!(read_stream_header(&mut short), Err(FlacError::UnexpectedEof));
    assert_eq!(short.position(), 0);
}

#[test]
fn padding_first_means_missing_streaminfo() {
    let mut bytes = marker();
    bytes = with_block(bytes, false, 1, &[0u8; 10]);
    bytes.extend(streaminfo_block(true));
    let (r, input) = open(bytes.clone());
    assert_eq!(error_of(r), Some(FlacError::MissingStreamInfoBlock));
    assert_eq!(input.position(), bytes.len());
}

#[test]
fn streaminfo_length_33_is_rejected_unread() {
    let mut bytes = marker();
    let body = streaminfo_body(2, 16);
    bytes = with_block(bytes, true, 0, &body[..33]);
    let (r, _) = open(bytes.clone());
    assert_eq!(error_of(r), Some(FlacError::InvalidStreamInfoLength));

    let mut input = ByteReader::new(bytes);
    read_stream_header(&mut input).unwrap();
    let header = read_block_header(&mut input).unwrap();
    assert_eq!(header, BlockHeader { is_last: true, block_type: 0, length: 33 });
    let r = read_metadata_block(&mut input, header);
    assert_eq!(r.err(), Some(FlacError::InvalidStreamInfoLength));
    assert_eq!(input.position(), 8);
}

#[test]
fn picture_with_empty_mime_is_kept() {
    let mut bytes = marker();
    bytes.extend(streaminfo_block(false));
    bytes = with_block(bytes, true, 6, &picture_body(b"", b"cover", &[1, 2, 3]));
    let stream = open(bytes).0.unwrap();
    let picture = stream.metadata().picture.as_ref().unwrap();
    assert_eq!(picture.mime, "");
    assert_eq!(picture.description, "cover");
    assert_eq!(picture.picture_type, 3);
    assert_eq!((picture.width, picture.height, picture.depth, picture.index_colors), (640, 480, 24, 0));
    assert_eq!(picture.image, vec![1, 2, 3]);
}

#[test]
fn picture_with_non_text_mime_is_dropped() {
    let r = decode_picture(picture_body(&[0xff, 0xfe], b"cover", &[9])).unwrap();
    assert!(r.is_none());
    let mut bytes = marker();
    bytes.extend(streaminfo_block(false));
    bytes = with_block(bytes, true, 6, &picture_body(&[0xc3, 0x28], b"", &[]));
    let stream = open(bytes).0.unwrap();
    assert!(stream.metadata().picture.is_none());
}

#[test]
fn picture_with_non_text_description_keeps_the_rest() {
    let p = decode_picture(picture_body(b"image/png", &[0x80], &[7, 7])).unwrap().unwrap();
    assert_eq!(p.mime, "image/png");
    assert_eq!(p.description, "");
    assert_eq!(p.image, vec![7, 7]);
}

#[test]
fn picture_field_past_block_end_is_truncated() {
    let mut body = picture_body(b"image/png", b"", &[1, 2, 3, 4]);
    body.truncate(body.len() - 1);
    assert_eq!(decode_picture(body).err(), Some(FlacError::TruncatedBlock));
    assert_eq!(decode_picture(vec![0, 0, 0]).err(), Some(FlacError::TruncatedBlock));
}

#[test]
fn tag_list_entry_that_is_not_text_becomes_empty() {
    let body = vorbis_body(b"vendor", &[b"ARTIST=a", &[0x41, 0x3d, 0xff], b"TITLE=t"]);
    let c = decode_vorbis_comment(body).unwrap();
    assert_eq!(c.vendor, "vendor");
    assert_eq!(c.comments, vec!["ARTIST=a".to_string(), String::new(), "TITLE=t".to_string()]);
}

#[test]
fn tag_list_length_fields_are_little_endian() {
    let body = vec![1, 0, 0, 0, b'v', 1, 0, 0, 0, 3, 0, 0, 0, b'A', b'=', b'b'];
    let c = decode_vorbis_comment(body).unwrap();
    assert_eq!(c.vendor, "v");
    assert_eq!(c.comments, vec!["A=b".to_string()]);
}

#[test]
fn tag_list_count_past_block_end_is_truncated() {
    let mut body = vorbis_body(b"v", &[b"A=b"]);
    body[5] = 2;
    assert_eq!(decode_vorbis_comment(body).err(), Some(FlacError::TruncatedBlock));
    assert_eq!(decode_vorbis_comment(vec![1, 0]).err(), Some(FlacError::TruncatedBlock));
}

#[test]
fn later_tag_list_and_picture_replace_earlier_ones() {
    let mut bytes = marker();
    bytes.extend(streaminfo_block(false));
    bytes = with_block(bytes, false, 4, &vorbis_body(b"one", &[]));
    bytes = with_block(bytes, false, 6, &picture_body(b"image/png", b"", &[]));
    bytes = with_block(bytes, false, 4, &vorbis_body(b"two", &[b"K=V"]));
    bytes = with_block(bytes, true, 6, &picture_body(b"image/jpeg", b"", &[]));
    let stream = open(bytes).0.unwrap();
    let m: &ParsedMetadata = stream.metadata();
    assert_eq!(m.vorbis_comment.as_ref().unwrap().vendor, "two");
    assert_eq!(m.picture.as_ref().unwrap().mime, "image/jpeg");
    assert_eq!(m.info, Some(expected_streaminfo()));
}

#[test]
fn unknown_block_63_is_skipped() {
    let mut bytes = marker();
    bytes.extend(streaminfo_block(false));
    bytes = with_block(bytes, false, 63, &[0xaa; 7]);
    bytes = with_block(bytes, true, 4, &vorbis_body(b"after", &[]));
    let end = bytes.len();
    bytes.extend_from_slice(&[0xff, 0xf8]);
    let (r, input) = open(bytes.clone());
    let stream = r.unwrap();
    assert_eq!(stream.metadata().vorbis_comment.as_ref().unwrap().vendor, "after");
    assert_eq!(input.position(), end);

    let mut input = ByteReader::new(bytes);
    input.skip(4 + 38).unwrap();
    let header = read_block_header(&mut input).unwrap();
    assert_eq!(header, BlockHeader { is_last: false, block_type: 63, length: 7 });
    let before = input.position();
    assert!(matches!(read_metadata_block(&mut input, header), Ok(MetadataBlock::Skipped)));
    assert_eq!(input.position(), before + 7);
}

#[test]
fn duplicate_streaminfo_is_rejected() {
    let mut bytes = marker();
    bytes.extend(streaminfo_block(false));
    bytes.extend(streaminfo_block(true));
    assert_eq!(error_of(open(bytes).0), Some(FlacError::DuplicateStreamInfo));
}

#[test]
fn reserved_block_type_is_rejected() {
    let mut bytes = marker();
    bytes.extend(streaminfo_block(false));
    bytes = with_block(bytes, true, 127, &[0; 4]);
    assert_eq!(error_of(open(bytes).0), Some(FlacError::ReservedBlockType));
}

#[test]
fn stream_cut_short_is_unexpected_eof() {
    let mut bytes = marker();
    bytes.extend(streaminfo_block(false));
    assert_eq!(error_of(open(bytes.clone()).0), Some(FlacError::UnexpectedEof));
    bytes = with_block(bytes, true, 1, &[0; 10]);
    bytes.truncate(bytes.len() - 1);
    assert_eq!(error_of(open(bytes).0), Some(FlacError::UnexpectedEof));
    assert_eq!(error_of(open(Vec::new()).0), Some(FlacError::UnexpectedEof));
}

#[test]
fn block_header_bits() {
    let mut input = ByteReader::new(vec![0x84, 0x00, 0x01, 0x02]);
    let h = read_block_header(&mut input).unwrap();
    assert_eq!(h, BlockHeader { is_last: true, block_type: 4, length: 0x0102 });
    let mut input = ByteReader::new(vec![0x7f, 0xff, 0xff, 0xff]);
    let h = read_block_header(&mut input).unwrap();
    assert_eq!(h, BlockHeader { is_last: false, block_type: 127, length: 0xff_ffff });
}

#[test]
fn reader_reads_both_byte_orders() {
    let mut input = ByteReader::new(vec![1, 2, 3, 4, 1, 2, 3, 4, 9, 8, 7]);
    assert_eq!(input.read_be_u32(), Ok(0x0102_0304));
    assert_eq!(input.read_le_u32(), Ok(0x0403_0201));
    assert_eq!(input.read_be(2), Ok(0x0908));
    assert_eq!(input.read_exact(2), Err(FlacError::UnexpectedEof));
    assert_eq!(input.read_exact(1), Ok(vec![7]));
    assert_eq!(input.skip(1), Err(FlacError::UnexpectedEof));
    assert_eq!(input.position(), 11);
}

#[test]
fn text_or_empty_keeps_text() {
    assert_eq!(text_or_empty(Some("abc".to_string())), "abc");
    assert_eq!(text_or_empty(None), "");
}

#[test]
fn picture_from_decoded_texts() {
    let none = Picture::from_decoded(3, None, Some("d".to_string()), 1, 2, 3, 4, vec![5]);
    assert!(none.is_none());
    let p = Picture::from_decoded(3, Some("image/png".to_string()), None, 1, 2, 3, 4, vec![5])
        .unwrap();
    assert_eq!(p.mime, "image/png");
    assert_eq!(p.description, "");
    assert_eq!((p.picture_type, p.width, p.height, p.depth, p.index_colors), (3, 1, 2, 3, 4));
    assert_eq!(p.image, vec![5]);
}
