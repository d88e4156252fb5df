use png_chunks::chunk::{Chunk, ChunkData, ChunkType, INVALID_TAG_TEXT};
use png_chunks::error::{DecodeError, Field};
use png_chunks::image::Image;
use png_chunks::metadata::Signature;
use png_chunks::reader::Reader;
use png_chunks::types::{
    ColourType, CompressionMethod, FilterMethod, Idat, Ihdr, InterlaceMethod, Plte,
    RenderingIntent, Rgb, Unknown, sRGB,
};

const SIG: [u8; 8] = [0x89, b'P', b'N', b'G', 0x0d, 0x0a, 0x1a, 0x0a];

fn chunk_bytes(tag: &[u8; 4], payload: &[u8], crc: u32) -> Vec<u8> {
    let mut v = Vec::new();
    v.extend_from_slice(&(payload.len() as u32).to_be_bytes());
    v.extend_from_slice(tag);
    v.extend_from_slice(payload);
    v.extend_from_slice(&crc.to_be_bytes());
    v
}

fn header_payload() -> Vec<u8> {
    let mut p = Vec::new();
    p.extend_from_slice(&100u32.to_be_bytes());
    p.extend_from_slice(&50u32.to_be_bytes());
    p.extend_from_slice(&[8, 6, 0, 0, 0]);
    p
}

fn minimal_stream() -> Vec<u8> {
    let mut s = SIG.to_vec();
    s.extend(chunk_bytes(b"IHDR", &header_payload(), 0x1122_3344));
    s.extend(chunk_bytes(b"IEND", &[], 0xae42_6082));
    s
}

fn decode_chunk(bytes: Vec<u8>) -> Result<Chunk, DecodeError> {
    let mut r = Reader::new(bytes);
    Chunk::from_reader(&mut r)
}

#[test]
fn short_input_is_truncated() {
    for n in 0..8 {
        let bytes = SIG[..n].to_vec();
        let len = bytes.len();
        let mut r = Reader::new(bytes);
        assert_eq!(Image::from_reader(&mut r, len).err(), Some(DecodeError::TruncatedInput));
    }
    let mut r = Reader::new(vec![0x00, 0x01, 0x02]);
    assert_eq!(Image::from_reader(&mut r, 3).err(), Some(DecodeError::TruncatedInput));
}

#[test]
fn wrong_magic_byte_is_bad_signature() {
    let mut s = minimal_stream();
    s[0] = 0x88;
    let len = s.len();
    let mut r = Reader::new(s);
    assert_eq!(Image::from_reader(&mut r, len).err(), Some(DecodeError::BadSignature));
}

#[test]
fn wrong_ascii_marker_is_bad_signature() {
    let mut s = minimal_stream();
    s[2] = b'n';
    let len = s.len();
    let mut r = Reader::new(s);
    assert_eq!(Image::from_reader(&mut r, len).err(), Some(DecodeError::BadSignature));
    let mut r = Reader::new(vec![0x89, 0xff, 0xfe, 0xfd, 0, 0, 0, 0]);
    assert_eq!(Signature::from_reader(&mut r).err(), Some(DecodeError::BadSignature));
}

#[test]
fn signature_reads_eight_bytes() {
    let mut r = Reader::new(minimal_stream());
    let total = r.remaining();
    assert!(Signature::from_reader(&mut r).is_ok());
    assert_eq!(r.remaining(), total - 8);
}

#[test]
fn header_wrong_length_is_invalid_length() {
    let mut p = header_payload();
    p.push(0);
    assert_eq!(
        decode_chunk(chunk_bytes(b"IHDR", &p, 0)).err(),
        Some(DecodeError::InvalidLength { length: 14 })
    );
    assert_eq!(
        decode_chunk(chunk_bytes(b"IHDR", &[], 0)).err(),
        Some(DecodeError::InvalidLength { length: 0 })
    );
}

#[test]
fn header_bad_colour_type_names_field() {
    let mut p = header_payload();
    p[9] = 5;
    assert_eq!(
        decode_chunk(chunk_bytes(b"IHDR", &p, 0)).err(),
        Some(DecodeError::InvalidEnumValue { field: Field::ColourType, value: 5 })
    );
    assert_eq!(Field::ColourType.name(), "Colour Type");
}

#[test]
fn header_bad_method_bytes() {
    let cases = [
        (10, Field::CompressionMethod),
        (11, Field::FilterMethod),
        (12, Field::InterlaceMethod),
    ];
    for (at, field) in cases {
        let mut p = header_payload();
        p[at] = 9;
        let mut r = Reader::new(p);
        assert_eq!(
            Ihdr::from_reader(&mut r, 13).err(),
            Some(DecodeError::InvalidEnumValue { field, value: 9 })
        );
    }
}

#[test]
fn header_truncated_payload() {
    let mut r = Reader::new(header_payload()[..10].to_vec());
    assert_eq!(Ihdr::from_reader(&mut r, 13).err(), Some(DecodeError::TruncatedInput));
}

#[test]
fn header_round_trip() {
    let c = decode_chunk(chunk_bytes(b"IHDR", &header_payload(), 7)).unwrap();
    let expected = Ihdr {
        width: 100,
        height: 50,
        bpp: 8,
        colour_type: ColourType::RGBA,
        compression_method: CompressionMethod::Deflate,
        filter_method: FilterMethod::NoFilter,
        interlace_method: InterlaceMethod::NoInterlace,
    };
    match c.data() {
        ChunkData::Ihdr(h) => assert_eq!(*h, expected),
        other => panic!("unexpected payload {:?}", other),
    }
    assert_eq!(c.data_len(), 13);
    assert_eq!(c.crc(), 7);
    assert_eq!(c.ctype().as_string(), "IHDR");
}

#[test]
fn header_fields_big_endian() {
    let mut p = Vec::new();
    p.extend_from_slice(&[0x01, 0x02, 0x03, 0x04, 0xff, 0x00, 0x00, 0x01]);
    p.extend_from_slice(&[16, 3, 0, 4, 1]);
    let mut r = Reader::new(p);
    let h = Ihdr::from_reader(&mut r, 13).unwrap();
    assert_eq!(h.width, 0x0102_0304);
    assert_eq!(h.height, 0xff00_0001);
    assert_eq!(h.bpp, 16);
    assert_eq!(h.colour_type, ColourType::Indexed);
    assert_eq!(h.filter_method, FilterMethod::Paeth);
    assert_eq!(h.interlace_method, InterlaceMethod::Adam7);
    assert_eq!(r.remaining(), 0);
}

#[test]
fn unknown_critical_chunk_is_refused() {
    let tag = ChunkType { data: *b"XyzW" };
    assert_eq!(
        decode_chunk(chunk_bytes(b"XyzW", &[1, 2], 0)).err(),
        Some(DecodeError::UnhandledCriticalChunk { tag })
    );
}

#[test]
fn unknown_unsafe_ancillary_is_ignored() {
    let mut bytes = chunk_bytes(b"abcd", &[1, 2, 3], 9);
    bytes.extend_from_slice(&[0xaa, 0xbb]);
    let mut r = Reader::new(bytes);
    let c = Chunk::from_reader(&mut r).unwrap();
    assert!(matches!(c.data(), ChunkData::Ignored));
    assert_eq!(c.data_len(), 3);
    assert_eq!(c.crc(), 9);
    assert_eq!(r.remaining(), 2);
}

#[test]
fn unknown_safe_ancillary_is_kept() {
    let mut bytes = chunk_bytes(b"abcD", &[5, 6, 7, 8], 1);
    bytes.push(0xee);
    let mut r = Reader::new(bytes);
    let c = Chunk::from_reader(&mut r).unwrap();
    match c.data() {
        ChunkData::Unknown(u) => assert_eq!(u.data(), &vec![5, 6, 7, 8]),
        other => panic!("unexpected payload {:?}", other),
    }
    assert_eq!(c.ctype().data, *b"abcD");
    assert_eq!(r.remaining(), 1);
}

#[test]
fn unknown_chunk_short_payload_is_truncated() {
    let mut bytes = chunk_bytes(b"abcd", &[1, 2, 3], 0);
    bytes.truncate(9);
    assert_eq!(decode_chunk(bytes).err(), Some(DecodeError::TruncatedInput));
}

#[test]
fn two_chunk_image() {
    let s = minimal_stream();
    assert_eq!(s.len(), 8 + 25 + 12);
    let len = s.len();
    let mut r = Reader::new(s);
    let img = Image::from_reader(&mut r, len).unwrap();
    assert_eq!(img.chunks.len(), 2);
    assert!(matches!(img.chunks[0].data(), ChunkData::Ihdr(_)));
    assert!(matches!(img.chunks[1].data(), ChunkData::Iend));
    assert_eq!(img.chunks[1].crc(), 0xae42_6082);
}

#[test]
fn declared_length_too_long_is_truncated() {
    let s = minimal_stream();
    let len = s.len() + 5;
    let mut r = Reader::new(s);
    assert_eq!(Image::from_reader(&mut r, len).err(), Some(DecodeError::TruncatedInput));
}

#[test]
fn no_chunks_is_empty_image() {
    let mut r = Reader::new(SIG.to_vec());
    assert_eq!(Image::from_reader(&mut r, 8).err(), Some(DecodeError::EmptyImage));
}

#[test]
fn declared_length_stops_the_loop() {
    let mut s = minimal_stream();
    s.extend_from_slice(&[0xde, 0xad]);
    let mut r = Reader::new(s);
    let img = Image::from_reader(&mut r, 8 + 25).unwrap();
    assert_eq!(img.chunks.len(), 1);
    assert_eq!(r.remaining(), 12 + 2);
}

#[test]
fn fragments_kept_in_stream_order() {
    let mut s = SIG.to_vec();
    s.extend(chunk_bytes(b"IHDR", &header_payload(), 0));
    s.extend(chunk_bytes(b"IDAT", &[1, 2], 0));
    s.extend(chunk_bytes(b"tEXt", &[b'k', 0, b'v'], 0));
    s.extend(chunk_bytes(b"IDAT", &[3], 0));
    s.extend(chunk_bytes(b"IEND", &[], 0));
    let len = s.len();
    let mut r = Reader::new(s);
    let img = Image::from_reader(&mut r, len).unwrap();
    let mut data = Vec::new();
    for c in img.chunks.iter() {
        if let ChunkData::Idat(d) = c.data() {
            data.extend_from_slice(d.compressed_data());
        }
    }
    assert_eq!(data, vec![1, 2, 3]);
    assert_eq!(img.chunks.len(), 5);
    assert!(matches!(img.chunks[2].data(), ChunkData::Ignored));
}

#[test]
fn palette_of_several_entries() {
    let c = decode_chunk(chunk_bytes(b"PLTE", &[1, 2, 3, 4, 5, 6], 0)).unwrap();
    match c.data() {
        ChunkData::Plte(p) => assert_eq!(
            p.entries(),
            &vec![Rgb { red: 1, green: 2, blue: 3 }, Rgb { red: 4, green: 5, blue: 6 }]
        ),
        other => panic!("unexpected payload {:?}", other),
    }
    let mut r = Reader::new(vec![]);
    assert!(Plte::from_reader(&mut r, 0).unwrap().entries().is_empty());
}

#[test]
fn palette_length_not_multiple_of_three() {
    let mut r = Reader::new(vec![1, 2, 3, 4]);
    assert_eq!(Plte::from_reader(&mut r, 4).err(), Some(DecodeError::InvalidLength { length: 4 }));
    let mut r = Reader::new(vec![1, 2, 3]);
    assert_eq!(Plte::from_reader(&mut r, 6).err(), Some(DecodeError::TruncatedInput));
}

#[test]
fn rendering_intent_chunk() {
    let c = decode_chunk(chunk_bytes(b"sRGB", &[2], 0)).unwrap();
    match c.data() {
        ChunkData::Srgb(s) => {
            assert_eq!(s.rendering_intent, RenderingIntent::Saturation);
            assert_eq!(s.as_string(), "Rendering Intent: Saturation");
        },
        other => panic!("unexpected payload {:?}", other),
    }
    let mut r = Reader::new(vec![4]);
    assert_eq!(
        sRGB::from_reader(&mut r, 1).err(),
        Some(DecodeError::InvalidEnumValue { field: Field::RenderingIntent, value: 4 })
    );
    let mut r = Reader::new(vec![0, 0]);
    assert_eq!(sRGB::from_reader(&mut r, 2).err(), Some(DecodeError::InvalidLength { length: 2 }));
}

#[test]
fn image_data_fragment() {
    let mut r = Reader::new(vec![9, 8, 7, 6]);
    let d = Idat::from_reader(&mut r, 3).unwrap();
    assert_eq!(d.compressed_data(), &vec![9, 8, 7]);
    assert_eq!(r.remaining(), 1);
    let mut r = Reader::new(vec![9]);
    assert_eq!(Idat::from_reader(&mut r, 2).err(), Some(DecodeError::TruncatedInput));
}

#[test]
fn unknown_payload_is_mutable() {
    let mut r = Reader::new(vec![1, 2]);
    let mut u = Unknown::from_reader(&mut r, 2).unwrap();
    u.mut_data().push(3);
    assert_eq!(u.data(), &vec![1, 2, 3]);
}

#[test]
fn chunk_type_properties() {
    let mut r = Reader::new(b"bKgD".to_vec());
    let t = ChunkType::from_reader(&mut r).unwrap();
    assert!(!t.is_critical());
    assert!(t.is_public());
    assert!(t.is_safe_to_copy());
    assert_eq!(t.as_string(), "bKgD");
    let t = ChunkType { data: *b"IhDr" };
    assert!(t.is_critical());
    assert!(!t.is_public());
    assert!(!t.is_safe_to_copy());
    let mut r = Reader::new(vec![1, 2, 3]);
    assert_eq!(ChunkType::from_reader(&mut r).err(), Some(DecodeError::TruncatedInput));
}

#[test]
fn chunk_type_invalid_text() {
    let t = ChunkType { data: [0xff, 0xfe, b'a', b'b'] };
    assert_eq!(t.as_string(), INVALID_TAG_TEXT);
    assert_eq!(INVALID_TAG_TEXT, "Invalid chunk type string, not valid UTF8");
}

#[test]
fn reader_big_endian_u32() {
    let mut r = Reader::new(vec![0x01, 0x02, 0x03, 0x04, 0x05]);
    assert_eq!(r.read_u32_be(), Ok(0x0102_0304));
    assert_eq!(r.read_u32_be(), Err(DecodeError::TruncatedInput));
    assert_eq!(r.read_bytes(1), Ok(vec![0x05]));
}

#[test]
fn enum_bytes_map_to_variants() {
    assert_eq!(ColourType::from_byte(0), Ok(ColourType::Grayscale));
    assert_eq!(ColourType::from_byte(2), Ok(ColourType::RGB));
    assert_eq!(ColourType::from_byte(4), Ok(ColourType::GrayscaleAlpha));
    assert_eq!(
        ColourType::from_byte(1),
        Err(DecodeError::InvalidEnumValue { field: Field::ColourType, value: 1 })
    );
    assert_eq!(CompressionMethod::from_byte(0), Ok(CompressionMethod::Deflate));
    assert_eq!(FilterMethod::from_byte(2), Ok(FilterMethod::Up));
    assert_eq!(FilterMethod::from_byte(3), Ok(FilterMethod::Average));
    assert_eq!(InterlaceMethod::from_byte(1), Ok(InterlaceMethod::Adam7));
    assert_eq!(RenderingIntent::from_byte(1), Ok(RenderingIntent::RelativeColorimetric));
    assert_eq!(RenderingIntent::from_byte(3), Ok(RenderingIntent::AbsoluteColorimetric));
    assert_eq!(RenderingIntent::Perceptual.name(), "Perceptual");
}

#[test]
fn header_bad_colour_type_before_truncation() {
    let mut p = header_payload();
    p[9] = 5;
    p.truncate(10);
    let mut r = Reader::new(p);
    assert_eq!(
        Ihdr::from_reader(&mut r, 13).err(),
        Some(DecodeError::InvalidEnumValue { field: Field::ColourType, value: 5 })
    );
    let mut p = header_payload();
    p.truncate(11);
    let mut r = Reader::new(p);
    assert_eq!(Ihdr::from_reader(&mut r, 13).err(), Some(DecodeError::TruncatedInput));
}

#[test]
fn invalid_length_reads_nothing() {
    let mut r = Reader::new(vec![1, 2, 3, 4]);
    assert_eq!(Ihdr::from_reader(&mut r, 4).err(), Some(DecodeError::InvalidLength { length: 4 }));
    assert_eq!(Plte::from_reader(&mut r, 2).err(), Some(DecodeError::InvalidLength { length: 2 }));
    assert_eq!(sRGB::from_reader(&mut r, 3).err(), Some(DecodeError::InvalidLength { length: 3 }));
    assert_eq!(r.remaining(), 4);
}

#[test]
fn bad_signature_consumes_eight_bytes() {
    let mut r = Reader::new(vec![0x00, b'P', b'N', b'G', 0, 0, 0, 0, 0xaa]);
    assert_eq!(Signature::from_reader(&mut r).err(), Some(DecodeError::BadSignature));
    assert_eq!(r.remaining(), 1);
}

#[test]
fn time_chunk_is_ignored() {
    let mut bytes = chunk_bytes(b"tIMe", &[7, 7], 0);
    bytes.push(9);
    let mut r = Reader::new(bytes);
    let c = Chunk::from_reader(&mut r).unwrap();
    assert!(matches!(c.data(), ChunkData::Ignored));
    assert_eq!(c.data_len(), 2);
    assert_eq!(r.remaining(), 1);
}

#[test]
fn end_marker_does_not_stop_the_loop() {
    let mut s = minimal_stream();
    s.extend(chunk_bytes(b"tIMe", &[], 0));
    assert_eq!(s.len(), 57);
    let mut r = Reader::new(s);
    let img = Image::from_reader(&mut r, 57).unwrap();
    assert_eq!(img.chunks.len(), 3);
    assert!(matches!(img.chunks[1].data(), ChunkData::Iend));
    assert!(matches!(img.chunks[2].data(), ChunkData::Ignored));
}
