use vstd::prelude::*;
use crate::chunk::{
    ChunkType, ChunkView, PayloadView, ihdr_tag, is_known_tag, spec_chunk, upper_latin1,
};
use crate::error::{DecodeError, Field};
use crate::image::spec_image;
use crate::reader::be_u32;

verus! {

/// The tag that a chunk at the front of `s` carries is bytes 4 to 8 of `s`.
proof fn lemma_tag_view(s: Seq<u8>)
    requires
        s.len() >= 8,
    ensures
        ChunkType::spec_from(s.skip(4))@ == s.subrange(4, 8),
{
    let t = ChunkType::spec_from(s.skip(4));
    assert(t@ =~= s.subrange(4, 8));
}

/// An input shorter than the 8-byte signature fails as truncated, never as a bad signature.
pub proof fn lemma_short_input_is_truncated(s: Seq<u8>, total: int)
    requires
        s.len() < 8,
    ensures
        spec_image(s, total) == Err::<Seq<ChunkView>, DecodeError>(DecodeError::TruncatedInput),
{
}

/// An input of at least 8 bytes that does not start with 0x89 followed by "PNG" fails
/// with a bad signature.
pub proof fn lemma_wrong_magic_is_bad_signature(s: Seq<u8>, total: int)
    requires
        s.len() >= 8,
        s[0] != 0x89 || s[1] != 0x50 || s[2] != 0x4e || s[3] != 0x47,
    ensures
        spec_image(s, total) == Err::<Seq<ChunkView>, DecodeError>(DecodeError::BadSignature),
{
}

/// A header chunk whose declared length is not 13 fails with that length as invalid,
/// whatever its payload holds.
pub proof fn lemma_header_length_must_be_13(s: Seq<u8>)
    requires
        s.len() >= 8,
        s.subrange(4, 8) == ihdr_tag(),
        be_u32(s) != 13,
    ensures
        spec_chunk(s) == Err::<(ChunkView, nat), DecodeError>(
            DecodeError::InvalidLength { length: be_u32(s) as usize },
        ),
{
    lemma_tag_view(s);
}

/// A header of declared length 13 whose colour-type byte (payload byte 9) is present and
/// not 0, 2, 3, 4 or 6 fails with an invalid value of the colour type field, however many
/// later bytes follow.
pub proof fn lemma_header_bad_colour_type(s: Seq<u8>)
    requires
        s.len() >= 8 + 10,
        s.subrange(4, 8) == ihdr_tag(),
        be_u32(s) == 13,
        s[17] != 0 && s[17] != 2 && s[17] != 3 && s[17] != 4 && s[17] != 6,
    ensures
        spec_chunk(s) == Err::<(ChunkView, nat), DecodeError>(
            DecodeError::InvalidEnumValue { field: Field::ColourType, value: s[17] },
        ),
{
    lemma_tag_view(s);
    assert(s.skip(8)[9] == s[17]);
}

/// An unrecognised chunk type whose first letter is upper case (critical) is refused.
pub proof fn lemma_unknown_critical_is_refused(s: Seq<u8>)
    requires
        s.len() >= 8,
        upper_latin1(s[4]),
        !is_known_tag(s.subrange(4, 8)),
    ensures
        spec_chunk(s) == Err::<(ChunkView, nat), DecodeError>(
            DecodeError::UnhandledCriticalChunk { tag: ChunkType::spec_from(s.skip(4)) },
        ),
{
    lemma_tag_view(s);
}

/// An unrecognised ancillary chunk type that is not safe to copy is skipped: the chunk
/// decodes to an empty marker and reads exactly 12 bytes plus its declared length.
pub proof fn lemma_unknown_unsafe_ancillary_is_ignored(s: Seq<u8>)
    requires
        s.len() >= 12 + be_u32(s),
        !upper_latin1(s[4]),
        !upper_latin1(s[7]),
        !is_known_tag(s.subrange(4, 8)),
    ensures
        spec_chunk(s) == Ok::<(ChunkView, nat), DecodeError>(
            (
                ChunkView {
                    length: be_u32(s),
                    tag: ChunkType::spec_from(s.skip(4)),
                    payload: PayloadView::Ignored,
                    crc: be_u32(s.skip(8 + be_u32(s))),
                },
                (12 + be_u32(s)) as nat,
            ),
        ),
{
    lemma_tag_view(s);
}

/// An unrecognised ancillary chunk type that is safe to copy is kept: its retained bytes
/// are exactly the declared-length payload that follows the tag.
pub proof fn lemma_unknown_safe_ancillary_is_kept(s: Seq<u8>)
    requires
        s.len() >= 12 + be_u32(s),
        !upper_latin1(s[4]),
        upper_latin1(s[7]),
        !is_known_tag(s.subrange(4, 8)),
    ensures
        spec_chunk(s) == Ok::<(ChunkView, nat), DecodeError>(
            (
                ChunkView {
                    length: be_u32(s),
                    tag: ChunkType::spec_from(s.skip(4)),
                    payload: PayloadView::Preserved(s.subrange(8, 8 + be_u32(s))),
                    crc: be_u32(s.skip(8 + be_u32(s))),
                },
                (12 + be_u32(s)) as nat,
            ),
        ),
{
    lemma_tag_view(s);
    assert(s.skip(8).take(be_u32(s) as int) =~= s.subrange(8, 8 + be_u32(s)));
}

} // verus!
