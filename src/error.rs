use vstd::prelude::*;
use crate::chunk::ChunkType;

verus! {

/// A fixed-domain field of a chunk payload.
#[derive(Clone, Copy, Debug, PartialEq, Eq)]
pub enum Field {
    ColourType,
    CompressionMethod,
    FilterMethod,
    InterlaceMethod,
    RenderingIntent,
}

impl Field {
    pub open spec fn spec_name(&self) -> Seq<char> {
        match self {
            Field::ColourType => "Colour Type"@,
            Field::CompressionMethod => "Compression Method"@,
            Field::FilterMethod => "Filter Method"@,
            Field::InterlaceMethod => "Interlace Method"@,
            Field::RenderingIntent => "Rendering Intent"@,
        }
    }

    /// The human-readable name of the field, as used in diagnostics.
    pub fn name(&self) -> (r: &'static str)
        ensures
            r@ == self.spec_name(),
    {
        match self {
            Field::ColourType => "Colour Type",
            Field::CompressionMethod => "Compression Method",
            Field::FilterMethod => "Filter Method",
            Field::InterlaceMethod => "Interlace Method",
            Field::RenderingIntent => "Rendering Intent",
        }
    }
}

/// Why a decode failed. Every failure abandons the whole decode.
#[derive(Clone, Copy, Debug, PartialEq, Eq)]
pub enum DecodeError {
    /// Fewer bytes were available than a field or payload requires.
    TruncatedInput,
    /// The magic byte or the ASCII marker of the signature did not match.
    BadSignature,
    /// A chunk's declared length does not fit the structure of its type.
    InvalidLength { length: usize },
    /// A fixed-domain field holds a value outside its set.
    InvalidEnumValue { field: Field, value: u8 },
    /// An unrecognised chunk type that is marked critical.
    UnhandledCriticalChunk { tag: ChunkType },
    /// The stream held no chunk at all.
    EmptyImage,
}

} // verus!
