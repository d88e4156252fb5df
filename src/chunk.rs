use vstd::prelude::*;
use crate::error::DecodeError;
use crate::reader::{Reader, be_u32};
use crate::types::{
    Idat, Ihdr, Plte, RenderingIntent, Rgb, Unknown, sRGB, spec_ihdr, spec_palette, spec_srgb,
};

verus! {

/// Whether the byte, read as a Latin-1 character, has the Unicode Uppercase property:
/// `A` to `Z`, and the letters U+00C0 to U+00D6 and U+00D8 to U+00DE.
pub open spec fn upper_latin1(b: u8) -> bool {
    (0x41 <= b && b <= 0x5a) || (0xc0 <= b && b <= 0xd6) || (0xd8 <= b && b <= 0xde)
}

/// What UTF-8 decoding makes of a byte sequence: its characters, or `None` when the
/// bytes are not valid UTF-8.
pub uninterp spec fn utf8_text(b: Seq<u8>) -> Option<Seq<char>>;

/// Relies on `char::is_uppercase`, applied to the byte taken as a character (U+0000 to
/// U+00FF): whether that character has the Uppercase property.
#[verifier::external_body]
fn byte_is_uppercase(b: u8) -> (r: bool)
    ensures
        r == upper_latin1(b),
{
    (b as char).is_uppercase()
}

/// Relies on `std::str::from_utf8`: the text that the bytes encode, if they are valid UTF-8.
#[verifier::external_body]
fn decode_utf8(b: &[u8]) -> (r: Option<&str>)
    ensures
        match r {
            Some(s) => utf8_text(b@) == Some(s@),
            None => utf8_text(b@) is None,
        },
{
    std::str::from_utf8(b).ok()
}

/// The four-byte type tag of a chunk. The case of each letter carries a property bit.
#[derive(Clone, Copy, Debug, PartialEq, Eq)]
pub struct ChunkType {
    pub data: [u8; 4],
}

/// The text shown for a tag whose bytes are not valid UTF-8.
pub const INVALID_TAG_TEXT: &'static str = "Invalid chunk type string, not valid UTF8";

impl View for ChunkType {
    type V = Seq<u8>;

    open spec fn view(&self) -> Seq<u8> {
        self.data@
    }
}

impl ChunkType {
    /// The tag whose bytes are the first four of `s`.
    pub open spec fn spec_from(s: Seq<u8>) -> ChunkType {
        ChunkType { data: [s[0], s[1], s[2], s[3]] }
    }

    pub open spec fn spec_critical(&self) -> bool {
        upper_latin1(self.data[0])
    }

    pub open spec fn spec_public(&self) -> bool {
        upper_latin1(self.data[1])
    }

    pub open spec fn spec_safe_to_copy(&self) -> bool {
        upper_latin1(self.data[3])
    }

    /// Reads the four tag bytes, or fails with `TruncatedInput` when fewer are left.
    pub fn from_reader(r: &mut Reader) -> (res: Result<ChunkType, DecodeError>)
        requires
            old(r).wf(),
        ensures
            final(r).wf(),
            match res {
                Ok(t) => 4 <= old(r)@.len() && t == ChunkType::spec_from(old(r)@)
                    && final(r)@ == old(r)@.skip(4),
                Err(e) => old(r)@.len() < 4 && e == DecodeError::TruncatedInput,
            },
    {
        let b = match r.read_bytes(4) {
            Ok(b) => b,
            Err(e) => return Err(e),
        };
        let t = ChunkType { data: [b[0], b[1], b[2], b[3]] };
        assert(t.data@ =~= ChunkType::spec_from(old(r)@).data@);
        Ok(t)
    }

    /// A critical chunk must be understood to decode the image: its first letter is upper case.
    pub fn is_critical(&self) -> (r: bool)
        ensures
            r == self.spec_critical(),
            self.data[0] < 0x80 ==> (r <==> (0x41 <= self.data[0] && self.data[0] <= 0x5a)),
    {
        byte_is_uppercase(self.data[0])
    }

    /// A public chunk type is one of the standard's: its second letter is upper case.
    pub fn is_public(&self) -> (r: bool)
        ensures
            r == self.spec_public(),
            self.data[1] < 0x80 ==> (r <==> (0x41 <= self.data[1] && self.data[1] <= 0x5a)),
    {
        byte_is_uppercase(self.data[1])
    }

    /// A chunk type that may be copied unchanged by an editor: its fourth letter is upper case.
    pub fn is_safe_to_copy(&self) -> (r: bool)
        ensures
            r == self.spec_safe_to_copy(),
            self.data[3] < 0x80 ==> (r <==> (0x41 <= self.data[3] && self.data[3] <= 0x5a)),
    {
        byte_is_uppercase(self.data[3])
    }

    /// The tag as text, or a fixed placeholder when its bytes are not valid UTF-8.
    pub fn as_string(&self) -> (r: &str)
        ensures
            r@ == match utf8_text(self@) {
                Some(s) => s,
                None => INVALID_TAG_TEXT@,
            },
    {
        match decode_utf8(self.data.as_slice()) {
            Some(s) => s,
            None => INVALID_TAG_TEXT,
        }
    }
}

/// Bytes a chunk occupies besides its payload: length, tag and checksum fields.
pub const CHUNK_META_SIZE: usize = 12;

pub open spec fn ihdr_tag() -> Seq<u8> {
    seq![0x49u8, 0x48u8, 0x44u8, 0x52u8]
}

pub open spec fn plte_tag() -> Seq<u8> {
    seq![0x50u8, 0x4cu8, 0x54u8, 0x45u8]
}

pub open spec fn idat_tag() -> Seq<u8> {
    seq![0x49u8, 0x44u8, 0x41u8, 0x54u8]
}

pub open spec fn iend_tag() -> Seq<u8> {
    seq![0x49u8, 0x45u8, 0x4eu8, 0x44u8]
}

pub open spec fn srgb_tag() -> Seq<u8> {
    seq![0x73u8, 0x52u8, 0x47u8, 0x42u8]
}

/// Whether the tag is one of those this decoder interprets.
pub open spec fn is_known_tag(t: Seq<u8>) -> bool {
    t == ihdr_tag() || t == plte_tag() || t == idat_tag() || t == iend_tag() || t == srgb_tag()
}

/// What a decoded payload holds, as plain values.
pub enum PayloadView {
    Header(Ihdr),
    Palette(Seq<Rgb>),
    Data(Seq<u8>),
    Intent(RenderingIntent),
    Preserved(Seq<u8>),
    Ignored,
    End,
}

/// What a decoded chunk holds, as plain values.
pub struct ChunkView {
    pub length: u32,
    pub tag: ChunkType,
    pub payload: PayloadView,
    pub crc: u32,
}

/// The payload of a chunk with tag `t` and declared length `n`, decoded from the front of
/// `s`, with the number of bytes that its decoding reads.
pub open spec fn spec_payload(s: Seq<u8>, t: ChunkType, n: u32) -> Result<
    (PayloadView, nat),
    DecodeError,
> {
    if t@ == ihdr_tag() {
        match spec_ihdr(s, n as usize) {
            Ok(h) => Ok((PayloadView::Header(h), 13nat)),
            Err(e) => Err(e),
        }
    } else if t@ == plte_tag() {
        if n % 3 != 0 {
            Err(DecodeError::InvalidLength { length: n as usize })
        } else if s.len() < n {
            Err(DecodeError::TruncatedInput)
        } else {
            Ok((PayloadView::Palette(spec_palette(s.take(n as int))), n as nat))
        }
    } else if t@ == idat_tag() {
        if s.len() < n {
            Err(DecodeError::TruncatedInput)
        } else {
            Ok((PayloadView::Data(s.take(n as int)), n as nat))
        }
    } else if t@ == srgb_tag() {
        match spec_srgb(s, n as usize) {
            Ok(i) => Ok((PayloadView::Intent(i), 1nat)),
            Err(e) => Err(e),
        }
    } else if t@ == iend_tag() {
        Ok((PayloadView::End, 0nat))
    } else if t.spec_critical() {
        Err(DecodeError::UnhandledCriticalChunk { tag: t })
    } else if s.len() < n {
        Err(DecodeError::TruncatedInput)
    } else if t.spec_safe_to_copy() {
        Ok((PayloadView::Preserved(s.take(n as int)), n as nat))
    } else {
        Ok((PayloadView::Ignored, n as nat))
    }
}

/// The chunk at the front of `s`, with the number of bytes that decoding it reads.
pub open spec fn spec_chunk(s: Seq<u8>) -> Result<(ChunkView, nat), DecodeError> {
    if s.len() < 8 {
        Err(DecodeError::TruncatedInput)
    } else {
        let n = be_u32(s);
        let t = ChunkType::spec_from(s.skip(4));
        match spec_payload(s.skip(8), t, n) {
            Err(e) => Err(e),
            Ok((p, k)) => if s.len() < 8 + k + 4 {
                Err(DecodeError::TruncatedInput)
            } else {
                Ok(
                    (
                        ChunkView { length: n, tag: t, payload: p, crc: be_u32(s.skip(8 + k as int)) },
                        8 + k + 4,
                    ),
                )
            },
        }
    }
}

/// One chunk of the stream: declared payload length, type tag, decoded payload, checksum.
pub struct Chunk {
    data_length: u32,
    t: ChunkType,
    data: ChunkData,
    crc: u32,
}

/// The decoded payload of a chunk.
#[derive(Debug)]
pub enum ChunkData {
    Ihdr(Ihdr),
    Plte(Plte),
    Idat(Idat),
    Srgb(sRGB),
    Unknown(Unknown),
    Ignored,
    Iend,
}

impl View for ChunkData {
    type V = PayloadView;

    open spec fn view(&self) -> PayloadView {
        match self {
            ChunkData::Ihdr(h) => PayloadView::Header(*h),
            ChunkData::Plte(p) => PayloadView::Palette(p@),
            ChunkData::Idat(d) => PayloadView::Data(d@),
            ChunkData::Srgb(i) => PayloadView::Intent(i.rendering_intent),
            ChunkData::Unknown(u) => PayloadView::Preserved(u@),
            ChunkData::Ignored => PayloadView::Ignored,
            ChunkData::Iend => PayloadView::End,
        }
    }
}

impl View for Chunk {
    type V = ChunkView;

    closed spec fn view(&self) -> ChunkView {
        ChunkView { length: self.data_length, tag: self.t, payload: self.data@, crc: self.crc }
    }
}

/// Whether the tag `t` is exactly the four bytes `a`, `b`, `c`, `d`.
fn tag_is(t: &ChunkType, a: u8, b: u8, c: u8, d: u8) -> (r: bool)
    ensures
        r == (t@ == seq![a, b, c, d]),
{
    let r = t.data[0] == a && t.data[1] == b && t.data[2] == c && t.data[3] == d;
    assert(r ==> t@ =~= seq![a, b, c, d]);
    r
}

impl Chunk {
    /// Reads one complete chunk: length, tag, payload and checksum. Unknown critical
    /// chunk types are refused; unknown ancillary ones are kept verbatim when they are
    /// safe to copy and skipped otherwise.
    pub fn from_reader(r: &mut Reader) -> (res: Result<Chunk, DecodeError>)
        requires
            old(r).wf(),
        ensures
            final(r).wf(),
            match res {
                Ok(c) => spec_chunk(old(r)@) is Ok && spec_chunk(old(r)@)->Ok_0.0 == c@
                    && final(r)@ == old(r)@.skip(spec_chunk(old(r)@)->Ok_0.1 as int),
                Err(e) => spec_chunk(old(r)@) == Err::<(ChunkView, nat), DecodeError>(e),
            },
    {
        let ghost s = r@;
        let data_length = match r.read_u32_be() {
            Ok(n) => n,
            Err(e) => return Err(e),
        };
        let t = match ChunkType::from_reader(r) {
            Ok(t) => t,
            Err(e) => return Err(e),
        };
        assert(s.skip(4).skip(4) =~= s.skip(8));
        let n = data_length as usize;
        let data = if tag_is(&t, 0x49, 0x48, 0x44, 0x52) {
            match Ihdr::from_reader(r, n) {
                Ok(h) => ChunkData::Ihdr(h),
                Err(e) => return Err(e),
            }
        } else if tag_is(&t, 0x50, 0x4c, 0x54, 0x45) {
            match Plte::from_reader(r, n) {
                Ok(p) => ChunkData::Plte(p),
                Err(e) => return Err(e),
            }
        } else if tag_is(&t, 0x49, 0x44, 0x41, 0x54) {
            match Idat::from_reader(r, n) {
                Ok(d) => ChunkData::Idat(d),
                Err(e) => return Err(e),
            }
        } else if tag_is(&t, 0x73, 0x52, 0x47, 0x42) {
            match sRGB::from_reader(r, n) {
                Ok(i) => ChunkData::Srgb(i),
                Err(e) => return Err(e),
            }
        } else if tag_is(&t, 0x49, 0x45, 0x4e, 0x44) {
            ChunkData::Iend
        } else if t.is_critical() {
            return Err(DecodeError::UnhandledCriticalChunk { tag: t });
        } else if t.is_safe_to_copy() {
            match Unknown::from_reader(r, n) {
                Ok(u) => ChunkData::Unknown(u),
                Err(e) => return Err(e),
            }
        } else {
            match r.read_bytes(n) {
                Ok(_) => ChunkData::Ignored,
                Err(e) => return Err(e),
            }
        };
        let ghost k = (s.len() - 8 - r@.len()) as nat;
        assert(spec_payload(s.skip(8), t, data_length) == Ok::<(PayloadView, nat), DecodeError>(
            (data@, k),
        ));
        assert(r@ == s.skip(8 + k as int));
        let crc = match r.read_u32_be() {
            Ok(c) => c,
            Err(e) => return Err(e),
        };
        assert(r@ =~= s.skip(8 + k as int + 4));
        Ok(Chunk { data_length, t, data, crc })
    }

    pub fn data(&self) -> (r: &ChunkData)
        ensures
            r@ == self@.payload,
    {
        &self.data
    }

    pub fn ctype(&self) -> (r: &ChunkType)
        ensures
            *r == self@.tag,
    {
        &self.t
    }

    pub fn data_len(&self) -> (r: u32)
        ensures
            r == self@.length,
    {
        self.data_length
    }

    /// The checksum field as stored in the stream; it is not checked against the content.
    pub fn crc(&self) -> (r: u32)
        ensures
            r == self@.crc,
    {
        self.crc
    }
}

} // verus!
