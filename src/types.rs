use vstd::prelude::*;
use vstd::string::*;
use crate::error::{DecodeError, Field};
use crate::reader::{Reader, be_u32, be_u32_at};

verus! {

/// Payload length of a header chunk.
pub const IHDR_SIZE: usize = 13;

/// Payload length of a rendering-intent chunk.
pub const SRGB_SIZE: usize = 1;

#[derive(Clone, Copy, Debug, PartialEq, Eq)]
pub enum ColourType {
    Grayscale,
    RGB,
    Indexed,
    GrayscaleAlpha,
    RGBA,
}

#[derive(Clone, Copy, Debug, PartialEq, Eq)]
pub enum CompressionMethod {
    Deflate,
}

#[derive(Clone, Copy, Debug, PartialEq, Eq)]
pub enum FilterMethod {
    NoFilter,
    Sub,
    Up,
    Average,
    Paeth,
}

#[derive(Clone, Copy, Debug, PartialEq, Eq)]
pub enum InterlaceMethod {
    NoInterlace,
    Adam7,
}

#[derive(Clone, Copy, Debug, PartialEq, Eq)]
pub enum RenderingIntent {
    Perceptual,
    RelativeColorimetric,
    Saturation,
    AbsoluteColorimetric,
}

pub open spec fn bad_value(field: Field, value: u8) -> DecodeError {
    DecodeError::InvalidEnumValue { field, value }
}

pub open spec fn spec_colour_type(b: u8) -> Result<ColourType, DecodeError> {
    match b {
        0 => Ok(ColourType::Grayscale),
        2 => Ok(ColourType::RGB),
        3 => Ok(ColourType::Indexed),
        4 => Ok(ColourType::GrayscaleAlpha),
        6 => Ok(ColourType::RGBA),
        _ => Err(bad_value(Field::ColourType, b)),
    }
}

pub open spec fn spec_compression_method(b: u8) -> Result<CompressionMethod, DecodeError> {
    match b {
        0 => Ok(CompressionMethod::Deflate),
        _ => Err(bad_value(Field::CompressionMethod, b)),
    }
}

pub open spec fn spec_filter_method(b: u8) -> Result<FilterMethod, DecodeError> {
    match b {
        0 => Ok(FilterMethod::NoFilter),
        1 => Ok(FilterMethod::Sub),
        2 => Ok(FilterMethod::Up),
        3 => Ok(FilterMethod::Average),
        4 => Ok(FilterMethod::Paeth),
        _ => Err(bad_value(Field::FilterMethod, b)),
    }
}

pub open spec fn spec_interlace_method(b: u8) -> Result<InterlaceMethod, DecodeError> {
    match b {
        0 => Ok(InterlaceMethod::NoInterlace),
        1 => Ok(InterlaceMethod::Adam7),
        _ => Err(bad_value(Field::InterlaceMethod, b)),
    }
}

pub open spec fn spec_rendering_intent(b: u8) -> Result<RenderingIntent, DecodeError> {
    match b {
        0 => Ok(RenderingIntent::Perceptual),
        1 => Ok(RenderingIntent::RelativeColorimetric),
        2 => Ok(RenderingIntent::Saturation),
        3 => Ok(RenderingIntent::AbsoluteColorimetric),
        _ => Err(bad_value(Field::RenderingIntent, b)),
    }
}

impl ColourType {
    pub fn from_byte(b: u8) -> (r: Result<ColourType, DecodeError>)
        ensures
            r == spec_colour_type(b),
    {
        match b {
            0 => Ok(ColourType::Grayscale),
            2 => Ok(ColourType::RGB),
            3 => Ok(ColourType::Indexed),
            4 => Ok(ColourType::GrayscaleAlpha),
            6 => Ok(ColourType::RGBA),
            _ => Err(DecodeError::InvalidEnumValue { field: Field::ColourType, value: b }),
        }
    }
}

impl CompressionMethod {
    pub fn from_byte(b: u8) -> (r: Result<CompressionMethod, DecodeError>)
        ensures
            r == spec_compression_method(b),
    {
        match b {
            0 => Ok(CompressionMethod::Deflate),
            _ => Err(DecodeError::InvalidEnumValue { field: Field::CompressionMethod, value: b }),
        }
    }
}

impl FilterMethod {
    pub fn from_byte(b: u8) -> (r: Result<FilterMethod, DecodeError>)
        ensures
            r == spec_filter_method(b),
    {
        match b {
            0 => Ok(FilterMethod::NoFilter),
            1 => Ok(FilterMethod::Sub),
            2 => Ok(FilterMethod::Up),
            3 => Ok(FilterMethod::Average),
            4 => Ok(FilterMethod::Paeth),
            _ => Err(DecodeError::InvalidEnumValue { field: Field::FilterMethod, value: b }),
        }
    }
}

impl InterlaceMethod {
    pub fn from_byte(b: u8) -> (r: Result<InterlaceMethod, DecodeError>)
        ensures
            r == spec_interlace_method(b),
    {
        match b {
            0 => Ok(InterlaceMethod::NoInterlace),
            1 => Ok(InterlaceMethod::Adam7),
            _ => Err(DecodeError::InvalidEnumValue { field: Field::InterlaceMethod, value: b }),
        }
    }
}

impl RenderingIntent {
    pub fn from_byte(b: u8) -> (r: Result<RenderingIntent, DecodeError>)
        ensures
            r == spec_rendering_intent(b),
    {
        match b {
            0 => Ok(RenderingIntent::Perceptual),
            1 => Ok(RenderingIntent::RelativeColorimetric),
            2 => Ok(RenderingIntent::Saturation),
            3 => Ok(RenderingIntent::AbsoluteColorimetric),
            _ => Err(DecodeError::InvalidEnumValue { field: Field::RenderingIntent, value: b }),
        }
    }

    pub open spec fn spec_name(&self) -> Seq<char> {
        match self {
            RenderingIntent::Perceptual => "Perceptual"@,
            RenderingIntent::RelativeColorimetric => "RelativeColorimetric"@,
            RenderingIntent::Saturation => "Saturation"@,
            RenderingIntent::AbsoluteColorimetric => "AbsoluteColorimetric"@,
        }
    }

    /// The variant's name.
    pub fn name(&self) -> (r: &'static str)
        ensures
            r@ == self.spec_name(),
    {
        match self {
            RenderingIntent::Perceptual => "Perceptual",
            RenderingIntent::RelativeColorimetric => "RelativeColorimetric",
            RenderingIntent::Saturation => "Saturation",
            RenderingIntent::AbsoluteColorimetric => "AbsoluteColorimetric",
        }
    }
}

/// The image header: dimensions and the coding methods of the pixel data.
#[derive(Clone, Copy, Debug, PartialEq, Eq)]
pub struct Ihdr {
    pub width: u32,
    pub height: u32,
    pub bpp: u8,
    pub colour_type: ColourType,
    pub compression_method: CompressionMethod,
    pub filter_method: FilterMethod,
    pub interlace_method: InterlaceMethod,
}

/// The header decoded field by field from the front of `s`, in stream order: a field
/// that is cut short fails as truncated, and a byte outside its field's domain fails as
/// soon as it is read, before any later field is looked at.
pub open spec fn spec_ihdr_fields(s: Seq<u8>) -> Result<Ihdr, DecodeError> {
    if s.len() < 10 {
        Err(DecodeError::TruncatedInput)
    } else {
        match spec_colour_type(s[9]) {
            Err(e) => Err(e),
            Ok(colour_type) => if s.len() < 11 {
                Err(DecodeError::TruncatedInput)
            } else {
                match spec_compression_method(s[10]) {
                    Err(e) => Err(e),
                    Ok(compression_method) => if s.len() < 12 {
                        Err(DecodeError::TruncatedInput)
                    } else {
                        match spec_filter_method(s[11]) {
                            Err(e) => Err(e),
                            Ok(filter_method) => if s.len() < 13 {
                                Err(DecodeError::TruncatedInput)
                            } else {
                                match spec_interlace_method(s[12]) {
                                    Err(e) => Err(e),
                                    Ok(interlace_method) => Ok(
                                        Ihdr {
                                            width: be_u32(s),
                                            height: be_u32(s.skip(4)),
                                            bpp: s[8],
                                            colour_type,
                                            compression_method,
                                            filter_method,
                                            interlace_method,
                                        },
                                    ),
                                }
                            },
                        }
                    },
                }
            },
        }
    }
}

/// The outcome of decoding a header payload of declared length `n` from `s`.
pub open spec fn spec_ihdr(s: Seq<u8>, n: usize) -> Result<Ihdr, DecodeError> {
    if n != IHDR_SIZE {
        Err(DecodeError::InvalidLength { length: n })
    } else {
        spec_ihdr_fields(s)
    }
}

impl Ihdr {
    /// Decodes a header payload of declared length `data_length`, which must be 13. A
    /// wrong length is refused before anything is read.
    pub fn from_reader(r: &mut Reader, data_length: usize) -> (res: Result<Ihdr, DecodeError>)
        requires
            old(r).wf(),
        ensures
            final(r).wf(),
            res == spec_ihdr(old(r)@, data_length),
            res is Ok ==> final(r)@ == old(r)@.skip(data_length as int),
            data_length != IHDR_SIZE ==> final(r)@ == old(r)@,
    {
        if data_length != IHDR_SIZE {
            return Err(DecodeError::InvalidLength { length: data_length });
        }
        let ghost s = r@;
        let p = match r.read_bytes(10) {
            Ok(p) => p,
            Err(e) => return Err(e),
        };
        let colour_type = match ColourType::from_byte(p[9]) {
            Ok(v) => v,
            Err(e) => return Err(e),
        };
        let b = match r.read_bytes(1) {
            Ok(b) => b,
            Err(e) => return Err(e),
        };
        assert(b[0] == s[10]);
        let compression_method = match CompressionMethod::from_byte(b[0]) {
            Ok(v) => v,
            Err(e) => return Err(e),
        };
        let b = match r.read_bytes(1) {
            Ok(b) => b,
            Err(e) => return Err(e),
        };
        assert(b[0] == s[11]);
        let filter_method = match FilterMethod::from_byte(b[0]) {
            Ok(v) => v,
            Err(e) => return Err(e),
        };
        let b = match r.read_bytes(1) {
            Ok(b) => b,
            Err(e) => return Err(e),
        };
        assert(b[0] == s[12]);
        let interlace_method = match InterlaceMethod::from_byte(b[0]) {
            Ok(v) => v,
            Err(e) => return Err(e),
        };
        assert(r@ =~= s.skip(13));
        let width = be_u32_at(&p, 0);
        let height = be_u32_at(&p, 4);
        assert(p@.skip(0) =~= p@);
        assert(be_u32(p@) == be_u32(s));
        assert(be_u32(p@.skip(4)) == be_u32(s.skip(4)));
        Ok(
            Ihdr {
                width,
                height,
                bpp: p[8],
                colour_type,
                compression_method,
                filter_method,
                interlace_method,
            },
        )
    }
}

/// One palette entry.
#[derive(Clone, Copy, Debug, PartialEq, Eq)]
pub struct Rgb {
    pub red: u8,
    pub green: u8,
    pub blue: u8,
}

/// The entries that the byte triples of `p` spell, in order.
pub open spec fn spec_palette(p: Seq<u8>) -> Seq<Rgb> {
    Seq::new(
        p.len() / 3,
        |i: int| Rgb { red: p[3 * i], green: p[3 * i + 1], blue: p[3 * i + 2] },
    )
}

/// The palette: an ordered sequence of colours.
#[derive(Debug)]
pub struct Plte {
    palette: Vec<Rgb>,
}

impl View for Plte {
    type V = Seq<Rgb>;

    closed spec fn view(&self) -> Seq<Rgb> {
        self.palette@
    }
}

impl Plte {
    /// Decodes a palette payload of `data_length` bytes, a multiple of three.
    pub fn from_reader(r: &mut Reader, data_length: usize) -> (res: Result<Plte, DecodeError>)
        requires
            old(r).wf(),
        ensures
            final(r).wf(),
            data_length % 3 != 0 ==> final(r)@ == old(r)@,
            match res {
                Ok(p) => data_length % 3 == 0 && data_length <= old(r)@.len()
                    && p@ == spec_palette(old(r)@.take(data_length as int))
                    && final(r)@ == old(r)@.skip(data_length as int),
                Err(e) => if data_length % 3 != 0 {
                    e == DecodeError::InvalidLength { length: data_length }
                } else {
                    data_length > old(r)@.len() && e == DecodeError::TruncatedInput
                },
            },
    {
        if data_length % 3 != 0 {
            return Err(DecodeError::InvalidLength { length: data_length });
        }
        let p = match r.read_bytes(data_length) {
            Ok(p) => p,
            Err(e) => return Err(e),
        };
        let mut v: Vec<Rgb> = Vec::new();
        let mut i: usize = 0;
        while i < data_length
            invariant
                p@.len() == data_length,
                data_length % 3 == 0,
                i % 3 == 0,
                i <= data_length,
                v@ == spec_palette(p@.take(i as int)),
            decreases data_length - i,
        {
            v.push(Rgb { red: p[i], green: p[i + 1], blue: p[i + 2] });
            i = i + 3;
            assert(v@ =~= spec_palette(p@.take(i as int)));
        }
        assert(p@.take(i as int) =~= p@);
        Ok(Plte { palette: v })
    }

    /// The palette's entries in order.
    pub fn entries(&self) -> (r: &Vec<Rgb>)
        ensures
            r@ == self@,
    {
        &self.palette
    }
}

/// A fragment of compressed image data.
#[derive(Debug)]
pub struct Idat {
    compressed_data: Vec<u8>,
}

impl View for Idat {
    type V = Seq<u8>;

    closed spec fn view(&self) -> Seq<u8> {
        self.compressed_data@
    }
}

impl Idat {
    /// Reads `data_length` bytes of compressed image data.
    pub fn from_reader(r: &mut Reader, data_length: usize) -> (res: Result<Idat, DecodeError>)
        requires
            old(r).wf(),
        ensures
            final(r).wf(),
            match res {
                Ok(d) => data_length <= old(r)@.len() && d@ == old(r)@.take(data_length as int)
                    && final(r)@ == old(r)@.skip(data_length as int),
                Err(e) => data_length > old(r)@.len() && e == DecodeError::TruncatedInput,
            },
    {
        match r.read_bytes(data_length) {
            Ok(d) => Ok(Idat { compressed_data: d }),
            Err(e) => Err(e),
        }
    }

    pub fn compressed_data(&self) -> (r: &Vec<u8>)
        ensures
            r@ == self@,
    {
        &self.compressed_data
    }
}

/// The outcome of decoding a rendering-intent payload of declared length `n` from `s`.
pub open spec fn spec_srgb(s: Seq<u8>, n: usize) -> Result<RenderingIntent, DecodeError> {
    if n != SRGB_SIZE {
        Err(DecodeError::InvalidLength { length: n })
    } else if s.len() < 1 {
        Err(DecodeError::TruncatedInput)
    } else {
        spec_rendering_intent(s[0])
    }
}

/// The colour-space rendering intent.
#[allow(non_camel_case_types)]
#[derive(Clone, Copy, Debug, PartialEq, Eq)]
pub struct sRGB {
    pub rendering_intent: RenderingIntent,
}

impl sRGB {
    /// Decodes a rendering-intent payload of declared length `data_length`, which must be 1.
    pub fn from_reader(r: &mut Reader, data_length: usize) -> (res: Result<sRGB, DecodeError>)
        requires
            old(r).wf(),
        ensures
            final(r).wf(),
            data_length != SRGB_SIZE ==> final(r)@ == old(r)@,
            match res {
                Ok(v) => spec_srgb(old(r)@, data_length) == Ok::<RenderingIntent, DecodeError>(
                    v.rendering_intent,
                ) && final(r)@ == old(r)@.skip(1),
                Err(e) => spec_srgb(old(r)@, data_length) == Err::<RenderingIntent, DecodeError>(
                    e,
                ),
            },
    {
        if data_length != SRGB_SIZE {
            return Err(DecodeError::InvalidLength { length: data_length });
        }
        let p = match r.read_bytes(data_length) {
            Ok(p) => p,
            Err(e) => return Err(e),
        };
        match RenderingIntent::from_byte(p[0]) {
            Ok(rendering_intent) => Ok(sRGB { rendering_intent }),
            Err(e) => Err(e),
        }
    }

    /// A one-line description of the rendering intent.
    pub fn as_string(&self) -> (r: String)
        ensures
            r@ == "Rendering Intent: "@ + self.rendering_intent.spec_name(),
    {
        let mut s = String::from_str("Rendering Intent: ");
        s.append(self.rendering_intent.name());
        s
    }
}

/// The payload of a chunk type this decoder does not interpret, kept verbatim.
#[derive(Debug)]
pub struct Unknown {
    data: Vec<u8>,
}

impl View for Unknown {
    type V = Seq<u8>;

    closed spec fn view(&self) -> Seq<u8> {
        self.data@
    }
}

impl Unknown {
    /// Reads `data_length` bytes of an uninterpreted payload.
    pub fn from_reader(r: &mut Reader, data_length: usize) -> (res: Result<Unknown, DecodeError>)
        requires
            old(r).wf(),
        ensures
            final(r).wf(),
            match res {
                Ok(d) => data_length <= old(r)@.len() && d@ == old(r)@.take(data_length as int)
                    && final(r)@ == old(r)@.skip(data_length as int),
                Err(e) => data_length > old(r)@.len() && e == DecodeError::TruncatedInput,
            },
    {
        match r.read_bytes(data_length) {
            Ok(d) => Ok(Unknown { data: d }),
            Err(e) => Err(e),
        }
    }

    pub fn mut_data(&mut self) -> (r: &mut Vec<u8>)
        ensures
            r@ == old(self)@,
            final(self)@ == final(r)@,
    {
        &mut self.data
    }

    pub fn data(&self) -> (r: &Vec<u8>)
        ensures
            r@ == self@,
    {
        &self.data
    }
}

} // verus!
