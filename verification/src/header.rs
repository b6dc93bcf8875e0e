//! The PNG header fields that the size estimate reads: width, height,
//! bit depth and color type, with the parsers that admit only the values
//! the PNG format defines.

use vstd::prelude::*;

use crate::Error;

verus! {

/// Bits per sample of one color channel; the PNG format allows exactly
/// 1, 2, 4, 8 and 16.
#[derive(Clone, Copy, Debug, PartialEq, Eq, Structural)]
pub enum BitDepth {
    One,
    Two,
    Four,
    Eight,
    Sixteen,
}

/// How the pixel data is structured; the PNG format encodes these five
/// kinds as the codes 0, 2, 3, 4 and 6.
#[derive(Clone, Copy, Debug, PartialEq, Eq, Structural)]
pub enum ColorType {
    Grayscale,
    RGB,
    Indexed,
    GrayscaleAlpha,
    RGBA,
}

/// Bits per sample as a number: what the depth's name says.
pub open spec fn bits_per_sample(d: BitDepth) -> int {
    match d {
        BitDepth::One => 1,
        BitDepth::Two => 2,
        BitDepth::Four => 4,
        BitDepth::Eight => 8,
        BitDepth::Sixteen => 16,
    }
}

/// Channel count used by the size estimate. GrayscaleAlpha counts as a
/// single channel here, exactly as the estimate has always counted it,
/// although the format stores two samples per pixel for it.
pub open spec fn channel_count(c: ColorType) -> int {
    match c {
        ColorType::Grayscale => 1,
        ColorType::RGB => 3,
        ColorType::Indexed => 1,
        ColorType::GrayscaleAlpha => 1,
        ColorType::RGBA => 4,
    }
}

/// What parsing a raw bit-depth byte must yield: the matching variant for
/// 1, 2, 4, 8 and 16, and a format error for everything else.
pub open spec fn parse_bit_depth(v: u8) -> Result<BitDepth, Error> {
    if v == 1 {
        Ok(BitDepth::One)
    } else if v == 2 {
        Ok(BitDepth::Two)
    } else if v == 4 {
        Ok(BitDepth::Four)
    } else if v == 8 {
        Ok(BitDepth::Eight)
    } else if v == 16 {
        Ok(BitDepth::Sixteen)
    } else {
        Err(Error::FormatError)
    }
}

/// What parsing a raw color-type byte must yield: the matching variant for
/// the five codes the format defines, and a format error for everything else.
pub open spec fn parse_color_type(v: u8) -> Result<ColorType, Error> {
    if v == 0 {
        Ok(ColorType::Grayscale)
    } else if v == 2 {
        Ok(ColorType::RGB)
    } else if v == 3 {
        Ok(ColorType::Indexed)
    } else if v == 4 {
        Ok(ColorType::GrayscaleAlpha)
    } else if v == 6 {
        Ok(ColorType::RGBA)
    } else {
        Err(Error::FormatError)
    }
}

impl BitDepth {
    /// Parses the raw byte a PNG header stores; values outside
    /// {1, 2, 4, 8, 16} are rejected, never defaulted.
    pub fn from_raw(v: u8) -> (r: Result<BitDepth, Error>)
        ensures
            r == parse_bit_depth(v),
    {
        match v {
            1 => Ok(BitDepth::One),
            2 => Ok(BitDepth::Two),
            4 => Ok(BitDepth::Four),
            8 => Ok(BitDepth::Eight),
            16 => Ok(BitDepth::Sixteen),
            _ => Err(Error::FormatError),
        }
    }

    /// Bits per sample of this depth.
    pub fn bits(&self) -> (b: u8)
        ensures
            b == bits_per_sample(*self),
    {
        match self {
            BitDepth::One => 1,
            BitDepth::Two => 2,
            BitDepth::Four => 4,
            BitDepth::Eight => 8,
            BitDepth::Sixteen => 16,
        }
    }
}

impl ColorType {
    /// Parses the raw byte a PNG header stores; values outside
    /// {0, 2, 3, 4, 6} are rejected, never defaulted.
    pub fn from_raw(v: u8) -> (r: Result<ColorType, Error>)
        ensures
            r == parse_color_type(v),
    {
        match v {
            0 => Ok(ColorType::Grayscale),
            2 => Ok(ColorType::RGB),
            3 => Ok(ColorType::Indexed),
            4 => Ok(ColorType::GrayscaleAlpha),
            6 => Ok(ColorType::RGBA),
            _ => Err(Error::FormatError),
        }
    }

    /// Channel count this color type contributes to the size estimate.
    pub fn channels(&self) -> (c: u8)
        ensures
            c == channel_count(*self),
    {
        match self {
            ColorType::Grayscale => 1,
            ColorType::RGB => 3,
            ColorType::Indexed => 1,
            ColorType::GrayscaleAlpha => 1,
            ColorType::RGBA => 4,
        }
    }
}

/// The header fields of one PNG image that the size estimate reads.
#[derive(Clone, Copy, Debug, PartialEq, Eq, Structural)]
pub struct PngHeader {
    /// Image width in pixels.
    pub width: u32,
    /// Image height in pixels.
    pub height: u32,
    /// Bits per sample.
    pub bit_depth: BitDepth,
    /// Pixel structure.
    pub color_type: ColorType,
}

} // verus!
