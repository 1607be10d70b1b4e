//! Images: bit depths, pixel formats, YUV images and RGB images.

use vstd::prelude::*;

use crate::error::{Error, Result};
use crate::sys;

verus! {

/// The bit depths libavif supports.
#[non_exhaustive]
#[derive(Debug, Clone, Copy, PartialEq, Eq, PartialOrd, Ord, Hash, Structural)]
pub enum BitDepth {
    B8,
    B10,
    B12,
    B16,
}

impl BitDepth {
    /// The number of bits per channel.
    pub open spec fn bits_spec(self) -> u32 {
        match self {
            BitDepth::B8 => 8,
            BitDepth::B10 => 10,
            BitDepth::B12 => 12,
            BitDepth::B16 => 16,
        }
    }

    /// The number of bits per channel.
    #[verifier::when_used_as_spec(bits_spec)]
    pub fn bits(self) -> (b: u32)
        ensures
            b == self.bits_spec(),
    {
        match self {
            BitDepth::B8 => 8,
            BitDepth::B10 => 10,
            BitDepth::B12 => 12,
            BitDepth::B16 => 16,
        }
    }

    /// The depth with `value` bits per channel, if libavif supports it.
    pub open spec fn from_bits_spec(value: u32) -> Result<BitDepth> {
        if value == 8 {
            Ok(BitDepth::B8)
        } else if value == 10 {
            Ok(BitDepth::B10)
        } else if value == 12 {
            Ok(BitDepth::B12)
        } else if value == 16 {
            Ok(BitDepth::B16)
        } else {
            Err(Error::InvalidDepth(value))
        }
    }
}

/// A depth's bit count reads back as that depth; a value reads as a depth
/// with that bit count, or else as [`Error::InvalidDepth`] of the value.
pub proof fn lemma_bit_depth_roundtrip(depth: BitDepth, value: u32)
    ensures
        BitDepth::from_bits_spec(depth.bits()) == Ok::<BitDepth, Error>(depth),
        BitDepth::from_bits_spec(value) matches Ok(d) ==> d.bits() == value,
        BitDepth::from_bits_spec(value) is Err ==> BitDepth::from_bits_spec(value) == Err::<
            BitDepth,
            Error,
        >(Error::InvalidDepth(value)),
{
}

impl TryFrom<u32> for BitDepth {
    type Error = Error;

    fn try_from(value: u32) -> (r: Result<Self, Self::Error>) {
        match value {
            8 => Ok(Self::B8),
            10 => Ok(Self::B10),
            12 => Ok(Self::B12),
            16 => Ok(Self::B16),
            other => Err(Error::InvalidDepth(other)),
        }
    }
}

impl vstd::std_specs::convert::TryFromSpecImpl<u32> for BitDepth {
    open spec fn obeys_try_from_spec() -> bool {
        true
    }

    open spec fn try_from_spec(value: u32) -> Result<Self, Self::Error> {
        BitDepth::from_bits_spec(value)
    }
}

/// YUV pixel formats. `FormatNone` is libavif's `AVIF_PIXEL_FORMAT_NONE`.
#[non_exhaustive]
#[derive(Debug, Clone, Copy, PartialEq, Eq, PartialOrd, Ord, Hash, Structural)]
pub enum PixelFormat {
    FormatNone,
    YUV444,
    YUV422,
    YUV420,
    YUV400,
}

impl PixelFormat {
    /// libavif's code for this format; libavif numbers the formats from
    /// `AVIF_PIXEL_FORMAT_NONE` = 0 in this order.
    pub open spec fn code_spec(self) -> sys::avifPixelFormat {
        match self {
            PixelFormat::FormatNone => sys::avifPixelFormat(0),
            PixelFormat::YUV444 => sys::avifPixelFormat(1),
            PixelFormat::YUV422 => sys::avifPixelFormat(2),
            PixelFormat::YUV420 => sys::avifPixelFormat(3),
            PixelFormat::YUV400 => sys::avifPixelFormat(4),
        }
    }

    /// libavif's code for this format.
    #[verifier::when_used_as_spec(code_spec)]
    pub fn code(self) -> (c: sys::avifPixelFormat)
        ensures
            c == self.code_spec(),
    {
        match self {
            PixelFormat::FormatNone => sys::avifPixelFormat(0),
            PixelFormat::YUV444 => sys::avifPixelFormat(1),
            PixelFormat::YUV422 => sys::avifPixelFormat(2),
            PixelFormat::YUV420 => sys::avifPixelFormat(3),
            PixelFormat::YUV400 => sys::avifPixelFormat(4),
        }
    }
}

/// RGB channel layouts.
#[non_exhaustive]
#[derive(Debug, Clone, Copy, PartialEq, Eq, PartialOrd, Ord, Hash, Structural)]
pub enum RgbFormat {
    Rgb,
    Rgba,
    Argb,
    Bgr,
    Bgra,
    Abgr,
    Rgb565,
    Gray,
    GrayA,
    AGray,
}

impl RgbFormat {
    /// libavif's code for this layout; libavif numbers the layouts from
    /// `AVIF_RGB_FORMAT_RGB` = 0 in this order.
    pub open spec fn code_spec(self) -> sys::avifRGBFormat {
        match self {
            RgbFormat::Rgb => sys::avifRGBFormat(0),
            RgbFormat::Rgba => sys::avifRGBFormat(1),
            RgbFormat::Argb => sys::avifRGBFormat(2),
            RgbFormat::Bgr => sys::avifRGBFormat(3),
            RgbFormat::Bgra => sys::avifRGBFormat(4),
            RgbFormat::Abgr => sys::avifRGBFormat(5),
            RgbFormat::Rgb565 => sys::avifRGBFormat(6),
            RgbFormat::Gray => sys::avifRGBFormat(7),
            RgbFormat::GrayA => sys::avifRGBFormat(8),
            RgbFormat::AGray => sys::avifRGBFormat(9),
        }
    }

    /// libavif's code for this layout.
    #[verifier::when_used_as_spec(code_spec)]
    pub fn code(self) -> (c: sys::avifRGBFormat)
        ensures
            c == self.code_spec(),
    {
        match self {
            RgbFormat::Rgb => sys::avifRGBFormat(0),
            RgbFormat::Rgba => sys::avifRGBFormat(1),
            RgbFormat::Argb => sys::avifRGBFormat(2),
            RgbFormat::Bgr => sys::avifRGBFormat(3),
            RgbFormat::Bgra => sys::avifRGBFormat(4),
            RgbFormat::Abgr => sys::avifRGBFormat(5),
            RgbFormat::Rgb565 => sys::avifRGBFormat(6),
            RgbFormat::Gray => sys::avifRGBFormat(7),
            RgbFormat::GrayA => sys::avifRGBFormat(8),
            RgbFormat::AGray => sys::avifRGBFormat(9),
        }
    }
}

/// Each layout has libavif's `AVIF_RGB_FORMAT_*` number of the same name,
/// and each pixel format its `AVIF_PIXEL_FORMAT_*` number, so distinct
/// layouts and formats have distinct codes.
pub proof fn lemma_format_codes(a: RgbFormat, b: RgbFormat, p: PixelFormat, q: PixelFormat)
    ensures
        RgbFormat::Rgb.code() == sys::avifRGBFormat(0),
        RgbFormat::Rgba.code() == sys::avifRGBFormat(1),
        RgbFormat::Argb.code() == sys::avifRGBFormat(2),
        RgbFormat::Bgr.code() == sys::avifRGBFormat(3),
        RgbFormat::Bgra.code() == sys::avifRGBFormat(4),
        RgbFormat::Abgr.code() == sys::avifRGBFormat(5),
        RgbFormat::Rgb565.code() == sys::avifRGBFormat(6),
        RgbFormat::Gray.code() == sys::avifRGBFormat(7),
        RgbFormat::GrayA.code() == sys::avifRGBFormat(8),
        RgbFormat::AGray.code() == sys::avifRGBFormat(9),
        PixelFormat::FormatNone.code() == sys::avifPixelFormat(0),
        PixelFormat::YUV444.code() == sys::avifPixelFormat(1),
        PixelFormat::YUV422.code() == sys::avifPixelFormat(2),
        PixelFormat::YUV420.code() == sys::avifPixelFormat(3),
        PixelFormat::YUV400.code() == sys::avifPixelFormat(4),
        a != b ==> a.code() != b.code(),
        p != q ==> p.code() != q.code(),
{
}

/// A YUV image.
pub struct Image {
    raw: sys::avifImage,
}

/// The image that `avifImageCreate` makes for these arguments.
pub open spec fn created_image(width: u32, height: u32, depth: u32, format: sys::avifPixelFormat) -> sys::avifImage {
    sys::avifImage { width, height, depth, yuvFormat: format }
}

impl View for Image {
    type V = sys::avifImage;

    closed spec fn view(&self) -> sys::avifImage {
        self.raw
    }
}

impl Image {
    /// The empty image to decode into, as `avifImageCreateEmpty` makes it;
    /// `allocated` tells whether libavif could allocate it.
    pub fn empty(allocated: bool) -> (r: Result<Self>)
        ensures
            allocated ==> (r matches Ok(image) && image@ == created_image(0, 0, 0, sys::avifPixelFormat(0))),
            !allocated ==> r matches Err(Error::AllocationFailed),
    {
        if !allocated {
            return Err(Error::AllocationFailed);
        }
        Ok(Image { raw: sys::avifImage { width: 0, height: 0, depth: 0, yuvFormat: sys::avifPixelFormat(0) } })
    }

    /// A `width` by `height` image of the given depth and format, as
    /// `avifImageCreate` makes it; `allocated` tells whether libavif could
    /// allocate it.
    pub fn new(width: u32, height: u32, depth: BitDepth, format: PixelFormat, allocated: bool) -> (r: Result<Self>)
        ensures
            allocated ==> (r matches Ok(image) && image@ == created_image(width, height, depth.bits(), format.code())),
            !allocated ==> r matches Err(Error::AllocationFailed),
    {
        if !allocated {
            return Err(Error::AllocationFailed);
        }
        Ok(Image { raw: sys::avifImage { width, height, depth: depth.bits(), yuvFormat: format.code() } })
    }

    /// The image that `avifImageCreate` is asked for: `width` by `height`,
    /// with the depth's bits and the format's code.
    pub fn create_request(width: u32, height: u32, depth: BitDepth, format: PixelFormat) -> (r: sys::avifImage)
        ensures
            r == created_image(width, height, depth.bits(), format.code()),
    {
        sys::avifImage { width, height, depth: depth.bits(), yuvFormat: format.code() }
    }

    /// Takes over an image that libavif made.
    pub fn from_raw(raw: sys::avifImage) -> (image: Self)
        ensures
            image@ == raw,
    {
        Image { raw }
    }

    /// The underlying libavif image.
    pub fn as_raw(&self) -> (raw: &sys::avifImage)
        ensures
            *raw == self@,
    {
        &self.raw
    }

    /// The underlying libavif image, for changing it.
    pub fn as_raw_mut(&mut self) -> (raw: &mut sys::avifImage)
        ensures
            *raw == old(self)@,
            final(self)@ == *final(raw),
    {
        &mut self.raw
    }

    /// The width in pixels.
    pub fn width(&self) -> (w: u32)
        ensures
            w == self@.width,
    {
        self.raw.width
    }

    /// The height in pixels.
    pub fn height(&self) -> (h: u32)
        ensures
            h == self@.height,
    {
        self.raw.height
    }

    /// The image's bit depth exactly as reported by libavif, without
    /// validation.
    pub fn raw_depth(&self) -> (d: u32)
        ensures
            d == self@.depth,
    {
        self.raw.depth
    }

    /// The image's bit depth, if it is one of the depths libavif supports
    /// (8, 10, 12, or 16).
    ///
    /// libavif only validates the bit depth of container metadata; the value
    /// stored on a decoded image is whatever the underlying codec reported,
    /// which may be non-standard. Use [`Self::raw_depth`] to read the depth
    /// of such an image.
    pub fn depth(&self) -> (r: Result<BitDepth>)
        ensures
            r == BitDepth::from_bits_spec(self@.depth),
    {
        BitDepth::try_from(self.raw_depth())
    }

    /// This image converted to RGB with the given depth and layout; see
    /// [`RgbImage::from_image`].
    pub fn to_rgb(&self, depth: BitDepth, format: RgbFormat, outcome: RgbConversion) -> (r: Result<RgbImage>)
        requires
            outcome.wf(self@.height),
        ensures
            r == rgb_from_image(self@, depth, format, outcome),
    {
        RgbImage::from_image(self, depth, format, outcome)
    }

    /// A new image of the given depth and format holding the pixels of
    /// `rgb`; see [`RgbImage::to_image`].
    pub fn from_rgb(rgb: &RgbImage, depth: BitDepth, format: PixelFormat, allocated: bool, conversion: sys::avifResult) -> (r: Result<Self>)
        ensures
            image_from_rgb(rgb@, depth, format, allocated, conversion, r),
            r matches Ok(y) ==> y@ == (sys::avifImage {
                width: rgb@.width,
                height: rgb@.height,
                depth: depth.bits(),
                yuvFormat: format.code(),
            }),
    {
        rgb.to_image(depth, format, allocated, conversion)
    }
}

/// The RGB image that libavif is asked to allocate and convert into: the
/// YUV image's width and height, with the depth and layout asked for.
#[derive(Clone, Copy, Debug, PartialEq, Eq, Structural)]
pub struct RgbRequest {
    pub width: u32,
    pub height: u32,
    pub depth: u32,
    pub format: sys::avifRGBFormat,
}

/// What libavif reports while turning a YUV image into an RGB one: the
/// result of allocating the pixel rows, the row stride and the buffer it
/// allocated, and the result of converting into that buffer.
pub struct RgbConversion {
    pub allocation: sys::avifResult,
    pub row_bytes: u32,
    pub pixels: Vec<u8>,
    pub conversion: sys::avifResult,
}

impl RgbConversion {
    /// Where both steps succeeded, the buffer holds `height` rows of
    /// `row_bytes` bytes, as `avifRGBImageAllocatePixels` makes it.
    pub open spec fn wf(&self, height: u32) -> bool {
        self.allocation.is_ok_spec() && self.conversion.is_ok_spec() ==> self.pixels@.len()
            == self.row_bytes * height
    }
}

/// The outcome of converting `image` to RGB with the given depth and layout,
/// given what libavif reported: the first failing step's code, or an RGB
/// image of the same size holding the converted pixels.
pub open spec fn rgb_from_image(image: sys::avifImage, depth: BitDepth, format: RgbFormat, outcome: RgbConversion) -> Result<RgbImage> {
    if !outcome.allocation.is_ok_spec() {
        Err(Error::Code(outcome.allocation))
    } else if !outcome.conversion.is_ok_spec() {
        Err(Error::Code(outcome.conversion))
    } else {
        Ok(RgbImage::from_parts(image.width, image.height, depth.bits(), format.code(), outcome.row_bytes, outcome.pixels))
    }
}

/// The outcome of converting the RGB image `rgb` to a YUV image with the
/// given depth and format, given whether libavif could allocate the image
/// and the result of the conversion.
pub open spec fn image_from_rgb(rgb: sys::avifRGBImage, depth: BitDepth, format: PixelFormat, allocated: bool, conversion: sys::avifResult, r: Result<Image>) -> bool {
    if !allocated {
        r matches Err(Error::AllocationFailed)
    } else if !conversion.is_ok_spec() {
        r == Err::<Image, Error>(Error::Code(conversion))
    } else {
        r matches Ok(image) && image@ == created_image(rgb.width, rgb.height, depth.bits(), format.code())
    }
}

/// Converting between YUV and RGB keeps the image's width and height; the
/// RGB image has the depth and layout asked for.
pub proof fn lemma_conversions_keep_size(
    image: sys::avifImage,
    rgb: sys::avifRGBImage,
    depth: BitDepth,
    rgb_format: RgbFormat,
    pixel_format: PixelFormat,
    outcome: RgbConversion,
    allocated: bool,
    conversion: sys::avifResult,
    r: Result<Image>,
)
    ensures
        rgb_from_image(image, depth, rgb_format, outcome) matches Ok(x) ==> x@.width == image.width
            && x@.height == image.height && x@.depth == depth.bits() && x@.format
            == rgb_format.code(),
        image_from_rgb(rgb, depth, pixel_format, allocated, conversion, r) ==> (r matches Ok(y)
            ==> y@.width == rgb.width && y@.height == rgb.height && y@.depth == depth.bits()
            && y@.yuvFormat == pixel_format.code()),
{
    broadcast use RgbImage::lemma_from_parts;

}

/// An RGB image with its own pixel buffer.
pub struct RgbImage {
    raw: sys::avifRGBImage,
}

impl View for RgbImage {
    type V = sys::avifRGBImage;

    closed spec fn view(&self) -> sys::avifRGBImage {
        self.raw
    }
}

impl RgbImage {
    /// The buffer holds `height` rows of `rowBytes` bytes.
    #[verifier::type_invariant]
    closed spec fn inv(self) -> bool {
        self.raw.pixels@.len() == self.raw.rowBytes * self.raw.height
    }

    /// The RGB image with these fields.
    pub closed spec fn from_parts(width: u32, height: u32, depth: u32, format: sys::avifRGBFormat, row_bytes: u32, pixels: Vec<u8>) -> RgbImage {
        RgbImage { raw: sys::avifRGBImage { width, height, depth, format, rowBytes: row_bytes, pixels } }
    }

    /// The view of an image built from parts holds those parts.
    pub broadcast proof fn lemma_from_parts(width: u32, height: u32, depth: u32, format: sys::avifRGBFormat, row_bytes: u32, pixels: Vec<u8>)
        ensures
            #[trigger] RgbImage::from_parts(width, height, depth, format, row_bytes, pixels)@
                == (sys::avifRGBImage { width, height, depth, format, rowBytes: row_bytes, pixels }),
    {
    }

    /// The RGB image libavif is asked for when converting `image` with the
    /// given depth and layout: libavif's defaults for `image` give the width
    /// and height, and the depth and layout are set to those asked for.
    pub fn conversion_request(image: &Image, depth: BitDepth, format: RgbFormat) -> (r: RgbRequest)
        ensures
            r == (RgbRequest { width: image@.width, height: image@.height, depth: depth.bits(), format: format.code() }),
    {
        RgbRequest { width: image.width(), height: image.height(), depth: depth.bits(), format: format.code() }
    }

    /// The YUV image libavif is asked to create when converting this image
    /// with the given depth and format.
    pub fn image_request(&self, depth: BitDepth, format: PixelFormat) -> (r: sys::avifImage)
        ensures
            r == created_image(self@.width, self@.height, depth.bits(), format.code()),
    {
        Image::create_request(self.width(), self.height(), depth, format)
    }

    /// Converts `image` to RGB with the given depth and layout.
    ///
    /// The RGB image starts from libavif's defaults for `image`, which give
    /// it the image's width and height; its depth and layout are then set to
    /// `depth` and `format`. libavif then allocates the pixel rows and
    /// converts into them; `outcome` is what it reported, and the first
    /// failing step's code is the error.
    pub fn from_image(image: &Image, depth: BitDepth, format: RgbFormat, outcome: RgbConversion) -> (r: Result<Self>)
        requires
            outcome.wf(image@.height),
        ensures
            r == rgb_from_image(image@, depth, format, outcome),
    {
        let RgbConversion { allocation, row_bytes, pixels, conversion } = outcome;
        allocation.check()?;
        conversion.check()?;
        Ok(RgbImage {
            raw: sys::avifRGBImage {
                width: image.width(),
                height: image.height(),
                depth: depth.bits(),
                format: format.code(),
                rowBytes: row_bytes,
                pixels,
            },
        })
    }

    /// A new YUV image of the given depth and format holding these pixels.
    ///
    /// The image is made with this image's width and height; `allocated`
    /// tells whether libavif could allocate it, and `conversion` is the
    /// result of libavif's RGB-to-YUV conversion into it.
    pub fn to_image(&self, depth: BitDepth, format: PixelFormat, allocated: bool, conversion: sys::avifResult) -> (r: Result<Image>)
        ensures
            image_from_rgb(self@, depth, format, allocated, conversion, r),
            r matches Ok(y) ==> y@ == (sys::avifImage {
                width: self@.width,
                height: self@.height,
                depth: depth.bits(),
                yuvFormat: format.code(),
            }),
    {
        let image = Image::new(self.width(), self.height(), depth, format, allocated)?;
        conversion.check()?;
        Ok(image)
    }

    /// The width in pixels.
    pub fn width(&self) -> (w: u32)
        ensures
            w == self@.width,
    {
        self.raw.width
    }

    /// The height in pixels.
    pub fn height(&self) -> (h: u32)
        ensures
            h == self@.height,
    {
        self.raw.height
    }

    /// The pixel rows, `height` rows of `rowBytes` bytes each.
    pub fn pixels(&self) -> (p: &[u8])
        ensures
            p@ == self@.pixels@,
            p@.len() == self@.rowBytes * self@.height,
    {
        proof {
            use_type_invariant(self);
        }
        self.raw.pixels.as_slice()
    }
}

} // verus!
