//! Plain-value models of the libavif types that the wrappers read and write.
//!
//! Each struct holds, as ordinary values, the fields of the libavif object
//! that the wrappers in this crate look at; a buffer that libavif owns through
//! a nullable pointer is an `Option<Vec<u8>>`, `None` standing for null.

use vstd::prelude::*;

verus! {

/// The numeric value of `AVIF_RESULT_OK`.
pub const AVIF_RESULT_OK: u32 = 0;

/// A libavif status code (`avifResult`); [`AVIF_RESULT_OK`] is success.
#[derive(Clone, Copy, Debug, PartialEq, Eq, Structural)]
pub struct avifResult(pub u32);

impl avifResult {
    /// Whether this is the success code.
    pub open spec fn is_ok_spec(self) -> bool {
        self.0 == AVIF_RESULT_OK
    }
}

/// A libavif YUV pixel format code (`avifPixelFormat`).
#[derive(Clone, Copy, Debug, PartialEq, Eq, Structural)]
pub struct avifPixelFormat(pub u32);

/// A libavif RGB channel layout code (`avifRGBFormat`).
#[derive(Clone, Copy, Debug, PartialEq, Eq, Structural)]
pub struct avifRGBFormat(pub u32);

/// The bit set that `avifEncoderAddImage` takes (`avifAddImageFlags`).
pub type avifAddImageFlags = u32;

/// `AVIF_ADD_IMAGE_FLAG_NONE`.
pub const AVIF_ADD_IMAGE_FLAG_NONE: u32 = 0;

/// `AVIF_ADD_IMAGE_FLAG_FORCE_KEYFRAME`.
pub const AVIF_ADD_IMAGE_FLAG_FORCE_KEYFRAME: u32 = 1;

/// `AVIF_ADD_IMAGE_FLAG_SINGLE`.
pub const AVIF_ADD_IMAGE_FLAG_SINGLE: u32 = 2;

/// A byte buffer that libavif fills (`avifRWData`); `None` is a null buffer.
#[derive(Clone, Debug)]
pub struct avifRWData {
    pub data: Option<Vec<u8>>,
}

/// The fields of an `avifImage` that the wrappers read.
#[derive(Clone, Copy, Debug, PartialEq, Eq, Structural)]
pub struct avifImage {
    pub width: u32,
    pub height: u32,
    pub depth: u32,
    pub yuvFormat: avifPixelFormat,
}

/// The settings of an `avifEncoder` that the wrappers read and write.
#[derive(Clone, Copy, Debug, PartialEq, Eq, Structural)]
pub struct avifEncoder {
    pub maxThreads: i32,
    pub speed: i32,
    pub quality: i32,
}

/// An `avifDecoder`; the wrappers read none of its fields.
#[derive(Clone, Copy, Debug, PartialEq, Eq, Structural)]
pub struct avifDecoder {}

/// The fields of an `avifRGBImage` that the wrappers read and write; the
/// pixel rows are `rowBytes` bytes each.
#[derive(Clone, Debug)]
pub struct avifRGBImage {
    pub width: u32,
    pub height: u32,
    pub depth: u32,
    pub format: avifRGBFormat,
    pub rowBytes: u32,
    pub pixels: Vec<u8>,
}

} // verus!
