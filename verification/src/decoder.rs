//! The AVIF decoder.

use vstd::prelude::*;

use crate::error::{Error, Result};
use crate::image::{created_image, Image};
use crate::sys;

verus! {

/// An AVIF decoder.
pub struct Decoder {
    raw: sys::avifDecoder,
}

/// The outcome of decoding, given whether libavif could allocate the empty
/// image to decode into, the result code of reading the file into it, and
/// the image as the read left it.
pub open spec fn decode_outcome(image_allocated: bool, result: sys::avifResult, decoded: sys::avifImage, r: Result<Image>) -> bool {
    if !image_allocated {
        r matches Err(Error::AllocationFailed)
    } else if !result.is_ok_spec() {
        r matches Err(e) && e == Error::Code(result)
    } else {
        r matches Ok(image) && image@ == decoded
    }
}

/// What `avifDecoderReadMemory` is handed: the empty image to decode into
/// and the bytes of the file.
pub struct ReadRequest<'a> {
    pub image: sys::avifImage,
    pub data: &'a [u8],
}

/// A decode that libavif allocated for and reported as a success hands back
/// the image exactly as libavif's read left it, every field included; any
/// other report gives an error.
pub proof fn lemma_decode_keeps_decoded_image(
    image_allocated: bool,
    result: sys::avifResult,
    decoded: sys::avifImage,
    r: Result<Image>,
)
    requires
        decode_outcome(image_allocated, result, decoded, r),
    ensures
        image_allocated && result.0 == sys::AVIF_RESULT_OK ==> (r matches Ok(image)
            && image@.width == decoded.width && image@.height == decoded.height
            && image@.depth == decoded.depth && image@.yuvFormat == decoded.yuvFormat),
        !image_allocated ==> r matches Err(Error::AllocationFailed),
        image_allocated && result.0 != sys::AVIF_RESULT_OK ==> (r matches Err(Error::Code(c))
            && c == result),
{
}

impl Decoder {
    /// A decoder, or [`Error::AllocationFailed`] when libavif could not
    /// allocate one.
    pub fn new(allocated: bool) -> (r: Result<Self>)
        ensures
            allocated <==> r is Ok,
            !allocated ==> r matches Err(Error::AllocationFailed),
    {
        if !allocated {
            return Err(Error::AllocationFailed);
        }
        Ok(Decoder { raw: sys::avifDecoder {  } })
    }

    /// The call that reads the AVIF file `data` into an empty image.
    pub fn read_request<'a>(&self, data: &'a [u8]) -> (r: ReadRequest<'a>)
        ensures
            r.image == created_image(0, 0, 0, sys::avifPixelFormat(0)),
            r.data@ == data@,
    {
        ReadRequest {
            image: sys::avifImage { width: 0, height: 0, depth: 0, yuvFormat: sys::avifPixelFormat(0) },
            data,
        }
    }

    /// The image decoded from an AVIF file.
    ///
    /// An empty image is made to decode into (`image_allocated` tells whether
    /// libavif could allocate it); libavif then reads the file into it,
    /// reporting `result` and leaving the image as `decoded`.
    pub fn decode(&mut self, image_allocated: bool, result: sys::avifResult, decoded: sys::avifImage) -> (r: Result<Image>)
        ensures
            decode_outcome(image_allocated, result, decoded, r),
            image_allocated && result.is_ok_spec() ==> (r matches Ok(image) && image@ == decoded),
            r matches Ok(image) ==> image@.width == decoded.width && image@.height == decoded.height
                && image@.depth == decoded.depth && image@.yuvFormat == decoded.yuvFormat,
    {
        let mut image = Image::empty(image_allocated)?;
        result.check()?;
        *image.as_raw_mut() = decoded;
        Ok(image)
    }
}

} // verus!
