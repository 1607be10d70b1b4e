use favi::sys::avifResult;
use favi::Error;

#[test]
fn check_accepts_only_the_success_code() {
    assert_eq!(avifResult(0).check(), Ok(()));
    assert_eq!(avifResult(1).check(), Err(Error::Code(avifResult(1))));
    assert_eq!(avifResult(26).check(), Err(Error::Code(avifResult(26))));
}

#[test]
fn codes_convert_into_errors() {
    let e: Error = avifResult(3).into();
    assert_eq!(e, Error::Code(avifResult(3)));
}

#[test]
fn describe_each_error() {
    assert_eq!(
        Error::Code(avifResult(2)).describe("Invalid ftyp"),
        "Invalid ftyp"
    );
    assert_eq!(
        Error::AllocationFailed.describe(""),
        "libavif failed to allocate memory"
    );
    assert_eq!(
        Error::EmptyOutput.describe(""),
        "libavif reported success but produced no output data"
    );
    assert_eq!(
        Error::InvalidDepth(7).describe(""),
        "image bit depth of 7 is not supported; expected 8, 10, 12, or 16"
    );
    assert_eq!(
        Error::InvalidDepth(4294967295).describe(""),
        "image bit depth of 4294967295 is not supported; expected 8, 10, 12, or 16"
    );
    assert_eq!(
        Error::BufferTooSmall { required: 1200, len: 0 }.describe(""),
        "pixel buffer of 0 bytes is too small; 1200 bytes are required"
    );
    assert_eq!(
        Error::MisalignedBuffer { required: 16 }.describe(""),
        "pixel buffer is not 16-byte aligned"
    );
    assert_eq!(
        Error::SizeOverflow.describe(""),
        "required pixel buffer size for the declared image dimensions overflowed"
    );
}
