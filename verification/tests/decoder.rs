use favi::sys::{avifImage, avifPixelFormat, avifResult};
use favi::{BitDepth, Decoder, Error};

#[test]
fn decoder_creation() {
    assert!(Decoder::new(true).is_ok());
    assert!(matches!(Decoder::new(false), Err(Error::AllocationFailed)));
}

#[test]
fn decode_outcomes() {
    let mut decoder = Decoder::new(true).unwrap();
    let decoded = avifImage { width: 640, height: 480, depth: 10, yuvFormat: avifPixelFormat(3) };
    let image = decoder.decode(true, avifResult(0), decoded).unwrap();
    assert_eq!(image.width(), 640);
    assert_eq!(image.height(), 480);
    assert_eq!(image.depth(), Ok(BitDepth::B10));
    assert!(matches!(
        decoder.decode(false, avifResult(0), decoded),
        Err(Error::AllocationFailed)
    ));
    assert!(matches!(
        decoder.decode(true, avifResult(13), decoded),
        Err(Error::Code(avifResult(13)))
    ));
}

#[test]
fn read_request_hands_over_the_file() {
    let decoder = Decoder::new(true).unwrap();
    let file = [0u8, 0, 0, 32, b'f', b't', b'y', b'p'];
    let r = decoder.read_request(&file);
    assert_eq!(r.data, &file[..]);
    assert_eq!(r.image, avifImage { width: 0, height: 0, depth: 0, yuvFormat: avifPixelFormat(0) });
}
