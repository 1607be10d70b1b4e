use favi::sys::{avifImage, avifPixelFormat, avifRGBFormat, avifResult};
use favi::{BitDepth, Error, Image, PixelFormat, RgbConversion, RgbFormat, RgbImage, RgbRequest};

fn image(width: u32, height: u32, depth: u32) -> Image {
    Image::from_raw(avifImage {
        width,
        height,
        depth,
        yuvFormat: avifPixelFormat(3),
    })
}

#[test]
fn bit_depths_and_their_bits() {
    assert_eq!(BitDepth::B8.bits(), 8);
    assert_eq!(BitDepth::B10.bits(), 10);
    assert_eq!(BitDepth::B12.bits(), 12);
    assert_eq!(BitDepth::B16.bits(), 16);
    for d in [BitDepth::B8, BitDepth::B10, BitDepth::B12, BitDepth::B16] {
        assert_eq!(BitDepth::try_from(d.bits()), Ok(d));
    }
    assert_eq!(BitDepth::try_from(9), Err(Error::InvalidDepth(9)));
    assert_eq!(BitDepth::try_from(0), Err(Error::InvalidDepth(0)));
}

#[test]
fn format_codes() {
    assert_eq!(PixelFormat::FormatNone.code(), avifPixelFormat(0));
    assert_eq!(PixelFormat::YUV444.code(), avifPixelFormat(1));
    assert_eq!(PixelFormat::YUV420.code(), avifPixelFormat(3));
    assert_eq!(PixelFormat::YUV400.code(), avifPixelFormat(4));
    assert_eq!(RgbFormat::Rgb.code(), avifRGBFormat(0));
    assert_eq!(RgbFormat::Rgba.code(), avifRGBFormat(1));
    assert_eq!(RgbFormat::Rgb565.code(), avifRGBFormat(6));
    assert_eq!(RgbFormat::AGray.code(), avifRGBFormat(9));
}

#[test]
fn image_fields_and_depth() {
    let img = image(64, 32, 10);
    assert_eq!(img.width(), 64);
    assert_eq!(img.height(), 32);
    assert_eq!(img.raw_depth(), 10);
    assert_eq!(img.depth(), Ok(BitDepth::B10));
    let odd = image(1, 1, 11);
    assert_eq!(odd.raw_depth(), 11);
    assert_eq!(odd.depth(), Err(Error::InvalidDepth(11)));
}

#[test]
fn new_and_empty_images() {
    let img = Image::new(5, 7, BitDepth::B12, PixelFormat::YUV422, true).unwrap();
    assert_eq!(
        *img.as_raw(),
        avifImage { width: 5, height: 7, depth: 12, yuvFormat: avifPixelFormat(2) }
    );
    assert!(matches!(
        Image::new(5, 7, BitDepth::B12, PixelFormat::YUV422, false),
        Err(Error::AllocationFailed)
    ));
    let empty = Image::empty(true).unwrap();
    assert_eq!(
        *empty.as_raw(),
        avifImage { width: 0, height: 0, depth: 0, yuvFormat: avifPixelFormat(0) }
    );
    assert!(matches!(Image::empty(false), Err(Error::AllocationFailed)));
}

#[test]
fn raw_image_can_be_changed() {
    let mut img = image(2, 2, 8);
    img.as_raw_mut().depth = 16;
    assert_eq!(img.depth(), Ok(BitDepth::B16));
}

fn conversion(allocation: u32, conversion: u32) -> RgbConversion {
    RgbConversion {
        allocation: avifResult(allocation),
        row_bytes: 12,
        pixels: vec![7u8; 12 * 2],
        conversion: avifResult(conversion),
    }
}

#[test]
fn to_rgb_keeps_size_and_takes_depth_and_layout() {
    let img = image(4, 2, 8);
    let rgb = img.to_rgb(BitDepth::B8, RgbFormat::Rgb, conversion(0, 0)).unwrap();
    assert_eq!(rgb.width(), 4);
    assert_eq!(rgb.height(), 2);
    assert_eq!(rgb.pixels().len(), 24);
    assert!(rgb.pixels().iter().all(|&p| p == 7));
}

#[test]
fn to_rgb_reports_the_first_failing_step() {
    let img = image(4, 2, 8);
    assert!(matches!(
        img.to_rgb(BitDepth::B8, RgbFormat::Rgb, conversion(26, 3)),
        Err(Error::Code(avifResult(26)))
    ));
    assert!(matches!(
        img.to_rgb(BitDepth::B8, RgbFormat::Rgb, conversion(0, 3)),
        Err(Error::Code(avifResult(3)))
    ));
    assert!(matches!(
        RgbImage::from_image(&img, BitDepth::B10, RgbFormat::Bgra, conversion(0, 3)),
        Err(Error::Code(avifResult(3)))
    ));
}

#[test]
fn from_rgb_makes_an_image_of_the_same_size() {
    let img = image(4, 2, 8);
    let rgb = img.to_rgb(BitDepth::B8, RgbFormat::Rgb, conversion(0, 0)).unwrap();
    let back = Image::from_rgb(&rgb, BitDepth::B10, PixelFormat::YUV444, true, avifResult(0)).unwrap();
    assert_eq!(
        *back.as_raw(),
        avifImage { width: 4, height: 2, depth: 10, yuvFormat: avifPixelFormat(1) }
    );
    assert!(matches!(
        rgb.to_image(BitDepth::B10, PixelFormat::YUV444, false, avifResult(0)),
        Err(Error::AllocationFailed)
    ));
    assert!(matches!(
        rgb.to_image(BitDepth::B10, PixelFormat::YUV444, true, avifResult(5)),
        Err(Error::Code(avifResult(5)))
    ));
}

#[test]
fn enums_order_by_their_codes() {
    assert!(BitDepth::B8 < BitDepth::B10 && BitDepth::B12 < BitDepth::B16);
    assert!(PixelFormat::FormatNone < PixelFormat::YUV444 && PixelFormat::YUV420 < PixelFormat::YUV400);
    assert!(RgbFormat::Rgb < RgbFormat::Rgba && RgbFormat::GrayA < RgbFormat::AGray);
    assert_eq!([BitDepth::B16, BitDepth::B8].iter().max(), Some(&BitDepth::B16));
}

#[test]
fn conversion_requests() {
    assert_eq!(
        Image::create_request(3, 5, BitDepth::B10, PixelFormat::YUV420),
        avifImage { width: 3, height: 5, depth: 10, yuvFormat: avifPixelFormat(3) }
    );
    let img = image(4, 2, 8);
    assert_eq!(
        RgbImage::conversion_request(&img, BitDepth::B16, RgbFormat::Bgra),
        RgbRequest { width: 4, height: 2, depth: 16, format: avifRGBFormat(4) }
    );
    let rgb = img.to_rgb(BitDepth::B8, RgbFormat::Rgb, conversion(0, 0)).unwrap();
    assert_eq!(
        rgb.image_request(BitDepth::B12, PixelFormat::YUV444),
        avifImage { width: 4, height: 2, depth: 12, yuvFormat: avifPixelFormat(1) }
    );
}
