use favi::sys::{avifEncoder, avifRWData, avifResult};
use favi::sys::{avifImage, avifPixelFormat};
use favi::{AddImageFlags, AddImageRequest, Encoder, Error, Image, WriteRequest, Written};

fn encoder() -> Encoder {
    Encoder::from_raw(avifEncoder { maxThreads: 1, speed: -1, quality: -1 })
}

#[test]
fn settings_chain_and_read_back() {
    let mut e = encoder();
    e.set_quality(30).set_max_threads(24).set_speed(7);
    assert_eq!(e.quality(), 30);
    assert_eq!(e.max_threads(), 24);
    assert_eq!(e.speed(), 7);
    e.set_speed(3);
    assert_eq!(e.speed(), 3);
    assert_eq!(e.quality(), 30);
    assert_eq!(*e.as_raw(), avifEncoder { maxThreads: 24, speed: 3, quality: 30 });
    e.as_raw_mut().quality = 90;
    assert_eq!(e.quality(), 90);
}

#[test]
fn new_encoder_takes_what_libavif_made() {
    let e = Encoder::new(Some(avifEncoder { maxThreads: 1, speed: 6, quality: 60 })).unwrap();
    assert_eq!(e.speed(), 6);
    assert!(matches!(Encoder::new(None), Err(Error::AllocationFailed)));
}

#[test]
fn encode_returns_the_written_bytes() {
    let data = encoder()
        .encode(Written {
            result: avifResult(0),
            output: avifRWData { data: Some(vec![0, 0, 0, 28, b'f', b't', b'y', b'p']) },
        })
        .unwrap();
    assert_eq!(data.as_slice(), &[0, 0, 0, 28, b'f', b't', b'y', b'p']);
}

#[test]
fn encode_reports_errors() {
    let failed = encoder().encode(Written {
        result: avifResult(4),
        output: avifRWData { data: Some(vec![1, 2]) },
    });
    assert!(matches!(failed, Err(Error::Code(avifResult(4)))));
    let empty = encoder().encode(Written { result: avifResult(0), output: avifRWData { data: None } });
    assert!(matches!(empty, Err(Error::EmptyOutput)));
}

#[test]
fn frames_then_finish() {
    let mut e = encoder();
    assert_eq!(e.add_image(avifResult(0)), Ok(()));
    assert_eq!(e.add_image(avifResult(9)), Err(Error::Code(avifResult(9))));
    let data = e
        .finish(Written { result: avifResult(0), output: avifRWData { data: Some(vec![9, 8, 7]) } })
        .unwrap();
    assert_eq!(data.as_slice(), &[9, 8, 7]);
    let none = encoder().finish(Written { result: avifResult(0), output: avifRWData { data: None } });
    assert!(matches!(none, Err(Error::EmptyOutput)));
}

#[test]
fn add_image_flags() {
    assert_eq!(AddImageFlags::none().bits(), 0);
    assert_eq!(AddImageFlags::force_keyframe().bits(), 1);
    assert_eq!(AddImageFlags::single().bits(), 2);
    assert_eq!(AddImageFlags::all().bits(), 3);
    assert!(AddImageFlags::empty().is_empty());
    assert!(AddImageFlags::all().is_all());
    assert!(!AddImageFlags::single().is_all());
    assert!(!AddImageFlags::empty().is_all());
    let both = AddImageFlags::force_keyframe().union(AddImageFlags::single());
    assert_eq!(both, AddImageFlags::all());
    assert!(both.contains(AddImageFlags::single()));
    assert!(both.intersects(AddImageFlags::force_keyframe()));
    let mut f = AddImageFlags::none();
    f.insert(AddImageFlags::single());
    assert!(f.contains(AddImageFlags::single()));
    assert!(!f.contains(AddImageFlags::force_keyframe()));
    f.remove(AddImageFlags::single());
    assert!(f.is_empty());
    assert_eq!(AddImageFlags::from_bits(2), Some(AddImageFlags::single()));
    assert_eq!(AddImageFlags::from_bits(4), None);
    assert_eq!(AddImageFlags::from_bits_truncate(7), AddImageFlags::all());
    assert_eq!(both.intersection(AddImageFlags::single()), AddImageFlags::single());
    assert_eq!(both.difference(AddImageFlags::single()), AddImageFlags::force_keyframe());
}

#[test]
fn more_flag_operations() {
    let k = AddImageFlags::force_keyframe();
    let s = AddImageFlags::single();
    assert_eq!((k | s).bits(), 3);
    assert_eq!(((k | s) & s).bits(), 2);
    assert_eq!((k ^ (k | s)).bits(), 2);
    assert_eq!(((k | s) - k).bits(), 2);
    assert_eq!((!k).bits(), 2);
    assert_eq!(k.complement(), s);
    assert_eq!(AddImageFlags::all().complement(), AddImageFlags::empty());
    assert_eq!(k.symmetric_difference(s), AddImageFlags::all());
    let mut f = k;
    f.toggle(AddImageFlags::all());
    assert_eq!(f, s);
    f.set(k, true);
    assert_eq!(f, AddImageFlags::all());
    f.set(s, false);
    assert_eq!(f, k);
    assert_eq!(AddImageFlags::all().iter(), vec![k, s]);
    assert_eq!(s.iter(), vec![s]);
    assert!(AddImageFlags::none().iter().is_empty());
}

#[test]
fn requests_hand_over_settings_and_arguments() {
    let mut e = encoder();
    e.set_quality(50).set_speed(4);
    let img = Image::from_raw(avifImage { width: 8, height: 6, depth: 8, yuvFormat: avifPixelFormat(3) });
    let settings = avifEncoder { maxThreads: 1, speed: 4, quality: 50 };
    assert_eq!(e.write_request(&img), WriteRequest { settings, image: *img.as_raw() });
    assert_eq!(
        e.add_image_request(&img, 30, AddImageFlags::force_keyframe() | AddImageFlags::single()),
        AddImageRequest { settings, image: *img.as_raw(), duration_in_timescales: 30, flags: 3 }
    );
    assert_eq!(e.finish_request(), settings);
}
