use std::cmp::Ordering;
use std::collections::hash_map::DefaultHasher;
use std::collections::{HashMap, HashSet};
use std::hash::{Hash, Hasher};

use favi::sys::{avifEncoder, avifRWData, avifResult};
use favi::{Data, Encoder, Written};

fn data(bytes: &[u8]) -> Data {
    Encoder::from_raw(avifEncoder { maxThreads: 1, speed: -1, quality: -1 })
        .encode(Written { result: avifResult(0), output: avifRWData { data: Some(bytes.to_vec()) } })
        .unwrap()
}

#[test]
fn equal_bytes_are_equal_data() {
    assert!(data(&[1, 2, 3]) == data(&[1, 2, 3]));
    assert!(data(&[1, 2, 3]) != data(&[1, 2]));
    assert!(data(&[]) == data(&[]));
    assert!(data(&[1, 2, 3]).same_as(&data(&[1, 2, 3])));
}

#[test]
fn data_orders_like_byte_slices() {
    let cases: [(&[u8], &[u8]); 6] = [
        (&[1, 2, 3], &[1, 2, 4]),
        (&[1, 2], &[1, 2, 0]),
        (&[], &[0]),
        (&[9], &[1, 200]),
        (&[5, 5], &[5, 5]),
        (&[255], &[]),
    ];
    for (a, b) in cases {
        assert_eq!(data(a).partial_cmp(&data(b)), a.partial_cmp(b));
        assert_eq!(data(b).partial_cmp(&data(a)), b.partial_cmp(a));
        assert_eq!(data(a).cmp(&data(b)), a.cmp(b));
    }
    assert!(data(&[1]) < data(&[2]));
    assert_eq!(data(&[1, 2]).partial_cmp(&data(&[1, 2])), Some(Ordering::Equal));
}

#[test]
fn data_bytes_can_be_changed() {
    let mut d = data(&[1, 2, 3]);
    d.as_mut_slice()[1] = 20;
    assert_eq!(d.as_slice(), &[1, 20, 3]);
}

#[test]
fn equal_data_hash_alike() {
    let hash = |d: &Data| {
        let mut h = DefaultHasher::new();
        d.hash(&mut h);
        h.finish()
    };
    assert_eq!(hash(&data(&[4, 5, 6])), hash(&data(&[4, 5, 6])));
    let mut h = DefaultHasher::new();
    [4u8, 5, 6][..].hash(&mut h);
    assert_eq!(hash(&data(&[4, 5, 6])), h.finish());
}

#[test]
fn data_is_found_by_its_bytes() {
    let mut set = HashSet::new();
    set.insert(data(&[1, 2, 3]));
    assert!(set.contains(&[1u8, 2, 3][..]));
    assert!(!set.contains(&[1u8, 2][..]));
    let mut map = HashMap::new();
    map.insert(data(&[7]), "seven");
    assert_eq!(map.get(&[7u8][..]), Some(&"seven"));
}

#[test]
fn an_empty_but_present_buffer_is_data() {
    let d = data(&[]);
    assert!(d.as_slice().is_empty());
}

#[test]
fn data_reads_as_a_byte_slice() {
    use_as_slice(&data(&[3, 1, 4]));
    let mut d = data(&[3, 1, 4]);
    assert_eq!(d.len(), 3);
    assert_eq!(&d[..], &[3, 1, 4]);
    d.as_mut()[0] = 9;
    assert_eq!(d.as_ref(), &[9, 1, 4]);
    let b: &[u8] = std::borrow::Borrow::borrow(&d);
    assert_eq!(b, &[9, 1, 4]);
}

fn use_as_slice(bytes: &[u8]) {
    assert_eq!(bytes, &[3, 1, 4]);
}
