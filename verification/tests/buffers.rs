use fftw3_rust::{Cx, FftBuf, Re, TransformData};

fn r(x: f64) -> Re {
    Re { bits: x.to_bits() }
}

#[test]
fn test_push_records_values_in_order() {
    let mut buf: FftBuf<Re> = FftBuf::new(4);
    assert_eq!(buf.capacity(), 4);
    assert_eq!(buf.len(), 0);
    let vals = [1.5, -2.0, 0.0, 7.25];
    for (i, v) in vals.iter().enumerate() {
        assert!(buf.push(r(*v)));
        assert_eq!(buf.len(), i + 1);
    }
    for (i, v) in vals.iter().enumerate() {
        assert_eq!(buf.get(i), Some(r(*v)));
    }
    assert_eq!(buf.get(4), None);
}

#[test]
fn test_push_beyond_capacity_changes_nothing() {
    let mut buf: FftBuf<Re> = FftBuf::new(2);
    assert!(buf.push(r(1.0)));
    assert!(buf.push(r(2.0)));
    assert!(!buf.push(r(3.0)));
    assert_eq!(buf.len(), 2);
    assert_eq!(buf.get(0), Some(r(1.0)));
    assert_eq!(buf.get(1), Some(r(2.0)));
}

#[test]
fn test_push_slice_all_or_nothing() {
    let mut buf: FftBuf<Re> = FftBuf::new(3);
    assert!(buf.push(r(1.0)));
    assert!(buf.push(r(2.0)));
    assert!(!buf.push_slice(&[r(3.0), r(4.0)]));
    assert_eq!(buf.len(), 2);
    assert_eq!(buf.get(0), Some(r(1.0)));
    assert_eq!(buf.get(1), Some(r(2.0)));
    assert!(buf.push_slice(&[r(3.0)]));
    assert_eq!(buf.len(), 3);
    assert_eq!(buf.get(2), Some(r(3.0)));
}

#[test]
fn test_push_slice_empty_always_fits() {
    let mut buf: FftBuf<Cx> = FftBuf::new(0);
    assert!(buf.push_slice(&[]));
    assert_eq!(buf.len(), 0);
    assert_eq!(buf.capacity(), 0);
    assert!(!buf.push(Cx { re: 0, im: 0 }));
}

#[test]
fn test_pop_returns_last_pushed() {
    let mut buf: FftBuf<Re> = FftBuf::new(3);
    assert_eq!(buf.pop(), None);
    assert!(buf.push(r(1.0)));
    assert!(buf.push(r(2.0)));
    assert_eq!(buf.pop(), Some(r(2.0)));
    assert_eq!(buf.len(), 1);
    assert_eq!(buf.pop(), Some(r(1.0)));
    assert_eq!(buf.pop(), None);
    assert_eq!(buf.capacity(), 3);
}

#[test]
fn test_buffer_cursor_walks_filled_slots() {
    let mut buf: FftBuf<Re> = FftBuf::new(5);
    assert!(buf.push_slice(&[r(4.0), r(5.0), r(6.0)]));
    let mut it = buf.iter();
    assert_eq!(it.next(), Some(r(4.0)));
    assert_eq!(it.next(), Some(r(5.0)));
    assert_eq!(it.next(), Some(r(6.0)));
    assert_eq!(it.next(), None);
    assert_eq!(it.next(), None);
}

#[test]
fn test_as_slice_views_filled_prefix() {
    let mut buf: FftBuf<Re> = FftBuf::new(3);
    assert!(buf.push(r(9.0)));
    assert!(buf.push(r(8.0)));
    assert_eq!(buf.as_slice(), &[r(9.0), r(8.0)]);
    let view = buf.as_mut_slice();
    assert_eq!(view.len(), 2);
    view[0] = r(-9.0);
    assert_eq!(buf.len(), 2);
    assert_eq!(buf.get(0), Some(r(-9.0)));
    assert_eq!(buf.get(1), Some(r(8.0)));
}

#[test]
fn test_transform_sizes_per_kind() {
    assert_eq!(<Re as TransformData>::transform_size(9), 5);
    assert_eq!(<Re as TransformData>::transform_size(8), 5);
    assert_eq!(<Re as TransformData>::transform_size(0), 1);
    assert_eq!(<Cx as TransformData>::transform_size(9), 9);
    assert_eq!(<Cx as TransformData>::transform_size(0), 0);
    assert_eq!(<Re as TransformData>::zero(), r(0.0));
    assert_eq!(<Cx as TransformData>::zero(), Cx { re: 0, im: 0 });
}
