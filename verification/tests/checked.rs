use packed_integers::{PackedVec, PackedVecError, U1, U10, U31, U32, U8, U9};

#[test]
fn try_push_eq_max() {
    let mut v = PackedVec::<U10>::new();
    assert_eq!(v.try_push(1023), Ok(()));
    assert_eq!(v.len(), 1);
    assert_eq!(v.get(0), Some(1023));
}

#[test]
fn try_push_gt_max() {
    let mut v = PackedVec::<U10>::new();
    v.push(5);
    assert_eq!(v.try_push(1024), Err(PackedVecError::ValueOutOfRange));
    assert_eq!(v.try_push(u32::MAX), Err(PackedVecError::ValueOutOfRange));
    assert_eq!(v.len(), 1);
    assert_eq!(v.buf_len(), 1);
    assert_eq!(v.get(0), Some(5));
    assert_eq!(v.get_unchecked(1), 0);
}

#[test]
fn try_push_at_the_edge_of_each_width() {
    let mut a = PackedVec::<U1>::new();
    assert_eq!(a.try_push(1), Ok(()));
    assert_eq!(a.try_push(2), Err(PackedVecError::ValueOutOfRange));

    let mut b = PackedVec::<U8>::new();
    assert_eq!(b.try_push(255), Ok(()));
    assert_eq!(b.try_push(256), Err(PackedVecError::ValueOutOfRange));

    let mut c = PackedVec::<U9>::new();
    assert_eq!(c.try_push(511), Ok(()));
    assert_eq!(c.try_push(512), Err(PackedVecError::ValueOutOfRange));

    let mut d = PackedVec::<U31>::new();
    assert_eq!(d.try_push(0x7FFF_FFFF), Ok(()));
    assert_eq!(d.try_push(0x8000_0000), Err(PackedVecError::ValueOutOfRange));

    let mut e = PackedVec::<U32>::new();
    assert_eq!(e.try_push(u32::MAX), Ok(()));
    assert_eq!(e.get(0), Some(u32::MAX));
}

#[test]
fn try_set_in_bounds() {
    let mut v = PackedVec::<U8>::new();
    v.push(1);
    v.push(2);
    v.push(3);
    assert_eq!(v.try_set(1, 255), Ok(()));
    assert_eq!(v.get(0), Some(1));
    assert_eq!(v.get(1), Some(255));
    assert_eq!(v.get(2), Some(3));
    assert_eq!(v.len(), 3);
}

#[test]
fn try_set_oob() {
    let mut v = PackedVec::<U8>::new();
    assert_eq!(v.try_set(0, 1), Err(PackedVecError::IndexOutOfBounds));
    v.push(100);
    assert_eq!(v.try_set(1, 200), Err(PackedVecError::IndexOutOfBounds));
    assert_eq!(v.try_set(usize::MAX, 200), Err(PackedVecError::IndexOutOfBounds));
    assert_eq!(v.len(), 1);
    assert_eq!(v.get(0), Some(100));
    // Slot 1 lies in the buffer and was not written.
    assert_eq!(v.get_unchecked(1), 0);
}

#[test]
fn try_set_gt_max() {
    let mut v = PackedVec::<U8>::new();
    v.push(100);
    v.push(101);
    assert_eq!(v.try_set(0, 256), Err(PackedVecError::ValueOutOfRange));
    assert_eq!(v.get(0), Some(100));
    assert_eq!(v.get(1), Some(101));
}

#[test]
fn try_set_reports_the_index_first() {
    let mut v = PackedVec::<U8>::new();
    v.push(100);
    assert_eq!(v.try_set(1, 256), Err(PackedVecError::IndexOutOfBounds));
    assert_eq!(v.try_set(0, 256), Err(PackedVecError::ValueOutOfRange));
    assert_eq!(v.get(0), Some(100));
}
