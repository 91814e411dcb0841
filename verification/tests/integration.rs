use packed_integers::{PackedVec, U10, U8, U9};

#[test]
fn get_has_span() {
    let v1 = vec![507, 508, 509, 510, 511];

    let mut v2 = PackedVec::<U9>::new();
    for x in &v1 {
        v2.push(*x);
    }

    assert_eq!(v2.len(), v1.len());
    assert_eq!(v2.get(0).unwrap(), v1[0]);
    assert_eq!(v2.get(1).unwrap(), v1[1]);
    assert_eq!(v2.get(2).unwrap(), v1[2]);
    assert_eq!(v2.get(3).unwrap(), v1[3]);
    assert_eq!(v2.get(4).unwrap(), v1[4]);
}

#[test]
fn get_no_span() {
    let v1 = vec![251, 252, 253, 254, 255];

    let mut v2 = PackedVec::<U8>::new();
    for x in &v1 {
        v2.push(*x);
    }

    assert_eq!(v2.len(), v1.len());
    assert_eq!(v2.get(0).unwrap(), v1[0]);
    assert_eq!(v2.get(1).unwrap(), v1[1]);
    assert_eq!(v2.get(2).unwrap(), v1[2]);
    assert_eq!(v2.get(3).unwrap(), v1[3]);
    assert_eq!(v2.get(4).unwrap(), v1[4]);
}

#[test]
#[should_panic]
fn get_unchecked() {
    let v1 = vec![251, 252, 253, 254, 255];

    let mut v2 = PackedVec::<U8>::new();
    for x in &v1 {
        v2.push(*x);
    }

    assert_eq!(v2.get_unchecked(0), v1[0]);
    assert_eq!(v2.get_unchecked(1), v1[1]);
    assert_eq!(v2.get_unchecked(2), v1[2]);
    assert_eq!(v2.get_unchecked(3), v1[3]);
    assert_eq!(v2.get_unchecked(4), v1[4]);

    // Slots of the slack: the second word has room for them.
    assert_eq!(v2.get_unchecked(5), 0);
    assert_eq!(v2.get_unchecked(6), 0);
    assert_eq!(v2.get_unchecked(7), 0);
    // The buffer has no third word.
    v2.get_unchecked(8);
}

#[test]
fn into_iter_move() {
    let v1 = vec![251, 252, 253, 254, 255];

    let mut v2 = PackedVec::<U8>::new();
    for x in &v1 {
        v2.push(*x);
    }

    let mut iter = v2.into_iter();
    assert_eq!(iter.next().unwrap(), v1[0]);
    assert_eq!(iter.next().unwrap(), v1[1]);
    assert_eq!(iter.next().unwrap(), v1[2]);
    assert_eq!(iter.next().unwrap(), v1[3]);
    assert_eq!(iter.next().unwrap(), v1[4]);
    assert_eq!(iter.next(), None);
}

#[test]
fn into_iter_ref() {
    let v1 = vec![507, 508, 509, 510, 511];

    let mut v2 = PackedVec::<U9>::new();
    for x in &v1 {
        v2.push(*x);
    }

    let mut iter = (&v2).into_iter();
    assert_eq!(iter.next().unwrap(), v1[0]);
    assert_eq!(iter.next().unwrap(), v1[1]);
    assert_eq!(iter.next().unwrap(), v1[2]);
    assert_eq!(iter.next().unwrap(), v1[3]);
    assert_eq!(iter.next().unwrap(), v1[4]);
    assert_eq!(iter.next(), None);
}

#[test]
fn iter() {
    let v1 = vec![507, 508, 509, 510, 511];

    let mut v2 = PackedVec::<U9>::new();
    for x in &v1 {
        v2.push(*x);
    }

    let mut iter = v2.iter();
    assert_eq!(iter.next().unwrap(), v1[0]);
    assert_eq!(iter.next().unwrap(), v1[1]);
    assert_eq!(iter.next().unwrap(), v1[2]);
    assert_eq!(iter.next().unwrap(), v1[3]);
    assert_eq!(iter.next().unwrap(), v1[4]);
    assert_eq!(iter.next(), None);
}

#[test]
fn push_eq_max() {
    let mut v = PackedVec::<U10>::new();
    v.push(1023);
}

#[test]
#[should_panic]
fn push_gt_max() {
    let mut v = PackedVec::<U10>::new();
    v.push(1024);
}

#[test]
fn set() {
    let v1 = vec![251, 252, 253, 254, 255];

    let mut v2 = PackedVec::<U8>::new();
    for x in &v1 {
        v2.push(*x);
    }
    v2.set(0, 100);
    v2.set(2, 150);
    v2.set(4, 200);

    assert_eq!(v2.get(0).unwrap(), 100);
    assert_eq!(v2.get(1).unwrap(), v1[1]);
    assert_eq!(v2.get(2).unwrap(), 150);
    assert_eq!(v2.get(3).unwrap(), v1[3]);
    assert_eq!(v2.get(4).unwrap(), 200);
}

#[test]
#[should_panic]
fn set_oob() {
    let mut v = PackedVec::<U8>::new();
    v.push(100);
    v.set(1, 200);
}

#[test]
#[should_panic]
fn set_unchecked() {
    let mut v = PackedVec::<U8>::new();
    v.push(100);
    v.set_unchecked(1, 101);
    v.set_unchecked(2, 102);
    v.set_unchecked(3, 103);
    // The buffer has no second word.
    v.set_unchecked(4, 104);
}
