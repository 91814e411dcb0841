use packed_integers::{PackedVec, U8, U9};

#[test]
fn iter_of_empty() {
    let v = PackedVec::<U9>::new();
    let mut iter = v.iter();
    assert_eq!(iter.next(), None);
    assert_eq!(iter.next(), None);

    let mut owning = v.into_iter();
    assert_eq!(owning.next(), None);
    assert_eq!(owning.next(), None);
}

#[test]
fn iter_stays_exhausted() {
    let mut v = PackedVec::<U9>::new();
    v.push(510);
    let mut iter = v.iter();
    assert_eq!(iter.next(), Some(510));
    for _ in 0..10 {
        assert_eq!(iter.next(), None);
    }
}

#[test]
fn iter_skips_the_slack() {
    let mut v = PackedVec::<U8>::new();
    v.push(1);
    v.set_unchecked(2, 77);
    let collected: Vec<u32> = v.iter().collect();
    assert_eq!(collected, vec![1]);
}

#[test]
fn iter_can_start_again() {
    let mut v = PackedVec::<U9>::new();
    for x in [507, 508, 509] {
        v.push(x);
    }
    let first: Vec<u32> = v.iter().collect();
    let second: Vec<u32> = v.iter().collect();
    assert_eq!(first, vec![507, 508, 509]);
    assert_eq!(second, first);
    v.push(510);
    let third: Vec<u32> = (&v).into_iter().collect();
    assert_eq!(third, vec![507, 508, 509, 510]);
}

#[test]
fn for_loops_over_both_forms() {
    let mut v = PackedVec::<U9>::new();
    for x in 0..100 {
        v.push(x * 5);
    }
    let mut expected = 0;
    for x in &v {
        assert_eq!(x, expected);
        expected += 5;
    }
    assert_eq!(expected, 500);
    let mut sum = 0;
    for x in v {
        sum += x;
    }
    assert_eq!(sum, 5 * 99 * 100 / 2);
}
