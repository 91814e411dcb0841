use packed_integers::layout::{locate, slots_for, words_for};
use packed_integers::{PackedVec, U1, U31, U32, U8, U9};

#[test]
fn buflen_no_span() {
    let mut v = PackedVec::<U8>::new();
    v.push(1);
    v.push(2);
    v.push(3);
    v.push(4);
    assert_eq!(v.buf_len(), 1);

    v.push(5);
    assert_eq!(v.buf_len(), 2);
}

#[test]
fn buflen_has_span() {
    let mut v = PackedVec::<U9>::new();
    v.push(1);
    v.push(2);
    v.push(3);
    assert_eq!(v.buf_len(), 1);

    v.push(4);
    assert_eq!(v.buf_len(), 2);
}

#[test]
fn capacity() {
    let v1 = PackedVec::<U9>::with_capacity(7);
    assert_eq!(v1.buf_capacity(), 2);
    assert_eq!(v1.capacity(), 7);

    let v2 = PackedVec::<U9>::with_capacity(8);
    assert_eq!(v2.buf_capacity(), 3);
    assert_eq!(v2.capacity(), 10);
}

#[test]
fn buflen_starts_at_zero() {
    let v = PackedVec::<U9>::new();
    assert_eq!(v.buf_len(), 0);
    assert_eq!(v.len(), 0);

    let w = PackedVec::<U9>::with_capacity(100);
    assert_eq!(w.buf_len(), 0);
    assert_eq!(w.len(), 0);
}

#[test]
fn buflen_width_one() {
    let mut v = PackedVec::<U1>::new();
    for i in 0..32 {
        v.push(i % 2);
    }
    assert_eq!(v.buf_len(), 1);
    v.push(1);
    assert_eq!(v.buf_len(), 2);
}

#[test]
fn buflen_width_thirty_two() {
    let mut v = PackedVec::<U32>::new();
    v.push(u32::MAX);
    assert_eq!(v.buf_len(), 1);
    v.push(7);
    assert_eq!(v.buf_len(), 2);
    assert_eq!(v.get(0), Some(u32::MAX));
    assert_eq!(v.get(1), Some(7));
}

#[test]
fn buflen_follows_length() {
    let mut v = PackedVec::<U9>::new();
    for i in 0..200usize {
        assert_eq!(v.buf_len(), words_for(9, i));
        assert_eq!(v.buf_len(), (i * 9 + 31) / 32);
        v.push(i as u32);
    }
}

#[test]
fn buflen_unchanged_by_set() {
    let mut v = PackedVec::<U9>::new();
    for i in 0..10 {
        v.push(i);
    }
    let words = v.buf_len();
    v.set(3, 511);
    v.set_unchecked(7, 0);
    assert_eq!(v.buf_len(), words);
    assert_eq!(v.len(), 10);
}

#[test]
fn capacity_covers_request() {
    for n in 0..300usize {
        assert!(PackedVec::<U1>::with_capacity(n).capacity() >= n);
        assert!(PackedVec::<U8>::with_capacity(n).capacity() >= n);
        assert!(PackedVec::<U9>::with_capacity(n).capacity() >= n);
        assert!(PackedVec::<U31>::with_capacity(n).capacity() >= n);
        assert!(PackedVec::<U32>::with_capacity(n).capacity() >= n);
    }
}

#[test]
fn capacity_never_below_length() {
    let mut v = PackedVec::<U9>::new();
    assert_eq!(v.capacity(), 0);
    for i in 0..100 {
        v.push(i);
        assert!(v.capacity() >= v.len());
        assert!(v.buf_capacity() >= v.buf_len());
        assert_eq!(v.capacity(), slots_for(9, v.buf_capacity()));
    }
}

#[test]
fn words_for_rounds_up() {
    assert_eq!(words_for(9, 0), 0);
    assert_eq!(words_for(9, 1), 1);
    assert_eq!(words_for(9, 3), 1);
    assert_eq!(words_for(9, 4), 2);
    assert_eq!(words_for(9, 7), 2);
    assert_eq!(words_for(9, 8), 3);
    assert_eq!(words_for(8, 4), 1);
    assert_eq!(words_for(8, 5), 2);
    assert_eq!(words_for(1, 32), 1);
    assert_eq!(words_for(1, 33), 2);
    assert_eq!(words_for(32, 5), 5);
    assert_eq!(words_for(32, usize::MAX), usize::MAX);
    assert_eq!(words_for(16, usize::MAX), usize::MAX / 2 + 1);
}

#[test]
fn slots_for_rounds_down() {
    assert_eq!(slots_for(9, 0), 0);
    assert_eq!(slots_for(9, 1), 3);
    assert_eq!(slots_for(9, 2), 7);
    assert_eq!(slots_for(9, 3), 10);
    assert_eq!(slots_for(8, 2), 8);
    assert_eq!(slots_for(32, 6), 6);
    assert_eq!(slots_for(1, 2), 64);
    assert_eq!(slots_for(31, 31), 32);
}

#[test]
fn slots_for_stops_at_the_largest_count() {
    assert_eq!(slots_for(1, usize::MAX), usize::MAX);
    assert_eq!(slots_for(31, usize::MAX), usize::MAX);
    assert_eq!(slots_for(32, usize::MAX), usize::MAX);
    assert_eq!(slots_for(16, usize::MAX / 2), usize::MAX - 1);
}

#[test]
fn locate_finds_word_and_bit() {
    assert_eq!(locate(9, 0), (0, 0));
    assert_eq!(locate(9, 1), (0, 9));
    assert_eq!(locate(9, 3), (0, 27));
    assert_eq!(locate(9, 4), (1, 4));
    assert_eq!(locate(9, 7), (1, 31));
    assert_eq!(locate(9, 8), (2, 8));
    assert_eq!(locate(8, 5), (1, 8));
    assert_eq!(locate(32, 5), (5, 0));
    assert_eq!(locate(1, 33), (1, 1));
    assert_eq!(locate(32, usize::MAX), (usize::MAX, 0));
    assert_eq!(locate(16, usize::MAX), (usize::MAX / 2, 16));
}
