//! The derived operations: choice, shuffling, reservoir sampling, byte
//! and text strings, and weighted choice.

use rand::rng;
use rand::derived::RandIterator;
use rand::derived::Weighted;
use rand::derived::choose_nonempty;
use rand::derived::choose_option;
use rand::derived::choose_weighted;
use rand::derived::choose_weighted_option;
use rand::derived::gen_ascii_str;
use rand::derived::gen_bool;
use rand::derived::gen_bytes;
use rand::derived::gen_i16;
use rand::derived::gen_i32;
use rand::derived::gen_i64;
use rand::derived::gen_i8;
use rand::derived::gen_u16;
use rand::derived::gen_u32;
use rand::derived::gen_u64;
use rand::derived::gen_u8;
use rand::derived::gen_usize;
use rand::derived::gen_weighted_bool;
use rand::derived::sample;
use rand::derived::shuffle;
use rand::derived::shuffle_mut;
use rand::derived::weighted_vec;

#[test]
fn test_choose_nonempty() {
    let mut r = rng();
    let v = vec![1i32, 1, 1];
    assert_eq!(choose_nonempty(&mut r, &v), &1i32);
}

#[test]
fn test_choose() {
    let mut r = rng();
    let v: Vec<i32> = vec![];
    let x: Option<&i32> = choose_option(&mut r, &v);
    assert!(x.is_none());
    let v = vec![1i32, 1, 1];
    assert_eq!(*choose_option(&mut r, &v).unwrap(), 1i32);
}

#[test]
fn test_shuffle() {
    let mut r = rng();
    let empty: Vec<i32> = vec![];
    assert_eq!(shuffle(&mut r, Vec::<i32>::new()), empty);
    assert_eq!(shuffle(&mut r, vec![1, 1, 1]), vec![1, 1, 1]);
}

#[test]
fn mod_test_iter() {
    let mut it = RandIterator::new(rng());
    let _: u32 = it.next_value();
}

#[test]
fn traits_test_iter() {
    let mut it = RandIterator::new(rng());
    let _: u32 = it.next_value();
}

#[test]
fn shuffle_permutes() {
    // Shuffling always yields a permutation of the original multiset.
    let mut r = rng();
    let original: Vec<u32> = (0..50).collect();
    let mut v = original.clone();
    shuffle_mut(&mut r, &mut v);
    assert_eq!(v.len(), original.len());
    let mut sorted = v.clone();
    sorted.sort();
    assert_eq!(sorted, original);

    let mut one = vec![7u32];
    shuffle_mut(&mut r, &mut one);
    assert_eq!(one, vec![7u32]);
}

#[test]
fn sample_sizes() {
    // Sampling n items from a longer input yields exactly n; from a
    // shorter input, the whole input.
    let mut r = rng();
    let input: Vec<u32> = (0..100).collect();
    let s = sample(&mut r, input.clone(), 10);
    assert_eq!(s.len(), 10);
    for x in s.iter() {
        assert!(input.contains(x));
    }
    let s = sample(&mut r, vec![1u32, 2, 3], 10);
    assert_eq!(s.len(), 3);
    let s = sample(&mut r, Vec::<u32>::new(), 4);
    assert_eq!(s.len(), 0);
    let s = sample(&mut r, input.clone(), 0);
    assert_eq!(s.len(), 0);
}

#[test]
fn typed_draws_reinterpret_the_stream() {
    // Each typed draw is the next word (or its low bits) reinterpreted,
    // so two equal generators agree across types.
    let mut a = rng();
    let mut b = rng();
    assert_eq!(gen_u32(&mut a), gen_i32(&mut b) as u32);
    assert_eq!(gen_u64(&mut a), gen_i64(&mut b) as u64);
    assert_eq!(gen_u8(&mut a), gen_i8(&mut b) as u8);
    assert_eq!(gen_u16(&mut a), gen_i16(&mut b) as u16);
    let x = gen_u64(&mut a) as usize;
    assert_eq!(x, gen_usize(&mut b));
}

#[test]
fn bytes_and_bools() {
    let mut r = rng();
    let b = gen_bytes(&mut r, 1000);
    assert_eq!(b.len(), 1000);
    let _ = gen_u8(&mut r);
    let _ = gen_bool(&mut r);
    assert!(gen_weighted_bool(&mut r, 0));
    let mut trues = 0u32;
    for _ in 0..1000 {
        if gen_weighted_bool(&mut r, 1) {
            trues += 1;
        }
    }
    assert_eq!(trues, 1000);
}

#[test]
fn ascii_str_charset_and_length() {
    let mut r = rng();
    let s = gen_ascii_str(&mut r, 500);
    assert_eq!(s.len(), 500);
    for c in s.chars() {
        assert!(c.is_ascii_alphanumeric());
    }
}

#[test]
fn weighted_choice() {
    let mut r = rng();
    let v = vec![
        Weighted { weight: 0, item: 10u32 },
        Weighted { weight: 5, item: 20u32 },
        Weighted { weight: 0, item: 30u32 },
    ];
    // Only the item with nonzero weight can come out.
    for _ in 0..100 {
        assert_eq!(*choose_weighted(&mut r, &v), 20u32);
    }
    let zero = vec![Weighted { weight: 0, item: 1u32 }];
    assert!(choose_weighted_option(&mut r, &zero).is_none());
}

#[test]
fn weighted_vec_repeats_items() {
    let v = vec![
        Weighted { weight: 2, item: 1u32 },
        Weighted { weight: 0, item: 2u32 },
        Weighted { weight: 3, item: 3u32 },
    ];
    assert_eq!(weighted_vec(&v), vec![1, 1, 3, 3, 3]);
}
