//! Byte-to-word seed decoding and the distribution combinators.

use rand::Rng;
use rand::lfsr::LFSR258;
use rand::words32_from_bytes_le;
use rand::words64_from_bytes_le;
use rand::distributions::JointDistribution;
use rand::distributions::ListDist;
use rand::distributions::RangeDist;
use rand::lfsr::lfsr258_seed_from_entropy;
use rand::rng;

#[test]
fn words32_little_endian() {
    let bytes = vec![0x78u8, 0x56, 0x34, 0x12, 0xFF, 0x00, 0x00, 0x00, 0xAA];
    let words = words32_from_bytes_le(&bytes);
    assert_eq!(words, vec![0x12345678u32, 0xFF]);
}

#[test]
fn words64_little_endian() {
    let bytes = vec![1u8, 0, 0, 0, 0, 0, 0, 0x80, 9, 9];
    let words = words64_from_bytes_le(&bytes);
    assert_eq!(words, vec![0x8000000000000001u64]);
}

#[test]
fn lfsr258_entropy_seed_reaches_minimums() {
    let seed = lfsr258_seed_from_entropy([0, 0, 0, 0, 0]);
    assert_eq!(seed, [1, 511, 4095, 131071, 8388607]);
    let seed = lfsr258_seed_from_entropy([u64::MAX, 3, 5, 7, 9]);
    assert_eq!(seed[0], (u64::MAX >> 1) + 1);
    assert_eq!(seed[1], 1 + 511);
}

#[test]
fn lfsr258_checked_seed_rejects_small_slots() {
    // One slot below its documented minimum is rejected.
    assert!(LFSR258::checked_from_seed([1, 511, 4095, 131071, 8388606]).is_none());
    assert!(LFSR258::checked_from_seed([0, 511, 4095, 131071, 8388607]).is_none());
    let g = LFSR258::checked_from_seed([1, 511, 4095, 131071, 8388607]);
    assert!(g.is_some());
    let mut g = g.unwrap();
    let _ = g.next_u64();
}

#[test]
fn range_dist_stays_in_range() {
    let mut r = rng();
    let d = RangeDist { low: 10, range: 5 };
    for _ in 0..1000 {
        let v = d.sample(&mut r);
        assert!((10..15).contains(&v));
    }
}

#[test]
fn joint_and_list_dists() {
    let mut r = rng();
    let j = JointDistribution {
        d1: RangeDist { low: 0, range: 3 },
        d2: RangeDist { low: 100, range: 1 },
    };
    let (a, b) = j.sample(&mut r);
    assert!(a < 3);
    assert_eq!(b, 100);

    let l = ListDist {
        int_dist: RangeDist { low: 4, range: 1 },
        elem: RangeDist { low: 0, range: 10 },
    };
    let v = l.sample_list(&mut r);
    assert_eq!(v.len(), 4);
    for x in v.iter() {
        assert!(*x < 10);
    }
}
