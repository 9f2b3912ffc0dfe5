//! Determinism: equally seeded generators of one variant produce
//! bit-identical output streams, and seed-length tolerance holds for the
//! buffer-seeded generators.

use rand::Rng;
use rand::SeedableRng;
use rand::lcg::MinStd_Rand;
use rand::lcg::Rand48;
use rand::lfsr::LFSR113;
use rand::lfsr::LFSR258;
use rand::lfsr::Taus88;
use rand::mersenne_twister::MT19937;
use rand::mersenne_twister::MT19937_64;
use rand::mersenne_twister::WELL512;
use rand::mwc::CMWC;
use rand::mwc::MWC256;
use rand::isaac::Isaac;
use rand::isaac::Isaac64;
use rand::xorshift::XorShift4;
use rand::std_rng::StdRng;

fn same_stream32<R: Rng>(a: &mut R, b: &mut R, n: usize) {
    for _ in 0..n {
        assert_eq!(a.next_u32(), b.next_u32());
    }
}

fn same_stream64<R: Rng>(a: &mut R, b: &mut R, n: usize) {
    for _ in 0..n {
        assert_eq!(a.next_u64(), b.next_u64());
    }
}

#[test]
fn determinism_scalar_seeded() {
    same_stream32(
        &mut MinStd_Rand::from_seed(99u32),
        &mut MinStd_Rand::from_seed(99u32),
        10_000,
    );
    same_stream32(&mut Rand48::from_seed(7u32), &mut Rand48::from_seed(7u32), 10_000);
    same_stream32(
        &mut <MT19937 as SeedableRng<u32>>::from_seed(424242u32),
        &mut <MT19937 as SeedableRng<u32>>::from_seed(424242u32),
        10_000,
    );
    same_stream64(
        &mut <MT19937_64 as SeedableRng<u64>>::from_seed(424242u64),
        &mut <MT19937_64 as SeedableRng<u64>>::from_seed(424242u64),
        10_000,
    );
    same_stream32(
        &mut <Isaac as SeedableRng<u32>>::from_seed(7u32),
        &mut <Isaac as SeedableRng<u32>>::from_seed(7u32),
        10_000,
    );
    same_stream64(
        &mut <Isaac64 as SeedableRng<u64>>::from_seed(7u64),
        &mut <Isaac64 as SeedableRng<u64>>::from_seed(7u64),
        10_000,
    );
}

#[test]
fn determinism_array_seeded() {
    same_stream32(
        &mut XorShift4::from_seed([1, 2, 3, 4]),
        &mut XorShift4::from_seed([1, 2, 3, 4]),
        10_000,
    );
    same_stream32(
        &mut LFSR113::from_seed([11, 22, 33, 44]),
        &mut LFSR113::from_seed([11, 22, 33, 44]),
        10_000,
    );
    same_stream32(&mut Taus88::from_seed([5, 6, 7]), &mut Taus88::from_seed([5, 6, 7]), 10_000);
    same_stream64(
        &mut LFSR258::from_seed([2, 512, 4096, 131072, 8388608]),
        &mut LFSR258::from_seed([2, 512, 4096, 131072, 8388608]),
        10_000,
    );
}

#[test]
fn determinism_vector_seeded() {
    same_stream32(
        &mut WELL512::from_seed(vec![9, 8, 7, 6]),
        &mut WELL512::from_seed(vec![9, 8, 7, 6]),
        10_000,
    );
    same_stream32(
        &mut Isaac::from_seed(vec![1, 23, 456]),
        &mut Isaac::from_seed(vec![1, 23, 456]),
        10_000,
    );
    same_stream64(
        &mut Isaac64::from_seed(vec![1u64, 23, 456]),
        &mut Isaac64::from_seed(vec![1u64, 23, 456]),
        10_000,
    );
    same_stream32(
        &mut <MT19937 as SeedableRng<Vec<u32>>>::from_seed(vec![1, 2, 3, 4, 5]),
        &mut <MT19937 as SeedableRng<Vec<u32>>>::from_seed(vec![1, 2, 3, 4, 5]),
        10_000,
    );
    same_stream64(
        &mut <MT19937_64 as SeedableRng<Vec<u64>>>::from_seed(vec![1u64, 2, 3]),
        &mut <MT19937_64 as SeedableRng<Vec<u64>>>::from_seed(vec![1u64, 2, 3]),
        10_000,
    );
}

#[test]
fn determinism_default_constructed() {
    same_stream32(&mut CMWC::new(), &mut CMWC::new(), 10_000);
    same_stream32(&mut MWC256::new(), &mut MWC256::new(), 10_000);
    same_stream64(&mut StdRng::new(), &mut StdRng::new(), 10_000);
}

#[test]
fn seed_length_tolerance_isaac() {
    // A short seed behaves as if zero-padded to the full buffer length;
    // words beyond the buffer are ignored.
    let mut short = Isaac::from_seed(vec![1, 2, 3]);
    let mut padded_seed = vec![1u32, 2, 3];
    padded_seed.resize(256, 0);
    let mut padded = Isaac::from_seed(padded_seed);
    same_stream32(&mut short, &mut padded, 2_000);

    let mut exact = Isaac::from_seed((0..256u32).collect::<Vec<u32>>());
    let mut long_seed = (0..256u32).collect::<Vec<u32>>();
    long_seed.push(77);
    long_seed.push(88);
    let mut long = Isaac::from_seed(long_seed);
    same_stream32(&mut exact, &mut long, 2_000);
}

#[test]
fn seed_length_tolerance_isaac64() {
    let mut short = Isaac64::from_seed(vec![9u64]);
    let mut padded_seed = vec![9u64];
    padded_seed.resize(256, 0);
    let mut padded = Isaac64::from_seed(padded_seed);
    same_stream64(&mut short, &mut padded, 2_000);
}

#[test]
fn seed_length_tolerance_well512() {
    let mut short = WELL512::from_seed(vec![5, 4, 3]);
    let mut padded = WELL512::from_seed(vec![5, 4, 3, 0, 0, 0, 0, 0, 0, 0, 0, 0, 0, 0, 0, 0]);
    same_stream32(&mut short, &mut padded, 2_000);

    let mut exact = WELL512::from_seed((1..=16u32).collect::<Vec<u32>>());
    let mut long_seed = (1..=16u32).collect::<Vec<u32>>();
    long_seed.push(99);
    let mut long = WELL512::from_seed(long_seed);
    same_stream32(&mut exact, &mut long, 2_000);
}

#[test]
fn reseed_matches_from_seed() {
    // Default-construct then reseed gives the same stream as seeded
    // construction.
    let mut a = <MT19937 as SeedableRng<u32>>::from_seed(1234u32);
    let mut b = MT19937::new();
    b.next_u32();
    <MT19937 as SeedableRng<u32>>::reseed(&mut b, 1234u32);
    same_stream32(&mut a, &mut b, 5_000);

    let mut c = Isaac::from_seed(vec![5, 6, 7]);
    let mut d = Isaac::new_unseeded();
    d.next_u32();
    d.reseed(vec![5, 6, 7]);
    same_stream32(&mut c, &mut d, 5_000);
}
