//! Known-seed golden vectors: fixed seeds must reproduce reference
//! output sequences.

use rand::Rng;
use rand::SeedableRng;
use rand::lcg::MinStd_Rand;
use rand::lcg::Rand48;
use rand::lfsr::LFSR113;
use rand::lfsr::LFSR258;
use rand::lfsr::Taus88;
use rand::mersenne_twister::MT19937;
use rand::mersenne_twister::MT19937_64;
use rand::mersenne_twister::WELL512;
use rand::mwc::CMWC;
use rand::mwc::MWC256;
use rand::isaac::Isaac;
use rand::isaac::Isaac64;
use rand::xorshift::XorShift4;

#[test]
fn minstd_seed_one_gives_multiplier() {
    let mut r = MinStd_Rand::from_seed(1u32);
    assert_eq!(r.next_u32(), 48271);
    assert_eq!(r.next_u32(), 182605794);
    assert_eq!(r.next_u32(), 1291394886);
    assert_eq!(r.next_u32(), 1914720637);
    assert_eq!(r.next_u32(), 2078669041);
}

#[test]
fn xorshift_default_constants_first_outputs() {
    let mut r = XorShift4::new();
    assert_eq!(r.next_u32(), 3701687786);
    assert_eq!(r.next_u32(), 458299110);
    assert_eq!(r.next_u32(), 2500872618);
    assert_eq!(r.next_u32(), 3633119408);
    assert_eq!(r.next_u32(), 516391518);
}

#[test]
fn mt19937_default_seed_reference_outputs() {
    // The first outputs of MT19937 seeded with 5489, per the reference
    // implementation.
    let mut r = MT19937::new();
    assert_eq!(r.next_u32(), 3499211612);
    assert_eq!(r.next_u32(), 581869302);
    assert_eq!(r.next_u32(), 3890346734);
    assert_eq!(r.next_u32(), 3586334585);
    assert_eq!(r.next_u32(), 545404204);
}

#[test]
fn mt19937_64_default_seed_reference_outputs() {
    // The first outputs of MT19937-64 seeded with 5489, per the
    // reference implementation.
    let mut r = MT19937_64::new();
    assert_eq!(r.next_u64(), 14514284786278117030);
    assert_eq!(r.next_u64(), 4620546740167642908);
    assert_eq!(r.next_u64(), 13109570281517897720);
}

#[test]
fn rand48_seed_zero_first_outputs() {
    let mut r = Rand48::from_seed(0u32);
    assert_eq!(r.next_u32(), 11);
    assert_eq!(r.next_u32(), 2486036154);
    assert_eq!(r.next_u32(), 1414420797);
}

#[test]
fn lfsr_default_first_outputs() {
    let mut r113 = LFSR113::new();
    assert_eq!(r113.next_u32(), 3338197162);
    assert_eq!(r113.next_u32(), 227261592);

    let mut t88 = Taus88::new();
    assert_eq!(t88.next_u32(), 1667269494);
    assert_eq!(t88.next_u32(), 944790115);

    let mut r258 = LFSR258::new();
    assert_eq!(r258.next_u64(), 65536504462430358);
    assert_eq!(r258.next_u64(), 9223498131340853285);
}

#[test]
fn well512_default_first_outputs() {
    let mut r = WELL512::new();
    assert_eq!(r.next_u32(), 1985665426);
    assert_eq!(r.next_u32(), 1216224866);
    assert_eq!(r.next_u32(), 3153592311);
}

#[test]
fn mwc_default_first_outputs() {
    let mut c = CMWC::new();
    assert_eq!(c.next_u32(), 4294586076);
    assert_eq!(c.next_u32(), 367728219);
    assert_eq!(c.next_u32(), 735482396);

    let mut m = MWC256::new();
    assert_eq!(m.next_u32(), 809793096);
    assert_eq!(m.next_u32(), 809430660);
}

#[test]
fn isaac_unseeded_first_outputs() {
    let mut r = Isaac::new_unseeded();
    assert_eq!(r.next_u32(), 1909923794);
    assert_eq!(r.next_u32(), 3041581799);
    assert_eq!(r.next_u32(), 3564668249);
    assert_eq!(r.next_u32(), 3277924858);
    assert_eq!(r.next_u32(), 568073897);
}

#[test]
fn isaac_seeded_reference_outputs() {
    // The first outputs for the seed [1, 23, 456, 7890, 12345], per the
    // reference ISAAC implementation.
    let mut r = Isaac::from_seed(vec![1u32, 23, 456, 7890, 12345]);
    assert_eq!(r.next_u32(), 2558573138);
    assert_eq!(r.next_u32(), 873787463);
    assert_eq!(r.next_u32(), 263499565);
    assert_eq!(r.next_u32(), 2103644246);
    assert_eq!(r.next_u32(), 3595684709);
}

#[test]
fn isaac64_unseeded_first_outputs() {
    let mut r = Isaac64::new_unseeded();
    assert_eq!(r.next_u64(), 17761629189777429372);
    assert_eq!(r.next_u64(), 9558052838949843840);
    assert_eq!(r.next_u64(), 18366607087662878139);
}

#[test]
fn isaac64_scalar_seed_first_outputs() {
    let mut r = <Isaac64 as SeedableRng<u64>>::from_seed(42u64);
    assert_eq!(r.next_u64(), 13535040523913025898);
    assert_eq!(r.next_u64(), 11186036148076763066);
    assert_eq!(r.next_u64(), 17457813421150709648);
}

#[test]
fn next64_composes_two_next32_draws() {
    let mut a = XorShift4::new();
    let mut b = XorShift4::new();
    let hi = b.next_u32() as u64;
    let lo = b.next_u32() as u64;
    assert_eq!(a.next_u64(), (hi << 32) | lo);
}
