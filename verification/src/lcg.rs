//! Linear congruential generators: the MINSTD generator and a 48-bit
//! `rand48`-style generator.

use vstd::prelude::*;
use vstd::arithmetic::div_mod::lemma_add_mod_noop_right;
use vstd::arithmetic::div_mod::lemma_mod_mod;
use crate::Rng;
use crate::SeedableRng;

verus! {

/// The MINSTD modulus, the Mersenne prime `2^31 - 1`.
pub const MINSTD_M: u32 = 2147483647;

/// The MINSTD multiplier.
pub const MINSTD_A: u32 = 48271;

/// The "minimal standard" linear congruential generator:
/// `x_{n+1} = (x_n * 48271) mod (2^31 - 1)`, output `x_{n+1}`.
#[allow(non_camel_case_types)]
#[derive(Clone, Copy)]
pub struct MinStd_Rand {
    pub x: u32,
}

impl View for MinStd_Rand {
    type V = MinStd_Rand;

    open spec fn view(&self) -> MinStd_Rand {
        *self
    }
}

/// One MINSTD step.
pub open spec fn minstd_step(x: u32) -> u32 {
    ((x * MINSTD_A) % (MINSTD_M as int)) as u32
}

impl Rng for MinStd_Rand {
    open spec fn wf(&self) -> bool {
        true
    }

    open spec fn sp_new() -> MinStd_Rand {
        MinStd_Rand { x: 1 }
    }

    open spec fn sp_next32(m: MinStd_Rand) -> (MinStd_Rand, u32) {
        (MinStd_Rand { x: minstd_step(m.x) }, minstd_step(m.x))
    }

    open spec fn sp_next64(m: MinStd_Rand) -> (MinStd_Rand, u64) {
        let (m1, hi) = Self::sp_next32(m);
        let (m2, lo) = Self::sp_next32(m1);
        (m2, ((hi as u64) << 32) | (lo as u64))
    }

    open spec fn sp_entropy32(m: MinStd_Rand) -> usize {
        4
    }

    open spec fn sp_entropy64(m: MinStd_Rand) -> usize {
        8
    }

    fn new() -> (r: Self) {
        MinStd_Rand { x: 1 }
    }

    fn next_u32(&mut self) -> (r: u32) {
        let x = (((self.x as u64) * (MINSTD_A as u64)) % (MINSTD_M as u64)) as u32;
        self.x = x;
        x
    }

    fn next_u64(&mut self) -> (r: u64) {
        let hi = self.next_u32();
        let lo = self.next_u32();
        ((hi as u64) << 32) | (lo as u64)
    }

    fn entropy_u32(&self) -> (r: usize) {
        4
    }

    fn entropy_u64(&self) -> (r: usize) {
        8
    }
}

impl SeedableRng<u32> for MinStd_Rand {
    open spec fn seed_ok(seed: u32) -> bool {
        true
    }

    open spec fn sp_from_seed(seed: u32) -> MinStd_Rand {
        MinStd_Rand { x: seed }
    }

    open spec fn sp_reseed(m: MinStd_Rand, seed: u32) -> MinStd_Rand {
        MinStd_Rand { x: seed }
    }

    fn reseed(&mut self, seed: u32) {
        self.x = seed;
    }

    fn from_seed(seed: u32) -> (r: Self) {
        MinStd_Rand { x: seed }
    }

    proof fn from_seed_is_new_reseed(seed: u32) {
    }
}

/// The `rand48` multiplier.
pub const RAND48_A: u64 = 0x5DEECE66D;

/// The `rand48` increment.
pub const RAND48_C: u64 = 0xB;

/// The `rand48` modulus, `2^48`.
pub const RAND48_MOD: u64 = 0x1_0000_0000_0000;

/// A 48-bit linear congruential generator in the style of `rand48`:
/// `x_{n+1} = (0x5DEECE66D * x_n + 0xB) mod 2^48`, output the low 32 bits
/// of the new state.
#[derive(Clone, Copy)]
pub struct Rand48 {
    pub x: u64,
}

impl View for Rand48 {
    type V = Rand48;

    open spec fn view(&self) -> Rand48 {
        *self
    }
}

/// One `rand48` step on the 48-bit state.
pub open spec fn rand48_step(x: u64) -> u64 {
    ((RAND48_A * x + RAND48_C) % (RAND48_MOD as int)) as u64
}

impl Rng for Rand48 {
    open spec fn wf(&self) -> bool {
        self.x < RAND48_MOD
    }

    open spec fn sp_new() -> Rand48 {
        Rand48 { x: 0 }
    }

    open spec fn sp_next32(m: Rand48) -> (Rand48, u32) {
        (Rand48 { x: rand48_step(m.x) }, (rand48_step(m.x) & 0xFFFF_FFFF) as u32)
    }

    open spec fn sp_next64(m: Rand48) -> (Rand48, u64) {
        let (m1, hi) = Self::sp_next32(m);
        let (m2, lo) = Self::sp_next32(m1);
        (m2, ((hi as u64) << 32) | (lo as u64))
    }

    open spec fn sp_entropy32(m: Rand48) -> usize {
        4
    }

    open spec fn sp_entropy64(m: Rand48) -> usize {
        8
    }

    fn new() -> (r: Self) {
        Rand48 { x: 0 }
    }

    fn next_u32(&mut self) -> (r: u32) {
        let x = RAND48_A.wrapping_mul(self.x).wrapping_add(RAND48_C) & 0xFFFF_FFFF_FFFF;
        proof {
            lemma_rand48_wrap(self.x);
        }
        self.x = x;
        (x & 0xFFFF_FFFF) as u32
    }

    fn next_u64(&mut self) -> (r: u64) {
        let hi = self.next_u32();
        let lo = self.next_u32();
        ((hi as u64) << 32) | (lo as u64)
    }

    fn entropy_u32(&self) -> (r: usize) {
        4
    }

    fn entropy_u64(&self) -> (r: usize) {
        8
    }
}

/// The truncating machine arithmetic in `Rand48::next_u32` computes the
/// true 48-bit recurrence: wrapping modulo `2^64` and then keeping 48 bits
/// is the same as working modulo `2^48` throughout.
proof fn lemma_rand48_wrap(x: u64)
    ensures
        RAND48_A.wrapping_mul(x).wrapping_add(RAND48_C) & 0xFFFF_FFFF_FFFF == rand48_step(x),
        rand48_step(x) < RAND48_MOD,
{
    let m64: int = 0x1_0000_0000_0000_0000;
    let v: int = RAND48_A * x;
    let p = RAND48_A.wrapping_mul(x);
    assert(p == v % m64);
    let s = p.wrapping_add(RAND48_C);
    assert(s == (v % m64 + RAND48_C) % m64);
    lemma_add_mod_noop_right(RAND48_C as int, v, m64);
    assert(s == (v + RAND48_C) % m64);
    assert((RAND48_MOD as int) * 0x1_0000 == 0x1_0000_0000_0000_0000) by (nonlinear_arith);
    lemma_mod_mod(v + RAND48_C, RAND48_MOD as int, 0x1_0000);
    assert((s as int) % (RAND48_MOD as int) == (v + RAND48_C) % (RAND48_MOD as int));
    assert(s & 0xFFFF_FFFF_FFFF == s % 0x1_0000_0000_0000) by (bit_vector);
}

impl SeedableRng<u32> for Rand48 {
    open spec fn seed_ok(seed: u32) -> bool {
        true
    }

    open spec fn sp_from_seed(seed: u32) -> Rand48 {
        Rand48 { x: seed as u64 }
    }

    open spec fn sp_reseed(m: Rand48, seed: u32) -> Rand48 {
        Rand48 { x: seed as u64 }
    }

    fn reseed(&mut self, seed: u32) {
        self.x = seed as u64;
    }

    fn from_seed(seed: u32) -> (r: Self) {
        Rand48 { x: seed as u64 }
    }

    proof fn from_seed_is_new_reseed(seed: u32) {
    }
}

} // verus!
