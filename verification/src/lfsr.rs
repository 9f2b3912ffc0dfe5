//! Combined linear-feedback shift-register generators: LFSR258 (64-bit),
//! LFSR113 and Taus88 (32-bit).
//!
//! Every state word advances by the recurrence
//! `b = ((z << s1) ^ z) >> s2; z' = ((z & mask) << s3) ^ b`
//! with per-word shift and mask constants; the output is the XOR of all
//! current words.

use vstd::prelude::*;
use crate::Rng;
use crate::SeedableRng;

verus! {

/// One shift-register step on a 64-bit word.
pub open spec fn lfsr64_step(z: u64, s1: u64, s2: u64, mask: u64, s3: u64) -> u64 {
    (((z & mask) << s3) ^ (((z << s1) ^ z) >> s2)) as u64
}

/// One shift-register step on a 32-bit word.
pub open spec fn lfsr32_step(z: u32, s1: u32, s2: u32, mask: u32, s3: u32) -> u32 {
    (((z & mask) << s3) ^ (((z << s1) ^ z) >> s2)) as u32
}

/// Minimum admissible values of the five seed words of `LFSR258`.
pub open spec fn lfsr258_limit(i: int) -> u64 {
    [1u64, 511, 4095, 131071, 8388607][i]
}

/// A 64-bit combined shift-register generator with five words of state
/// and a period near `2^258`.  Each seed word has a documented minimum
/// value; seeding below the minimum corrupts the statistical guarantees
/// and is excluded by contract.
#[derive(Clone, Copy)]
pub struct LFSR258 {
    pub z1: u64,
    pub z2: u64,
    pub z3: u64,
    pub z4: u64,
    pub z5: u64,
}

impl View for LFSR258 {
    type V = LFSR258;

    open spec fn view(&self) -> LFSR258 {
        *self
    }
}

/// One LFSR258 step: all five words advance, and the output is their XOR.
pub open spec fn lfsr258_step(s: LFSR258) -> LFSR258 {
    LFSR258 {
        z1: lfsr64_step(s.z1, 1, 53, 18446744073709551614, 10),
        z2: lfsr64_step(s.z2, 24, 50, 18446744073709551104, 5),
        z3: lfsr64_step(s.z3, 3, 23, 18446744073709547520, 29),
        z4: lfsr64_step(s.z4, 5, 24, 18446744073709420544, 23),
        z5: lfsr64_step(s.z5, 3, 33, 18446744073701163008, 8),
    }
}

impl Rng for LFSR258 {
    open spec fn wf(&self) -> bool {
        true
    }

    open spec fn sp_new() -> LFSR258 {
        LFSR258 {
            z1: 123456789,
            z2: 123456789,
            z3: 123456789,
            z4: 123456789,
            z5: 123456789,
        }
    }

    open spec fn sp_next64(m: LFSR258) -> (LFSR258, u64) {
        let s = lfsr258_step(m);
        (s, s.z1 ^ s.z2 ^ s.z3 ^ s.z4 ^ s.z5)
    }

    open spec fn sp_next32(m: LFSR258) -> (LFSR258, u32) {
        let (m1, x) = Self::sp_next64(m);
        (m1, (x & 0xFFFF_FFFF) as u32)
    }

    open spec fn sp_entropy32(m: LFSR258) -> usize {
        4
    }

    open spec fn sp_entropy64(m: LFSR258) -> usize {
        8
    }

    fn new() -> (r: Self) {
        LFSR258 {
            z1: 123456789,
            z2: 123456789,
            z3: 123456789,
            z4: 123456789,
            z5: 123456789,
        }
    }

    fn next_u32(&mut self) -> (r: u32) {
        let x = self.next_u64();
        (x & 0xFFFF_FFFF) as u32
    }

    fn next_u64(&mut self) -> (r: u64) {
        let b: u64 = ((self.z1 << 1) ^ self.z1) >> 53;
        self.z1 = ((self.z1 & 18446744073709551614) << 10) ^ b;

        let b: u64 = ((self.z2 << 24) ^ self.z2) >> 50;
        self.z2 = ((self.z2 & 18446744073709551104) << 5) ^ b;

        let b: u64 = ((self.z3 << 3) ^ self.z3) >> 23;
        self.z3 = ((self.z3 & 18446744073709547520) << 29) ^ b;

        let b: u64 = ((self.z4 << 5) ^ self.z4) >> 24;
        self.z4 = ((self.z4 & 18446744073709420544) << 23) ^ b;

        let b: u64 = ((self.z5 << 3) ^ self.z5) >> 33;
        self.z5 = ((self.z5 & 18446744073701163008) << 8) ^ b;

        self.z1 ^ self.z2 ^ self.z3 ^ self.z4 ^ self.z5
    }

    fn entropy_u32(&self) -> (r: usize) {
        4
    }

    fn entropy_u64(&self) -> (r: usize) {
        8
    }
}

impl SeedableRng<[u64; 5]> for LFSR258 {
    /// Each seed word must reach its documented minimum
    /// (1, 511, 4095, 131071, 8388607).
    open spec fn seed_ok(seed: [u64; 5]) -> bool {
        forall|i: int| 0 <= i < 5 ==> lfsr258_limit(i) <= #[trigger] seed[i]
    }

    open spec fn sp_from_seed(seed: [u64; 5]) -> LFSR258 {
        LFSR258 { z1: seed[0], z2: seed[1], z3: seed[2], z4: seed[3], z5: seed[4] }
    }

    open spec fn sp_reseed(m: LFSR258, seed: [u64; 5]) -> LFSR258 {
        Self::sp_from_seed(seed)
    }

    fn reseed(&mut self, seed: [u64; 5]) {
        self.z1 = seed[0];
        self.z2 = seed[1];
        self.z3 = seed[2];
        self.z4 = seed[3];
        self.z5 = seed[4];
    }

    fn from_seed(seed: [u64; 5]) -> (r: Self) {
        LFSR258 { z1: seed[0], z2: seed[1], z3: seed[2], z4: seed[3], z5: seed[4] }
    }

    proof fn from_seed_is_new_reseed(seed: [u64; 5]) {
    }
}

impl LFSR258 {
    /// Create a generator from a seed after checking the documented
    /// per-slot minimums at run time: `None` exactly when some slot
    /// falls below its minimum.
    pub fn checked_from_seed(seed: [u64; 5]) -> (r: Option<LFSR258>)
        ensures
            r is Some <==> <LFSR258 as SeedableRng<[u64; 5]>>::seed_ok(seed),
            r matches Some(g) ==> g@ == <LFSR258 as SeedableRng<[u64; 5]>>::sp_from_seed(seed)
                && g.wf(),
    {
        if seed[0] >= 1 && seed[1] >= 511 && seed[2] >= 4095 && seed[3] >= 131071 && seed[4]
            >= 8388607 {
            assert forall|i: int| 0 <= i < 5 implies lfsr258_limit(i) <= #[trigger] seed[i] by {
                assert(seed[0] >= 1 && seed[1] >= 511 && seed[2] >= 4095 && seed[3] >= 131071
                    && seed[4] >= 8388607);
            }
            Some(LFSR258::from_seed(seed))
        } else {
            None
        }
    }
}

/// Dropping the top bit of a word leaves room to add any seed minimum.
proof fn lemma_shr1_bound(x: u64)
    ensures
        x >> 1 <= 0x7FFF_FFFF_FFFF_FFFF,
{
    assert(x >> 1 <= 0x7FFF_FFFF_FFFF_FFFF) by (bit_vector);
}

/// Turn raw entropy words into an admissible `LFSR258` seed: the high bit
/// of each word is dropped and the slot's minimum added, so every slot
/// reaches its documented minimum whatever the entropy was.
pub fn lfsr258_seed_from_entropy(words: [u64; 5]) -> (seed: [u64; 5])
    ensures
        LFSR258::seed_ok(seed),
        forall|i: int|
            0 <= i < 5 ==> #[trigger] seed[i] == (words[i] >> 1) + lfsr258_limit(i),
{
    proof {
        lemma_shr1_bound(words[0]);
        lemma_shr1_bound(words[1]);
        lemma_shr1_bound(words[2]);
        lemma_shr1_bound(words[3]);
        lemma_shr1_bound(words[4]);
    }
    let seed: [u64; 5] = [
        (words[0] >> 1) + 1,
        (words[1] >> 1) + 511,
        (words[2] >> 1) + 4095,
        (words[3] >> 1) + 131071,
        (words[4] >> 1) + 8388607,
    ];
    seed
}

/// A 32-bit combined shift-register generator with four words of state
/// and a period near `2^113`.
#[derive(Clone, Copy)]
pub struct LFSR113 {
    pub z1: u32,
    pub z2: u32,
    pub z3: u32,
    pub z4: u32,
}

impl View for LFSR113 {
    type V = LFSR113;

    open spec fn view(&self) -> LFSR113 {
        *self
    }
}

/// One LFSR113 step: all four words advance, and the output is their XOR.
pub open spec fn lfsr113_step(s: LFSR113) -> LFSR113 {
    LFSR113 {
        z1: lfsr32_step(s.z1, 6, 13, 4294967294, 18),
        z2: lfsr32_step(s.z2, 2, 27, 4294967288, 2),
        z3: lfsr32_step(s.z3, 13, 21, 4294967280, 7),
        z4: lfsr32_step(s.z4, 3, 12, 4294967168, 13),
    }
}

impl Rng for LFSR113 {
    open spec fn wf(&self) -> bool {
        true
    }

    open spec fn sp_new() -> LFSR113 {
        LFSR113 { z1: 12345, z2: 12345, z3: 12345, z4: 12345 }
    }

    open spec fn sp_next32(m: LFSR113) -> (LFSR113, u32) {
        let s = lfsr113_step(m);
        (s, s.z1 ^ s.z2 ^ s.z3 ^ s.z4)
    }

    open spec fn sp_next64(m: LFSR113) -> (LFSR113, u64) {
        let (m1, hi) = Self::sp_next32(m);
        let (m2, lo) = Self::sp_next32(m1);
        (m2, ((hi as u64) << 32) | (lo as u64))
    }

    open spec fn sp_entropy32(m: LFSR113) -> usize {
        4
    }

    open spec fn sp_entropy64(m: LFSR113) -> usize {
        8
    }

    fn new() -> (r: Self) {
        LFSR113 { z1: 12345, z2: 12345, z3: 12345, z4: 12345 }
    }

    fn next_u32(&mut self) -> (r: u32) {
        let b: u32 = ((self.z1 << 6) ^ self.z1) >> 13;
        self.z1 = ((self.z1 & 4294967294) << 18) ^ b;

        let b: u32 = ((self.z2 << 2) ^ self.z2) >> 27;
        self.z2 = ((self.z2 & 4294967288) << 2) ^ b;

        let b: u32 = ((self.z3 << 13) ^ self.z3) >> 21;
        self.z3 = ((self.z3 & 4294967280) << 7) ^ b;

        let b: u32 = ((self.z4 << 3) ^ self.z4) >> 12;
        self.z4 = ((self.z4 & 4294967168) << 13) ^ b;

        self.z1 ^ self.z2 ^ self.z3 ^ self.z4
    }

    fn next_u64(&mut self) -> (r: u64) {
        let hi = self.next_u32();
        let lo = self.next_u32();
        ((hi as u64) << 32) | (lo as u64)
    }

    fn entropy_u32(&self) -> (r: usize) {
        4
    }

    fn entropy_u64(&self) -> (r: usize) {
        8
    }
}

impl SeedableRng<[u32; 4]> for LFSR113 {
    open spec fn seed_ok(seed: [u32; 4]) -> bool {
        true
    }

    open spec fn sp_from_seed(seed: [u32; 4]) -> LFSR113 {
        LFSR113 { z1: seed[0], z2: seed[1], z3: seed[2], z4: seed[3] }
    }

    open spec fn sp_reseed(m: LFSR113, seed: [u32; 4]) -> LFSR113 {
        Self::sp_from_seed(seed)
    }

    fn reseed(&mut self, seed: [u32; 4]) {
        self.z1 = seed[0];
        self.z2 = seed[1];
        self.z3 = seed[2];
        self.z4 = seed[3];
    }

    fn from_seed(seed: [u32; 4]) -> (r: Self) {
        LFSR113 { z1: seed[0], z2: seed[1], z3: seed[2], z4: seed[3] }
    }

    proof fn from_seed_is_new_reseed(seed: [u32; 4]) {
    }
}

/// A 32-bit combined shift-register generator with three words of state
/// and a period near `2^88`.
#[derive(Clone, Copy)]
pub struct Taus88 {
    pub s1: u32,
    pub s2: u32,
    pub s3: u32,
}

impl View for Taus88 {
    type V = Taus88;

    open spec fn view(&self) -> Taus88 {
        *self
    }
}

/// One Taus88 step: all three words advance, and the output is their XOR.
pub open spec fn taus88_step(s: Taus88) -> Taus88 {
    Taus88 {
        s1: lfsr32_step(s.s1, 13, 19, 4294967294, 12),
        s2: lfsr32_step(s.s2, 2, 25, 4294967288, 4),
        s3: lfsr32_step(s.s3, 3, 11, 4294967280, 17),
    }
}

impl Rng for Taus88 {
    open spec fn wf(&self) -> bool {
        true
    }

    open spec fn sp_new() -> Taus88 {
        Taus88 { s1: 12345, s2: 12345, s3: 12345 }
    }

    open spec fn sp_next32(m: Taus88) -> (Taus88, u32) {
        let s = taus88_step(m);
        (s, s.s1 ^ s.s2 ^ s.s3)
    }

    open spec fn sp_next64(m: Taus88) -> (Taus88, u64) {
        let (m1, hi) = Self::sp_next32(m);
        let (m2, lo) = Self::sp_next32(m1);
        (m2, ((hi as u64) << 32) | (lo as u64))
    }

    open spec fn sp_entropy32(m: Taus88) -> usize {
        4
    }

    open spec fn sp_entropy64(m: Taus88) -> usize {
        8
    }

    fn new() -> (r: Self) {
        Taus88 { s1: 12345, s2: 12345, s3: 12345 }
    }

    fn next_u32(&mut self) -> (r: u32) {
        let b: u32 = ((self.s1 << 13) ^ self.s1) >> 19;
        self.s1 = ((self.s1 & 4294967294) << 12) ^ b;

        let b: u32 = ((self.s2 << 2) ^ self.s2) >> 25;
        self.s2 = ((self.s2 & 4294967288) << 4) ^ b;

        let b: u32 = ((self.s3 << 3) ^ self.s3) >> 11;
        self.s3 = ((self.s3 & 4294967280) << 17) ^ b;

        self.s1 ^ self.s2 ^ self.s3
    }

    fn next_u64(&mut self) -> (r: u64) {
        let hi = self.next_u32();
        let lo = self.next_u32();
        ((hi as u64) << 32) | (lo as u64)
    }

    fn entropy_u32(&self) -> (r: usize) {
        4
    }

    fn entropy_u64(&self) -> (r: usize) {
        8
    }
}

impl SeedableRng<[u32; 3]> for Taus88 {
    open spec fn seed_ok(seed: [u32; 3]) -> bool {
        true
    }

    open spec fn sp_from_seed(seed: [u32; 3]) -> Taus88 {
        Taus88 { s1: seed[0], s2: seed[1], s3: seed[2] }
    }

    open spec fn sp_reseed(m: Taus88, seed: [u32; 3]) -> Taus88 {
        Self::sp_from_seed(seed)
    }

    fn reseed(&mut self, seed: [u32; 3]) {
        self.s1 = seed[0];
        self.s2 = seed[1];
        self.s3 = seed[2];
    }

    fn from_seed(seed: [u32; 3]) -> (r: Self) {
        Taus88 { s1: seed[0], s2: seed[1], s3: seed[2] }
    }

    proof fn from_seed_is_new_reseed(seed: [u32; 3]) {
    }
}

} // verus!
