//! A four-word xorshift generator.

use vstd::prelude::*;
use crate::Rng;
use crate::SeedableRng;

verus! {

/// An xorshift random number generator with four 32-bit words of state.
/// Not suitable for cryptographic purposes.
#[derive(Clone, Copy)]
pub struct XorShift4 {
    pub x: u32,
    pub y: u32,
    pub z: u32,
    pub w: u32,
}

impl View for XorShift4 {
    type V = XorShift4;

    open spec fn view(&self) -> XorShift4 {
        *self
    }
}

/// One xorshift step: `t = x ^ (x << 11)`; the words rotate; the new last
/// word is `w ^ (w >> 19) ^ (t ^ (t >> 8))`, and is also the output.
pub open spec fn xorshift_step(s: XorShift4) -> XorShift4 {
    let t = s.x ^ (s.x << 11);
    XorShift4 { x: s.y, y: s.z, z: s.w, w: s.w ^ (s.w >> 19) ^ (t ^ (t >> 8)) }
}

impl Rng for XorShift4 {
    open spec fn wf(&self) -> bool {
        true
    }

    open spec fn sp_new() -> XorShift4 {
        XorShift4 { x: 123456789, y: 362436069, z: 521288629, w: 88675123 }
    }

    open spec fn sp_next32(m: XorShift4) -> (XorShift4, u32) {
        (xorshift_step(m), xorshift_step(m).w)
    }

    open spec fn sp_next64(m: XorShift4) -> (XorShift4, u64) {
        let (m1, hi) = Self::sp_next32(m);
        let (m2, lo) = Self::sp_next32(m1);
        (m2, ((hi as u64) << 32) | (lo as u64))
    }

    open spec fn sp_entropy32(m: XorShift4) -> usize {
        4
    }

    open spec fn sp_entropy64(m: XorShift4) -> usize {
        8
    }

    /// The default seed is the fixed constant tuple
    /// `(123456789, 362436069, 521288629, 88675123)`.
    fn new() -> (r: Self) {
        XorShift4 { x: 123456789, y: 362436069, z: 521288629, w: 88675123 }
    }

    fn next_u32(&mut self) -> (r: u32) {
        let x = self.x;
        let t = x ^ (x << 11);
        self.x = self.y;
        self.y = self.z;
        self.z = self.w;
        let w = self.w;
        self.w = w ^ (w >> 19) ^ (t ^ (t >> 8));
        self.w
    }

    fn next_u64(&mut self) -> (r: u64) {
        let hi = self.next_u32();
        let lo = self.next_u32();
        ((hi as u64) << 32) | (lo as u64)
    }

    fn entropy_u32(&self) -> (r: usize) {
        4
    }

    fn entropy_u64(&self) -> (r: usize) {
        8
    }
}

impl SeedableRng<[u32; 4]> for XorShift4 {
    open spec fn seed_ok(seed: [u32; 4]) -> bool {
        true
    }

    open spec fn sp_from_seed(seed: [u32; 4]) -> XorShift4 {
        XorShift4 { x: seed[0], y: seed[1], z: seed[2], w: seed[3] }
    }

    open spec fn sp_reseed(m: XorShift4, seed: [u32; 4]) -> XorShift4 {
        XorShift4 { x: seed[0], y: seed[1], z: seed[2], w: seed[3] }
    }

    fn reseed(&mut self, seed: [u32; 4]) {
        self.x = seed[0];
        self.y = seed[1];
        self.z = seed[2];
        self.w = seed[3];
    }

    fn from_seed(seed: [u32; 4]) -> (r: Self) {
        XorShift4 { x: seed[0], y: seed[1], z: seed[2], w: seed[3] }
    }

    proof fn from_seed_is_new_reseed(seed: [u32; 4]) {
    }
}

} // verus!
