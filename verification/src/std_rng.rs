//! The standard generator: a fixed choice among the ISAAC family, with a
//! seeding shim that accepts either a scalar or a sequence of words.

use vstd::prelude::*;
use crate::Rng;
use crate::SeedableRng;
use crate::isaac::Isaac64;
use crate::isaac::Isaac64V;

verus! {

/// The standard RNG: the 64-bit ISAAC generator.
pub struct StdRng {
    pub rng: Isaac64,
}

impl View for StdRng {
    type V = Isaac64V;

    open spec fn view(&self) -> Isaac64V {
        self.rng@
    }
}

impl StdRng {
    /// Create a standard generator in the deterministic default state.
    /// Seeding from system randomness is a caller concern: feed entropy
    /// words through `reseed` or `from_seed`.
    pub fn new() -> (r: StdRng)
        ensures
            r@ == <StdRng as Rng>::sp_new(),
            r.wf(),
    {
        StdRng { rng: Isaac64::new_unseeded() }
    }
}

impl Rng for StdRng {
    open spec fn wf(&self) -> bool {
        self.rng.wf()
    }

    open spec fn sp_new() -> Isaac64V {
        <Isaac64 as Rng>::sp_new()
    }

    open spec fn sp_next32(m: Isaac64V) -> (Isaac64V, u32) {
        <Isaac64 as Rng>::sp_next32(m)
    }

    open spec fn sp_next64(m: Isaac64V) -> (Isaac64V, u64) {
        <Isaac64 as Rng>::sp_next64(m)
    }

    open spec fn sp_entropy32(m: Isaac64V) -> usize {
        <Isaac64 as Rng>::sp_entropy32(m)
    }

    open spec fn sp_entropy64(m: Isaac64V) -> usize {
        <Isaac64 as Rng>::sp_entropy64(m)
    }

    fn new() -> (r: Self) {
        StdRng::new()
    }

    fn next_u32(&mut self) -> (r: u32) {
        self.rng.next_u32()
    }

    fn next_u64(&mut self) -> (r: u64) {
        self.rng.next_u64()
    }

    fn entropy_u32(&self) -> (r: usize) {
        self.rng.entropy_u32()
    }

    fn entropy_u64(&self) -> (r: usize) {
        self.rng.entropy_u64()
    }
}

/// Seed shapes that the standard generator accepts: a scalar word or a
/// sequence of words.
pub trait StdSeed: Sized {
    /// The model of the standard generator this seed determines.
    spec fn sp_apply(&self) -> Isaac64V;

    /// Reseed the standard generator with this seed.
    fn reseed(&self, rng: &mut StdRng)
        ensures
            final(rng)@ == self.sp_apply(),
            final(rng).wf(),
    ;
}

impl StdSeed for u64 {
    open spec fn sp_apply(&self) -> Isaac64V {
        <Isaac64 as SeedableRng<u64>>::sp_from_seed(*self)
    }

    fn reseed(&self, rng: &mut StdRng) {
        rng.rng = <Isaac64 as SeedableRng<u64>>::from_seed(*self);
    }
}

impl StdSeed for Vec<u64> {
    open spec fn sp_apply(&self) -> Isaac64V {
        <Isaac64 as SeedableRng<Vec<u64>>>::sp_from_seed(*self)
    }

    fn reseed(&self, rng: &mut StdRng) {
        let mut copy: Vec<u64> = Vec::new();
        let mut k: usize = 0;
        while k < self.len()
            invariant
                k <= self@.len(),
                copy@ == self@.take(k as int),
            decreases self@.len() - k,
        {
            copy.push(self[k]);
            k = k + 1;
        }
        assert(copy@ =~= self@);
        rng.rng = <Isaac64 as SeedableRng<Vec<u64>>>::from_seed(copy);
    }
}

impl<Seed: StdSeed> SeedableRng<Seed> for StdRng {
    open spec fn seed_ok(seed: Seed) -> bool {
        true
    }

    open spec fn sp_from_seed(seed: Seed) -> Isaac64V {
        seed.sp_apply()
    }

    open spec fn sp_reseed(m: Isaac64V, seed: Seed) -> Isaac64V {
        seed.sp_apply()
    }

    fn reseed(&mut self, seed: Seed) {
        seed.reseed(self);
    }

    fn from_seed(seed: Seed) -> (r: StdRng) {
        let mut r = StdRng::new();
        seed.reseed(&mut r);
        r
    }

    proof fn from_seed_is_new_reseed(seed: Seed) {
    }
}

} // verus!
