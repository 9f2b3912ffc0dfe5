//! Pseudo-random number generation.
//!
//! A family of deterministic bit generators (linear congruential, xorshift,
//! linear-feedback shift registers, multiply-with-carry, ISAAC, Mersenne
//! Twister, WELL512), a seeding protocol, derived operations (integer
//! ranges, choice, shuffling, reservoir sampling), and a wrapper that
//! reseeds a generator after it has consumed a budget of entropy.
//!
//! Every generator is a pure state machine: the next output and the next
//! state are functions of the current state alone.  Each implementation
//! carries a specification-level step function over its mathematical model
//! (its view), and the executable methods are verified to follow it
//! exactly, so two generators in equal states produce equal output streams
//! forever.
//!
//! Obtaining seed material from the operating system is left to the caller:
//! constructors here are deterministic or take seed values as arguments.

use vstd::prelude::*;
use crate::std_rng::StdRng;

pub mod derived;
pub mod distributions;
pub mod isaac;
pub mod lcg;
pub mod lfsr;
pub mod mersenne_twister;
pub mod mwc;
pub mod reseeding;
pub mod std_rng;
pub mod xorshift;

verus! {

/// A random number generator: a deterministic state machine handing out
/// 32-bit and 64-bit words.
///
/// `sp_next32` and `sp_next64` are the mathematical step functions on the
/// generator's model (its view); the executable `next_u32` and `next_u64`
/// are bound to them exactly, which pins the whole future output stream of
/// any well-formed generator.
pub trait Rng: Sized + View {
    /// Well-formedness of the generator's state (for example, that its
    /// state array has the algorithm's fixed length).
    spec fn wf(&self) -> bool;

    /// The model of the state produced by deterministic default
    /// construction.
    spec fn sp_new() -> Self::V;

    /// One 32-bit step: the successor model and the word handed out.
    spec fn sp_next32(m: Self::V) -> (Self::V, u32);

    /// One 64-bit step: the successor model and the word handed out.
    spec fn sp_next64(m: Self::V) -> (Self::V, u64);

    /// Bytes of entropy consumed by one `next_u32` call.
    spec fn sp_entropy32(m: Self::V) -> usize;

    /// Bytes of entropy consumed by one `next_u64` call.
    spec fn sp_entropy64(m: Self::V) -> usize;

    /// Create a generator in the default state.  This is the reproducible
    /// default path; seeding from system randomness is a caller concern.
    fn new() -> (r: Self)
        ensures
            r@ == Self::sp_new(),
            r.wf(),
    ;

    /// Return the next random `u32`.
    fn next_u32(&mut self) -> (r: u32)
        requires
            old(self).wf(),
        ensures
            (final(self)@, r) == Self::sp_next32(old(self)@),
            final(self).wf(),
    ;

    /// Return the next random `u64`.
    fn next_u64(&mut self) -> (r: u64)
        requires
            old(self).wf(),
        ensures
            (final(self)@, r) == Self::sp_next64(old(self)@),
            final(self).wf(),
    ;

    /// The number of bytes of entropy consumed to produce one `u32`.
    fn entropy_u32(&self) -> (r: usize)
        ensures
            r == Self::sp_entropy32(self@),
    ;

    /// The number of bytes of entropy consumed to produce one `u64`.
    fn entropy_u64(&self) -> (r: usize)
        ensures
            r == Self::sp_entropy64(self@),
    ;
}

/// Random number generators that can be seeded, so that equal seeds give
/// equal output streams.
pub trait SeedableRng<Seed>: Rng {
    /// Which seed values are admissible (some generators document minimum
    /// values per seed slot; for the rest every value is admissible).
    spec fn seed_ok(seed: Seed) -> bool;

    /// The model of the state a seed determines.
    spec fn sp_from_seed(seed: Seed) -> Self::V;

    /// The model after reseeding a generator in state `m` with `seed`.
    spec fn sp_reseed(m: Self::V, seed: Seed) -> Self::V;

    /// Reseed with the given seed, discarding all prior state and any
    /// buffered unconsumed output.
    fn reseed(&mut self, seed: Seed)
        requires
            Self::seed_ok(seed),
            old(self).wf(),
        ensures
            final(self)@ == Self::sp_reseed(old(self)@, seed),
            final(self).wf(),
    ;

    /// Create a new generator with the given seed.
    fn from_seed(seed: Seed) -> (r: Self)
        requires
            Self::seed_ok(seed),
        ensures
            r@ == Self::sp_from_seed(seed),
            r.wf(),
    ;

    /// Constructing from a seed is the same as default-constructing and
    /// then reseeding.
    proof fn from_seed_is_new_reseed(seed: Seed)
        requires
            Self::seed_ok(seed),
        ensures
            Self::sp_from_seed(seed) == Self::sp_reseed(Self::sp_new(), seed),
    ;
}

/// The stream of the first `n` 32-bit outputs of a generator whose state
/// has model `m`.
pub open spec fn stream32<R: Rng>(m: R::V, n: nat) -> Seq<u32>
    decreases n,
{
    if n == 0 {
        Seq::empty()
    } else {
        let (m2, x) = R::sp_next32(m);
        seq![x] + stream32::<R>(m2, (n - 1) as nat)
    }
}

/// The stream of the first `n` 64-bit outputs of a generator whose state
/// has model `m`.
pub open spec fn stream64<R: Rng>(m: R::V, n: nat) -> Seq<u64>
    decreases n,
{
    if n == 0 {
        Seq::empty()
    } else {
        let (m2, x) = R::sp_next64(m);
        seq![x] + stream64::<R>(m2, (n - 1) as nat)
    }
}

/// The model after `n` 32-bit steps.
pub open spec fn iterate32<R: Rng>(m: R::V, n: nat) -> R::V
    decreases n,
{
    if n == 0 {
        m
    } else {
        R::sp_next32(iterate32::<R>(m, (n - 1) as nat)).0
    }
}

/// Determinism: two generators of one variant in equal states produce
/// identical output streams, for every length.
pub proof fn lemma_determinism<R: Rng>(a: R::V, b: R::V, n: nat)
    requires
        a == b,
    ensures
        stream32::<R>(a, n) == stream32::<R>(b, n),
        stream64::<R>(a, n) == stream64::<R>(b, n),
{
}

/// Determinism through seeding: two generators of one variant constructed
/// from equal seeds produce identical output streams, for every length.
pub proof fn lemma_seed_determinism<R: SeedableRng<Seed>, Seed>(s1: Seed, s2: Seed, n: nat)
    requires
        s1 == s2,
    ensures
        stream32::<R>(R::sp_from_seed(s1), n) == stream32::<R>(R::sp_from_seed(s2), n),
        stream64::<R>(R::sp_from_seed(s1), n) == stream64::<R>(R::sp_from_seed(s2), n),
{
}

/// Create a standard generator in the deterministic default state.
pub fn rng() -> (r: StdRng)
    ensures
        r@ == <StdRng as Rng>::sp_new(),
        r.wf(),
{
    StdRng::new()
}

/// The 32-bit word assembled from four bytes of `b` in little-endian
/// order, starting at byte `4 * i`.
pub open spec fn le_word32_at(b: Seq<u8>, i: int) -> u32
    recommends
        0 <= i,
        4 * i + 4 <= b.len(),
{
    (b[4 * i] + b[4 * i + 1] * 0x100 + b[4 * i + 2] * 0x1_0000 + b[4 * i + 3] * 0x100_0000) as u32
}

/// The 64-bit word assembled from eight bytes of `b` in little-endian
/// order, starting at byte `8 * i`.
pub open spec fn le_word64_at(b: Seq<u8>, i: int) -> u64
    recommends
        0 <= i,
        8 * i + 8 <= b.len(),
{
    (b[8 * i] + b[8 * i + 1] * 0x100 + b[8 * i + 2] * 0x1_0000 + b[8 * i + 3] * 0x100_0000 + b[8 * i
        + 4] * 0x1_0000_0000 + b[8 * i + 5] * 0x100_0000_0000 + b[8 * i + 6] * 0x1_0000_0000_0000
        + b[8 * i + 7] * 0x100_0000_0000_0000) as u64
}

/// Assemble a byte buffer into 32-bit words, little-endian; bytes past
/// the last whole word are ignored.  This is the checked decoding step
/// for seed material obtained from an entropy source.
pub fn words32_from_bytes_le(bytes: &Vec<u8>) -> (r: Vec<u32>)
    ensures
        r@.len() == bytes@.len() / 4,
        forall|i: int| 0 <= i < r@.len() ==> #[trigger] r@[i] == le_word32_at(bytes@, i),
{
    let n = bytes.len() / 4;
    let mut out: Vec<u32> = Vec::new();
    let mut k: usize = 0;
    while k < n
        invariant
            k <= n,
            n == bytes@.len() / 4,
            bytes@.len() <= usize::MAX,
            out@.len() == k,
            forall|i: int| 0 <= i < k ==> #[trigger] out@[i] == le_word32_at(bytes@, i),
        decreases n - k,
    {
        proof {
            vstd::arithmetic::div_mod::lemma_fundamental_div_mod(bytes@.len() as int, 4);
            assert(4 * (k as int) + 4 <= bytes@.len());
        }
        let w: u32 = (bytes[4 * k] as u32) + (bytes[4 * k + 1] as u32) * 0x100 + (bytes[4 * k
            + 2] as u32) * 0x1_0000 + (bytes[4 * k + 3] as u32) * 0x100_0000;
        out.push(w);
        k = k + 1;
    }
    out
}

/// Assemble a byte buffer into 64-bit words, little-endian; bytes past
/// the last whole word are ignored.
pub fn words64_from_bytes_le(bytes: &Vec<u8>) -> (r: Vec<u64>)
    ensures
        r@.len() == bytes@.len() / 8,
        forall|i: int| 0 <= i < r@.len() ==> #[trigger] r@[i] == le_word64_at(bytes@, i),
{
    let n = bytes.len() / 8;
    let mut out: Vec<u64> = Vec::new();
    let mut k: usize = 0;
    while k < n
        invariant
            k <= n,
            n == bytes@.len() / 8,
            bytes@.len() <= usize::MAX,
            out@.len() == k,
            forall|i: int| 0 <= i < k ==> #[trigger] out@[i] == le_word64_at(bytes@, i),
        decreases n - k,
    {
        proof {
            vstd::arithmetic::div_mod::lemma_fundamental_div_mod(bytes@.len() as int, 8);
            assert(8 * (k as int) + 8 <= bytes@.len());
        }
        let w: u64 = (bytes[8 * k] as u64) + (bytes[8 * k + 1] as u64) * 0x100 + (bytes[8 * k
            + 2] as u64) * 0x1_0000 + (bytes[8 * k + 3] as u64) * 0x100_0000 + (bytes[8 * k
            + 4] as u64) * 0x1_0000_0000 + (bytes[8 * k + 5] as u64) * 0x100_0000_0000 + (bytes[8
            * k + 6] as u64) * 0x1_0000_0000_0000 + (bytes[8 * k + 7] as u64)
            * 0x100_0000_0000_0000;
        out.push(w);
        k = k + 1;
    }
    out
}

} // verus!
