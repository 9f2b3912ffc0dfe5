//! The ISAAC and ISAAC-64 generators: indirection-shift-accumulate-add-
//! count constructions over a 256-word state array (`mem`) and a 256-word
//! output buffer (`rsl`), with three accumulators.
//!
//! Generation proceeds in batches: a refill recomputes the whole output
//! buffer from the state, and the cursor walks it from the top index down
//! to zero.

use vstd::prelude::*;
use vstd::pervasive::VecAdditionalExecFns;
use crate::Rng;
use crate::SeedableRng;

verus! {

/// The ISAAC array length (for both `mem` and `rsl`).
pub const RAND_SIZE: usize = 256;

/// The eight mixing variables of the ISAAC initialisation rounds.
#[derive(Clone, Copy)]
pub struct Mix32 {
    pub a: u32,
    pub b: u32,
    pub c: u32,
    pub d: u32,
    pub e: u32,
    pub f: u32,
    pub g: u32,
    pub h: u32,
}

/// One round of the eight-variable ISAAC mixing function.
pub open spec fn isaac_mix(v: Mix32) -> Mix32 {
    let a = v.a ^ (v.b << 11);
    let d = v.d.wrapping_add(a);
    let b = v.b.wrapping_add(v.c);
    let b = b ^ (v.c >> 2);
    let e = v.e.wrapping_add(b);
    let c = v.c.wrapping_add(d);
    let c = c ^ (d << 8);
    let f = v.f.wrapping_add(c);
    let d = d.wrapping_add(e);
    let d = d ^ (e >> 16);
    let g = v.g.wrapping_add(d);
    let e = e.wrapping_add(f);
    let e = e ^ (f << 10);
    let h = v.h.wrapping_add(e);
    let f = f.wrapping_add(g);
    let f = f ^ (g >> 4);
    let a = a.wrapping_add(f);
    let g = g.wrapping_add(h);
    let g = g ^ (h << 8);
    let b = b.wrapping_add(g);
    let h = h.wrapping_add(a);
    let h = h ^ (a >> 9);
    let c = c.wrapping_add(h);
    let a = a.wrapping_add(b);
    Mix32 { a, b, c, d, e, f, g, h }
}

/// The mixing variables before the first block: the golden-ratio constant
/// in all eight slots, mixed four times.
pub open spec fn isaac_init_vars() -> Mix32 {
    let g = 0x9e3779b9u32;
    isaac_mix(
        isaac_mix(isaac_mix(isaac_mix(Mix32 { a: g, b: g, c: g, d: g, e: g, f: g, g: g, h: g }))),
    )
}

/// Eight consecutive words of `src` absorbed into the mixing variables.
pub open spec fn isaac_absorb8(src: Seq<u32>, i0: int, v: Mix32) -> Mix32 {
    Mix32 {
        a: v.a.wrapping_add(src[i0]),
        b: v.b.wrapping_add(src[i0 + 1]),
        c: v.c.wrapping_add(src[i0 + 2]),
        d: v.d.wrapping_add(src[i0 + 3]),
        e: v.e.wrapping_add(src[i0 + 4]),
        f: v.f.wrapping_add(src[i0 + 5]),
        g: v.g.wrapping_add(src[i0 + 6]),
        h: v.h.wrapping_add(src[i0 + 7]),
    }
}

/// The mixing variables written into eight consecutive words of `mem`.
pub open spec fn isaac_write8(mem: Seq<u32>, i0: int, v: Mix32) -> Seq<u32> {
    mem.update(i0, v.a).update(i0 + 1, v.b).update(i0 + 2, v.c).update(i0 + 3, v.d).update(
        i0 + 4,
        v.e,
    ).update(i0 + 5, v.f).update(i0 + 6, v.g).update(i0 + 7, v.h)
}

/// The state array and mixing variables after the first `k` blocks of an
/// initialisation pass.  When `absorb` is set, each block first adds
/// eight source words into the variables; the source is `mem` itself as
/// it evolves when `read_mem` is set, and `arr` otherwise.
pub open spec fn isaac_init_pass(
    read_mem: bool,
    absorb: bool,
    arr: Seq<u32>,
    mem: Seq<u32>,
    v: Mix32,
    k: nat,
) -> (Seq<u32>, Mix32)
    decreases k,
{
    if k == 0 {
        (mem, v)
    } else {
        let (m1, v1) = isaac_init_pass(read_mem, absorb, arr, mem, v, (k - 1) as nat);
        let i0 = 8 * (k - 1);
        let src = if read_mem {
            m1
        } else {
            arr
        };
        let v2 = if absorb {
            isaac_mix(isaac_absorb8(src, i0, v1))
        } else {
            isaac_mix(v1)
        };
        (isaac_write8(m1, i0, v2), v2)
    }
}

/// The indirection lookup: the state word selected by bits 2..10 of `x`.
pub open spec fn isaac_ind(mem: Seq<u32>, x: u32) -> u32 {
    mem[((x >> 2) & 0xFF) as int]
}

/// One of the 256 steps of a refill, at position `s`: the accumulator
/// shifts by the amount the step's position selects, a state word is
/// rewritten through double indirection, and the new `b` lands in the
/// output buffer.
pub open spec fn isaac_rngstep(mem: Seq<u32>, rsl: Seq<u32>, a: u32, b: u32, s: int) -> (
    Seq<u32>,
    Seq<u32>,
    u32,
    u32,
) {
    let m2off: int = if s < 128 {
        s + 128
    } else {
        s - 128
    };
    let mix: u32 = if s % 4 == 0 {
        a << 13
    } else if s % 4 == 1 {
        a >> 6
    } else if s % 4 == 2 {
        a << 2
    } else {
        a >> 16
    };
    let x = mem[s];
    let a2 = (a ^ mix).wrapping_add(mem[m2off]);
    let y = isaac_ind(mem, x).wrapping_add(a2).wrapping_add(b);
    let mem2 = mem.update(s, y);
    let b2 = isaac_ind(mem2, y >> 8).wrapping_add(x);
    (mem2, rsl.update(s, b2), a2, b2)
}

/// The state after the first `k` refill steps.
pub open spec fn isaac_steps(mem: Seq<u32>, rsl: Seq<u32>, a: u32, b: u32, k: nat) -> (
    Seq<u32>,
    Seq<u32>,
    u32,
    u32,
)
    decreases k,
{
    if k == 0 {
        (mem, rsl, a, b)
    } else {
        let (m, r, aa, bb) = isaac_steps(mem, rsl, a, b, (k - 1) as nat);
        isaac_rngstep(m, r, aa, bb, k - 1)
    }
}

/// The model of an `Isaac` state.
pub struct IsaacV {
    pub cnt: usize,
    pub rsl: Seq<u32>,
    pub mem: Seq<u32>,
    pub a: u32,
    pub b: u32,
    pub c: u32,
}

/// A full refill: the cycle counter steps, the accumulators run through
/// all 256 positions, and the cursor is reset to the top.
pub open spec fn isaac_refill(v: IsaacV) -> IsaacV {
    let c2 = v.c.wrapping_add(1);
    let b0 = v.b.wrapping_add(c2);
    let (mem2, rsl2, a2, b2) = isaac_steps(v.mem, v.rsl, v.a, b0, RAND_SIZE as nat);
    IsaacV { cnt: RAND_SIZE as usize, rsl: rsl2, mem: mem2, a: a2, b: b2, c: c2 }
}

/// The model produced by initialisation: golden-ratio rounds, one pass
/// absorbing the seed buffer and one absorbing the evolving state when
/// `use_rsl` is set (one plain pass otherwise), zeroed accumulators, and
/// one full refill.
pub open spec fn isaac_init_model(rsl: Seq<u32>, mem: Seq<u32>, use_rsl: bool) -> IsaacV {
    let v0 = isaac_init_vars();
    let memf = if use_rsl {
        let (m1, v1) = isaac_init_pass(false, true, rsl, mem, v0, 32);
        let (m2, v2) = isaac_init_pass(true, true, rsl, m1, v1, 32);
        m2
    } else {
        let (m1, v1) = isaac_init_pass(false, false, rsl, mem, v0, 32);
        m1
    };
    isaac_refill(IsaacV { cnt: 0, rsl, mem: memf, a: 0, b: 0, c: 0 })
}

/// A 256-word buffer holding the seed where the seed reaches and zero
/// beyond it: a short seed is zero-padded, extra words are ignored.
pub open spec fn isaac_pad(seed: Seq<u32>) -> Seq<u32> {
    Seq::new(RAND_SIZE as nat, |i: int| if i < seed.len() { seed[i] } else { 0u32 })
}

/// The all-zero 256-word buffer.
pub open spec fn isaac_zeroes() -> Seq<u32> {
    Seq::new(RAND_SIZE as nat, |i: int| 0u32)
}

/// A random number generator that uses the ISAAC algorithm.  Not
/// certified cryptographically secure.
pub struct Isaac {
    pub cnt: usize,
    pub rsl: Vec<u32>,
    pub mem: Vec<u32>,
    pub a: u32,
    pub b: u32,
    pub c: u32,
}

impl View for Isaac {
    type V = IsaacV;

    open spec fn view(&self) -> IsaacV {
        IsaacV { cnt: self.cnt, rsl: self.rsl@, mem: self.mem@, a: self.a, b: self.b, c: self.c }
    }
}

/// One ISAAC output step: refill first if the buffer is exhausted, then
/// hand out the word below the cursor.
pub open spec fn isaac_step(m: IsaacV) -> (IsaacV, u32) {
    let v = if m.cnt == 0 {
        isaac_refill(m)
    } else {
        m
    };
    (
        IsaacV { cnt: (v.cnt - 1) as usize, rsl: v.rsl, mem: v.mem, a: v.a, b: v.b, c: v.c },
        v.rsl[v.cnt - 1],
    )
}

impl Rng for Isaac {
    open spec fn wf(&self) -> bool {
        self.rsl@.len() == RAND_SIZE && self.mem@.len() == RAND_SIZE && self.cnt <= RAND_SIZE
    }

    open spec fn sp_new() -> IsaacV {
        isaac_init_model(isaac_zeroes(), isaac_zeroes(), false)
    }

    open spec fn sp_next32(m: IsaacV) -> (IsaacV, u32) {
        isaac_step(m)
    }

    open spec fn sp_next64(m: IsaacV) -> (IsaacV, u64) {
        let (m1, hi) = Self::sp_next32(m);
        let (m2, lo) = Self::sp_next32(m1);
        (m2, ((hi as u64) << 32) | (lo as u64))
    }

    open spec fn sp_entropy32(m: IsaacV) -> usize {
        4
    }

    open spec fn sp_entropy64(m: IsaacV) -> usize {
        8
    }

    fn new() -> (r: Self) {
        Isaac::new_unseeded()
    }

    fn next_u32(&mut self) -> (r: u32) {
        if self.cnt == 0 {
            self.isaac();
        }
        self.cnt = self.cnt - 1;
        self.rsl[self.cnt]
    }

    fn next_u64(&mut self) -> (r: u64) {
        let hi = self.next_u32();
        let lo = self.next_u32();
        ((hi as u64) << 32) | (lo as u64)
    }

    fn entropy_u32(&self) -> (r: usize) {
        4
    }

    fn entropy_u64(&self) -> (r: usize) {
        8
    }
}

/// An index masked to eight bits stays below the array length.
proof fn lemma_byte_mask(t: u32)
    ensures
        (t & 0xFF) < 256,
{
    assert((t & 0xFF) < 256) by (bit_vector);
}

/// The indirection lookup, executably.
fn isaac_ind_exec(mem: &Vec<u32>, x: u32) -> (r: u32)
    requires
        mem@.len() == RAND_SIZE,
    ensures
        r == isaac_ind(mem@, x),
{
    proof {
        lemma_byte_mask(x >> 2);
    }
    mem[((x >> 2) & 0xFF) as usize]
}

/// One round of the eight-variable mixing function, executably.
fn isaac_mix_exec(v: Mix32) -> (r: Mix32)
    ensures
        r == isaac_mix(v),
{
    let a = v.a ^ (v.b << 11);
    let d = v.d.wrapping_add(a);
    let b = v.b.wrapping_add(v.c);
    let b = b ^ (v.c >> 2);
    let e = v.e.wrapping_add(b);
    let c = v.c.wrapping_add(d);
    let c = c ^ (d << 8);
    let f = v.f.wrapping_add(c);
    let d = d.wrapping_add(e);
    let d = d ^ (e >> 16);
    let g = v.g.wrapping_add(d);
    let e = e.wrapping_add(f);
    let e = e ^ (f << 10);
    let h = v.h.wrapping_add(e);
    let f = f.wrapping_add(g);
    let f = f ^ (g >> 4);
    let a = a.wrapping_add(f);
    let g = g.wrapping_add(h);
    let g = g ^ (h << 8);
    let b = b.wrapping_add(g);
    let h = h.wrapping_add(a);
    let h = h ^ (a >> 9);
    let c = c.wrapping_add(h);
    let a = a.wrapping_add(b);
    Mix32 { a, b, c, d, e, f, g, h }
}

impl Isaac {
    /// Create an ISAAC generator using the default fixed expansion: the
    /// state is derived algorithmically, not randomly.
    pub fn new_unseeded() -> (r: Isaac)
        ensures
            r@ == <Isaac as Rng>::sp_new(),
            r.wf(),
    {
        let mut rng = Isaac {
            cnt: 0,
            rsl: zero_vec(),
            mem: zero_vec(),
            a: 0,
            b: 0,
            c: 0,
        };
        rng.init(false);
        rng
    }

    /// Initialise from the current `rsl` buffer (when `use_rsl` is set)
    /// or from the fixed constants alone, leaving a freshly refilled
    /// output buffer.
    fn init(&mut self, use_rsl: bool)
        requires
            old(self).rsl@.len() == RAND_SIZE,
            old(self).mem@.len() == RAND_SIZE,
        ensures
            final(self)@ == isaac_init_model(old(self).rsl@, old(self).mem@, use_rsl),
            final(self).wf(),
    {
        let ghost rsl0 = self.rsl@;
        let ghost mem0 = self.mem@;
        let mut v = Mix32 {
            a: 0x9e3779b9,
            b: 0x9e3779b9,
            c: 0x9e3779b9,
            d: 0x9e3779b9,
            e: 0x9e3779b9,
            f: 0x9e3779b9,
            g: 0x9e3779b9,
            h: 0x9e3779b9,
        };
        v = isaac_mix_exec(v);
        v = isaac_mix_exec(v);
        v = isaac_mix_exec(v);
        v = isaac_mix_exec(v);
        assert(v == isaac_init_vars());
        if use_rsl {
            let ghost v0 = v;
            let mut blk: usize = 0;
            while blk < 32
                invariant
                    blk <= 32,
                    self.rsl@ == rsl0,
                    self.mem@.len() == RAND_SIZE,
                    rsl0.len() == RAND_SIZE,
                    (self.mem@, v) == isaac_init_pass(false, true, rsl0, mem0, v0, blk as nat),
                decreases 32 - blk,
            {
                let i0 = 8 * blk;
                let w = Mix32 {
                    a: v.a.wrapping_add(self.rsl[i0]),
                    b: v.b.wrapping_add(self.rsl[i0 + 1]),
                    c: v.c.wrapping_add(self.rsl[i0 + 2]),
                    d: v.d.wrapping_add(self.rsl[i0 + 3]),
                    e: v.e.wrapping_add(self.rsl[i0 + 4]),
                    f: v.f.wrapping_add(self.rsl[i0 + 5]),
                    g: v.g.wrapping_add(self.rsl[i0 + 6]),
                    h: v.h.wrapping_add(self.rsl[i0 + 7]),
                };
                v = isaac_mix_exec(w);
                self.write8(i0, v);
                blk = blk + 1;
            }
            let ghost mem1 = self.mem@;
            let ghost v1 = v;
            let mut blk: usize = 0;
            while blk < 32
                invariant
                    blk <= 32,
                    self.rsl@ == rsl0,
                    self.mem@.len() == RAND_SIZE,
                    (self.mem@, v) == isaac_init_pass(true, true, rsl0, mem1, v1, blk as nat),
                decreases 32 - blk,
            {
                let i0 = 8 * blk;
                let w = Mix32 {
                    a: v.a.wrapping_add(self.mem[i0]),
                    b: v.b.wrapping_add(self.mem[i0 + 1]),
                    c: v.c.wrapping_add(self.mem[i0 + 2]),
                    d: v.d.wrapping_add(self.mem[i0 + 3]),
                    e: v.e.wrapping_add(self.mem[i0 + 4]),
                    f: v.f.wrapping_add(self.mem[i0 + 5]),
                    g: v.g.wrapping_add(self.mem[i0 + 6]),
                    h: v.h.wrapping_add(self.mem[i0 + 7]),
                };
                v = isaac_mix_exec(w);
                self.write8(i0, v);
                blk = blk + 1;
            }
        } else {
            let ghost v0 = v;
            let mut blk: usize = 0;
            while blk < 32
                invariant
                    blk <= 32,
                    self.rsl@ == rsl0,
                    self.mem@.len() == RAND_SIZE,
                    (self.mem@, v) == isaac_init_pass(false, false, rsl0, mem0, v0, blk as nat),
                decreases 32 - blk,
            {
                let i0 = 8 * blk;
                v = isaac_mix_exec(v);
                self.write8(i0, v);
                blk = blk + 1;
            }
        }
        self.a = 0;
        self.b = 0;
        self.c = 0;
        self.cnt = 0;
        self.isaac();
    }

    /// Write the eight mixing variables into `mem` at `i0`.
    fn write8(&mut self, i0: usize, v: Mix32)
        requires
            old(self).mem@.len() == RAND_SIZE,
            i0 + 8 <= RAND_SIZE,
        ensures
            final(self).mem@ == isaac_write8(old(self).mem@, i0 as int, v),
            final(self).rsl == old(self).rsl,
            final(self).cnt == old(self).cnt,
            final(self).a == old(self).a,
            final(self).b == old(self).b,
            final(self).c == old(self).c,
    {
        self.mem.set(i0, v.a);
        self.mem.set(i0 + 1, v.b);
        self.mem.set(i0 + 2, v.c);
        self.mem.set(i0 + 3, v.d);
        self.mem.set(i0 + 4, v.e);
        self.mem.set(i0 + 5, v.f);
        self.mem.set(i0 + 6, v.g);
        self.mem.set(i0 + 7, v.h);
    }

    /// Refill the output buffer (`rsl`).
    fn isaac(&mut self)
        requires
            old(self).rsl@.len() == RAND_SIZE,
            old(self).mem@.len() == RAND_SIZE,
        ensures
            final(self)@ == isaac_refill(old(self)@),
            final(self).wf(),
    {
        self.c = self.c.wrapping_add(1);
        let mut a = self.a;
        let mut b = self.b.wrapping_add(self.c);
        let ghost mem0 = self.mem@;
        let ghost rsl0 = self.rsl@;
        let ghost a0 = a;
        let ghost b0 = b;
        let ghost c1 = self.c;
        let mut s: usize = 0;
        while s < RAND_SIZE
            invariant
                s <= RAND_SIZE,
                self.mem@.len() == RAND_SIZE,
                self.rsl@.len() == RAND_SIZE,
                self.c == c1,
                (self.mem@, self.rsl@, a, b) == isaac_steps(mem0, rsl0, a0, b0, s as nat),
            decreases RAND_SIZE - s,
        {
            let m2off: usize = if s < 128 {
                s + 128
            } else {
                s - 128
            };
            let mix: u32 = if s % 4 == 0 {
                a << 13u32
            } else if s % 4 == 1 {
                a >> 6u32
            } else if s % 4 == 2 {
                a << 2u32
            } else {
                a >> 16u32
            };
            let x = self.mem[s];
            a = (a ^ mix).wrapping_add(self.mem[m2off]);
            let y = isaac_ind_exec(&self.mem, x).wrapping_add(a).wrapping_add(b);
            self.mem.set(s, y);
            b = isaac_ind_exec(&self.mem, y >> 8).wrapping_add(x);
            self.rsl.set(s, b);
            s = s + 1;
        }
        self.a = a;
        self.b = b;
        self.cnt = RAND_SIZE;
    }
}

/// A fresh 256-word zero buffer.
fn zero_vec() -> (r: Vec<u32>)
    ensures
        r@ == isaac_zeroes(),
{
    let mut v: Vec<u32> = Vec::new();
    while v.len() < RAND_SIZE
        invariant
            v.len() <= RAND_SIZE,
            v@ == Seq::new(v.len() as nat, |i: int| 0u32),
        decreases RAND_SIZE - v.len(),
    {
        v.push(0);
    }
    assert(v@ =~= isaac_zeroes());
    v
}

/// Copy a seed into a fresh 256-word buffer, zero-padding a short seed
/// and ignoring words beyond the buffer.
fn pad_vec(seed: &Vec<u32>) -> (r: Vec<u32>)
    ensures
        r@ == isaac_pad(seed@),
{
    let mut v: Vec<u32> = Vec::new();
    while v.len() < RAND_SIZE
        invariant
            v.len() <= RAND_SIZE,
            v@ == isaac_pad(seed@).take(v.len() as int),
        decreases RAND_SIZE - v.len(),
    {
        let k = v.len();
        let w = if k < seed.len() {
            seed[k]
        } else {
            0
        };
        v.push(w);
    }
    assert(v@ =~= isaac_pad(seed@));
    v
}

impl SeedableRng<Vec<u32>> for Isaac {
    open spec fn seed_ok(seed: Vec<u32>) -> bool {
        true
    }

    open spec fn sp_from_seed(seed: Vec<u32>) -> IsaacV {
        isaac_init_model(isaac_pad(seed@), isaac_zeroes(), true)
    }

    open spec fn sp_reseed(m: IsaacV, seed: Vec<u32>) -> IsaacV {
        isaac_init_model(isaac_pad(seed@), isaac_zeroes(), true)
    }

    fn reseed(&mut self, seed: Vec<u32>) {
        *self = <Isaac as SeedableRng<Vec<u32>>>::from_seed(seed);
    }

    /// The seed can have any length: at most 256 words are used, missing
    /// words are taken to be zero.  Generators built from equal seeds
    /// generate identical sequences.
    fn from_seed(seed: Vec<u32>) -> (r: Self) {
        let mut rng = Isaac {
            cnt: 0,
            rsl: pad_vec(&seed),
            mem: zero_vec(),
            a: 0,
            b: 0,
            c: 0,
        };
        rng.init(true);
        rng
    }

    proof fn from_seed_is_new_reseed(seed: Vec<u32>) {
    }
}

impl SeedableRng<u32> for Isaac {
    open spec fn seed_ok(seed: u32) -> bool {
        true
    }

    open spec fn sp_from_seed(seed: u32) -> IsaacV {
        isaac_init_model(isaac_pad(seq![seed]), isaac_zeroes(), true)
    }

    open spec fn sp_reseed(m: IsaacV, seed: u32) -> IsaacV {
        isaac_init_model(isaac_pad(seq![seed]), isaac_zeroes(), true)
    }

    fn reseed(&mut self, seed: u32) {
        let mut s: Vec<u32> = Vec::new();
        s.push(seed);
        assert(s@ =~= seq![seed]);
        *self = <Isaac as SeedableRng<Vec<u32>>>::from_seed(s);
    }

    fn from_seed(seed: u32) -> (r: Self) {
        let mut s: Vec<u32> = Vec::new();
        s.push(seed);
        assert(s@ =~= seq![seed]);
        <Isaac as SeedableRng<Vec<u32>>>::from_seed(s)
    }

    proof fn from_seed_is_new_reseed(seed: u32) {
    }
}

/// Seed-length tolerance for ISAAC: seeding with any sequence gives the
/// same generator as seeding with that sequence cut or zero-padded to the
/// buffer length.
pub proof fn lemma_isaac_seed_padding(seed: Seq<u32>, padded: Seq<u32>)
    requires
        padded.len() == RAND_SIZE,
        forall|i: int|
            0 <= i < RAND_SIZE ==> padded[i] == (if i < seed.len() {
                seed[i]
            } else {
                0u32
            }),
    ensures
        isaac_pad(seed) == isaac_pad(padded),
        isaac_init_model(isaac_pad(seed), isaac_zeroes(), true) == isaac_init_model(
            isaac_pad(padded),
            isaac_zeroes(),
            true,
        ),
{
    assert(isaac_pad(seed) =~= isaac_pad(padded));
}


/// The eight mixing variables of the ISAAC-64 initialisation rounds.
#[derive(Clone, Copy)]
pub struct Mix64 {
    pub a: u64,
    pub b: u64,
    pub c: u64,
    pub d: u64,
    pub e: u64,
    pub f: u64,
    pub g: u64,
    pub h: u64,
}

/// One round of the eight-variable ISAAC-64 mixing function.
pub open spec fn isaac64_mix(v: Mix64) -> Mix64 {
    let a = v.a.wrapping_sub(v.e);
    let f = v.f ^ (v.h >> 9);
    let h = v.h.wrapping_add(a);
    let b = v.b.wrapping_sub(f);
    let g = v.g ^ (a << 9);
    let a = a.wrapping_add(b);
    let c = v.c.wrapping_sub(g);
    let h = h ^ (b >> 23);
    let b = b.wrapping_add(c);
    let d = v.d.wrapping_sub(h);
    let a = a ^ (c << 15);
    let c = c.wrapping_add(d);
    let e = v.e.wrapping_sub(a);
    let b = b ^ (d >> 14);
    let d = d.wrapping_add(e);
    let f = f.wrapping_sub(b);
    let c = c ^ (e << 20);
    let e = e.wrapping_add(f);
    let g = g.wrapping_sub(c);
    let d = d ^ (f >> 17);
    let f = f.wrapping_add(g);
    let h = h.wrapping_sub(d);
    let e = e ^ (g << 14);
    let g = g.wrapping_add(h);
    Mix64 { a, b, c, d, e, f, g, h }
}

/// The ISAAC-64 mixing variables before the first block: the 64-bit
/// golden-ratio constant in all eight slots, mixed four times.
pub open spec fn isaac64_init_vars() -> Mix64 {
    let g = 0x9e3779b97f4a7c13u64;
    isaac64_mix(
        isaac64_mix(
            isaac64_mix(isaac64_mix(Mix64 { a: g, b: g, c: g, d: g, e: g, f: g, g: g, h: g })),
        ),
    )
}

/// Eight consecutive words of `src` absorbed into the mixing variables.
pub open spec fn isaac64_absorb8(src: Seq<u64>, i0: int, v: Mix64) -> Mix64 {
    Mix64 {
        a: v.a.wrapping_add(src[i0]),
        b: v.b.wrapping_add(src[i0 + 1]),
        c: v.c.wrapping_add(src[i0 + 2]),
        d: v.d.wrapping_add(src[i0 + 3]),
        e: v.e.wrapping_add(src[i0 + 4]),
        f: v.f.wrapping_add(src[i0 + 5]),
        g: v.g.wrapping_add(src[i0 + 6]),
        h: v.h.wrapping_add(src[i0 + 7]),
    }
}

/// The mixing variables written into eight consecutive words of `mem`.
pub open spec fn isaac64_write8(mem: Seq<u64>, i0: int, v: Mix64) -> Seq<u64> {
    mem.update(i0, v.a).update(i0 + 1, v.b).update(i0 + 2, v.c).update(i0 + 3, v.d).update(
        i0 + 4,
        v.e,
    ).update(i0 + 5, v.f).update(i0 + 6, v.g).update(i0 + 7, v.h)
}

/// The state array and mixing variables after the first `k` blocks of an
/// ISAAC-64 initialisation pass.
pub open spec fn isaac64_init_pass(
    read_mem: bool,
    absorb: bool,
    arr: Seq<u64>,
    mem: Seq<u64>,
    v: Mix64,
    k: nat,
) -> (Seq<u64>, Mix64)
    decreases k,
{
    if k == 0 {
        (mem, v)
    } else {
        let (m1, v1) = isaac64_init_pass(read_mem, absorb, arr, mem, v, (k - 1) as nat);
        let i0 = 8 * (k - 1);
        let src = if read_mem {
            m1
        } else {
            arr
        };
        let v2 = if absorb {
            isaac64_mix(isaac64_absorb8(src, i0, v1))
        } else {
            isaac64_mix(v1)
        };
        (isaac64_write8(m1, i0, v2), v2)
    }
}

/// The ISAAC-64 indirection lookup: the state word selected by bits 3..11
/// of `x`.
pub open spec fn isaac64_ind(mem: Seq<u64>, x: u64) -> u64 {
    mem[((x >> 3) & 0xFF) as int]
}

/// One of the 256 steps of an ISAAC-64 refill, at position `s`; the mixed
/// accumulator is complemented on the first of each group of four steps.
pub open spec fn isaac64_rngstep(mem: Seq<u64>, rsl: Seq<u64>, a: u64, b: u64, s: int) -> (
    Seq<u64>,
    Seq<u64>,
    u64,
    u64,
) {
    let m2off: int = if s < 128 {
        s + 128
    } else {
        s - 128
    };
    let mix: u64 = if s % 4 == 0 {
        !(a ^ (a << 21))
    } else if s % 4 == 1 {
        a ^ (a >> 5)
    } else if s % 4 == 2 {
        a ^ (a << 12)
    } else {
        a ^ (a >> 33)
    };
    let x = mem[s];
    let a2 = mix.wrapping_add(mem[m2off]);
    let y = isaac64_ind(mem, x).wrapping_add(a2).wrapping_add(b);
    let mem2 = mem.update(s, y);
    let b2 = isaac64_ind(mem2, y >> 8).wrapping_add(x);
    (mem2, rsl.update(s, b2), a2, b2)
}

/// The state after the first `k` ISAAC-64 refill steps.
pub open spec fn isaac64_steps(mem: Seq<u64>, rsl: Seq<u64>, a: u64, b: u64, k: nat) -> (
    Seq<u64>,
    Seq<u64>,
    u64,
    u64,
)
    decreases k,
{
    if k == 0 {
        (mem, rsl, a, b)
    } else {
        let (m, r, aa, bb) = isaac64_steps(mem, rsl, a, b, (k - 1) as nat);
        isaac64_rngstep(m, r, aa, bb, k - 1)
    }
}

/// The model of an `Isaac64` state.
pub struct Isaac64V {
    pub cnt: usize,
    pub rsl: Seq<u64>,
    pub mem: Seq<u64>,
    pub a: u64,
    pub b: u64,
    pub c: u64,
}

/// A full ISAAC-64 refill.
pub open spec fn isaac64_refill(v: Isaac64V) -> Isaac64V {
    let c2 = v.c.wrapping_add(1);
    let b0 = v.b.wrapping_add(c2);
    let (mem2, rsl2, a2, b2) = isaac64_steps(v.mem, v.rsl, v.a, b0, RAND_SIZE as nat);
    Isaac64V { cnt: RAND_SIZE as usize, rsl: rsl2, mem: mem2, a: a2, b: b2, c: c2 }
}

/// The model produced by ISAAC-64 initialisation.
pub open spec fn isaac64_init_model(rsl: Seq<u64>, mem: Seq<u64>, use_rsl: bool) -> Isaac64V {
    let v0 = isaac64_init_vars();
    let memf = if use_rsl {
        let (m1, v1) = isaac64_init_pass(false, true, rsl, mem, v0, 32);
        let (m2, v2) = isaac64_init_pass(true, true, rsl, m1, v1, 32);
        m2
    } else {
        let (m1, v1) = isaac64_init_pass(false, false, rsl, mem, v0, 32);
        m1
    };
    isaac64_refill(Isaac64V { cnt: 0, rsl, mem: memf, a: 0, b: 0, c: 0 })
}

/// A 256-word buffer holding the seed where the seed reaches and zero
/// beyond it.
pub open spec fn isaac64_pad(seed: Seq<u64>) -> Seq<u64> {
    Seq::new(RAND_SIZE as nat, |i: int| if i < seed.len() { seed[i] } else { 0u64 })
}

/// The all-zero 256-word buffer of 64-bit words.
pub open spec fn isaac64_zeroes() -> Seq<u64> {
    Seq::new(RAND_SIZE as nat, |i: int| 0u64)
}

/// A random number generator that uses the 64-bit ISAAC-64 algorithm.
/// Not certified cryptographically secure.
pub struct Isaac64 {
    pub cnt: usize,
    pub rsl: Vec<u64>,
    pub mem: Vec<u64>,
    pub a: u64,
    pub b: u64,
    pub c: u64,
}

impl View for Isaac64 {
    type V = Isaac64V;

    open spec fn view(&self) -> Isaac64V {
        Isaac64V { cnt: self.cnt, rsl: self.rsl@, mem: self.mem@, a: self.a, b: self.b, c: self.c }
    }
}

/// One ISAAC-64 output step.
pub open spec fn isaac64_step(m: Isaac64V) -> (Isaac64V, u64) {
    let v = if m.cnt == 0 {
        isaac64_refill(m)
    } else {
        m
    };
    (
        Isaac64V { cnt: (v.cnt - 1) as usize, rsl: v.rsl, mem: v.mem, a: v.a, b: v.b, c: v.c },
        v.rsl[v.cnt - 1],
    )
}

impl Rng for Isaac64 {
    open spec fn wf(&self) -> bool {
        self.rsl@.len() == RAND_SIZE && self.mem@.len() == RAND_SIZE && self.cnt <= RAND_SIZE
    }

    open spec fn sp_new() -> Isaac64V {
        isaac64_init_model(isaac64_zeroes(), isaac64_zeroes(), false)
    }

    open spec fn sp_next64(m: Isaac64V) -> (Isaac64V, u64) {
        isaac64_step(m)
    }

    open spec fn sp_next32(m: Isaac64V) -> (Isaac64V, u32) {
        let (m1, x) = Self::sp_next64(m);
        (m1, (x & 0xFFFF_FFFF) as u32)
    }

    open spec fn sp_entropy32(m: Isaac64V) -> usize {
        8
    }

    open spec fn sp_entropy64(m: Isaac64V) -> usize {
        8
    }

    fn new() -> (r: Self) {
        Isaac64::new_unseeded()
    }

    fn next_u32(&mut self) -> (r: u32) {
        let x = self.next_u64();
        (x & 0xFFFF_FFFF) as u32
    }

    fn next_u64(&mut self) -> (r: u64) {
        if self.cnt == 0 {
            self.isaac64();
        }
        self.cnt = self.cnt - 1;
        self.rsl[self.cnt]
    }

    fn entropy_u32(&self) -> (r: usize) {
        8
    }

    fn entropy_u64(&self) -> (r: usize) {
        8
    }
}

/// The ISAAC-64 indirection lookup, executably.
fn isaac64_ind_exec(mem: &Vec<u64>, x: u64) -> (r: u64)
    requires
        mem@.len() == RAND_SIZE,
    ensures
        r == isaac64_ind(mem@, x),
{
    proof {
        lemma_byte_mask64(x >> 3);
    }
    mem[((x >> 3) & 0xFF) as usize]
}

/// An index masked to eight bits stays below the array length.
proof fn lemma_byte_mask64(t: u64)
    ensures
        (t & 0xFF) < 256,
{
    assert((t & 0xFF) < 256) by (bit_vector);
}

/// One round of the eight-variable ISAAC-64 mixing function, executably.
fn isaac64_mix_exec(v: Mix64) -> (r: Mix64)
    ensures
        r == isaac64_mix(v),
{
    let a = v.a.wrapping_sub(v.e);
    let f = v.f ^ (v.h >> 9);
    let h = v.h.wrapping_add(a);
    let b = v.b.wrapping_sub(f);
    let g = v.g ^ (a << 9);
    let a = a.wrapping_add(b);
    let c = v.c.wrapping_sub(g);
    let h = h ^ (b >> 23);
    let b = b.wrapping_add(c);
    let d = v.d.wrapping_sub(h);
    let a = a ^ (c << 15);
    let c = c.wrapping_add(d);
    let e = v.e.wrapping_sub(a);
    let b = b ^ (d >> 14);
    let d = d.wrapping_add(e);
    let f = f.wrapping_sub(b);
    let c = c ^ (e << 20);
    let e = e.wrapping_add(f);
    let g = g.wrapping_sub(c);
    let d = d ^ (f >> 17);
    let f = f.wrapping_add(g);
    let h = h.wrapping_sub(d);
    let e = e ^ (g << 14);
    let g = g.wrapping_add(h);
    Mix64 { a, b, c, d, e, f, g, h }
}

impl Isaac64 {
    /// Create an ISAAC-64 generator using the default fixed expansion:
    /// the state is derived algorithmically, not randomly.
    pub fn new_unseeded() -> (r: Isaac64)
        ensures
            r@ == <Isaac64 as Rng>::sp_new(),
            r.wf(),
    {
        let mut rng = Isaac64 {
            cnt: 0,
            rsl: zero_vec64(),
            mem: zero_vec64(),
            a: 0,
            b: 0,
            c: 0,
        };
        rng.init(false);
        rng
    }

    /// Initialise from the current `rsl` buffer (when `use_rsl` is set)
    /// or from the fixed constants alone.
    fn init(&mut self, use_rsl: bool)
        requires
            old(self).rsl@.len() == RAND_SIZE,
            old(self).mem@.len() == RAND_SIZE,
        ensures
            final(self)@ == isaac64_init_model(old(self).rsl@, old(self).mem@, use_rsl),
            final(self).wf(),
    {
        let ghost rsl0 = self.rsl@;
        let ghost mem0 = self.mem@;
        let mut v = Mix64 {
            a: 0x9e3779b97f4a7c13,
            b: 0x9e3779b97f4a7c13,
            c: 0x9e3779b97f4a7c13,
            d: 0x9e3779b97f4a7c13,
            e: 0x9e3779b97f4a7c13,
            f: 0x9e3779b97f4a7c13,
            g: 0x9e3779b97f4a7c13,
            h: 0x9e3779b97f4a7c13,
        };
        v = isaac64_mix_exec(v);
        v = isaac64_mix_exec(v);
        v = isaac64_mix_exec(v);
        v = isaac64_mix_exec(v);
        assert(v == isaac64_init_vars());
        if use_rsl {
            let ghost v0 = v;
            let mut blk: usize = 0;
            while blk < 32
                invariant
                    blk <= 32,
                    self.rsl@ == rsl0,
                    self.mem@.len() == RAND_SIZE,
                    rsl0.len() == RAND_SIZE,
                    (self.mem@, v) == isaac64_init_pass(false, true, rsl0, mem0, v0, blk as nat),
                decreases 32 - blk,
            {
                let i0 = 8 * blk;
                let w = Mix64 {
                    a: v.a.wrapping_add(self.rsl[i0]),
                    b: v.b.wrapping_add(self.rsl[i0 + 1]),
                    c: v.c.wrapping_add(self.rsl[i0 + 2]),
                    d: v.d.wrapping_add(self.rsl[i0 + 3]),
                    e: v.e.wrapping_add(self.rsl[i0 + 4]),
                    f: v.f.wrapping_add(self.rsl[i0 + 5]),
                    g: v.g.wrapping_add(self.rsl[i0 + 6]),
                    h: v.h.wrapping_add(self.rsl[i0 + 7]),
                };
                v = isaac64_mix_exec(w);
                self.write8(i0, v);
                blk = blk + 1;
            }
            let ghost mem1 = self.mem@;
            let ghost v1 = v;
            let mut blk: usize = 0;
            while blk < 32
                invariant
                    blk <= 32,
                    self.rsl@ == rsl0,
                    self.mem@.len() == RAND_SIZE,
                    (self.mem@, v) == isaac64_init_pass(true, true, rsl0, mem1, v1, blk as nat),
                decreases 32 - blk,
            {
                let i0 = 8 * blk;
                let w = Mix64 {
                    a: v.a.wrapping_add(self.mem[i0]),
                    b: v.b.wrapping_add(self.mem[i0 + 1]),
                    c: v.c.wrapping_add(self.mem[i0 + 2]),
                    d: v.d.wrapping_add(self.mem[i0 + 3]),
                    e: v.e.wrapping_add(self.mem[i0 + 4]),
                    f: v.f.wrapping_add(self.mem[i0 + 5]),
                    g: v.g.wrapping_add(self.mem[i0 + 6]),
                    h: v.h.wrapping_add(self.mem[i0 + 7]),
                };
                v = isaac64_mix_exec(w);
                self.write8(i0, v);
                blk = blk + 1;
            }
        } else {
            let ghost v0 = v;
            let mut blk: usize = 0;
            while blk < 32
                invariant
                    blk <= 32,
                    self.rsl@ == rsl0,
                    self.mem@.len() == RAND_SIZE,
                    (self.mem@, v) == isaac64_init_pass(false, false, rsl0, mem0, v0, blk as nat),
                decreases 32 - blk,
            {
                let i0 = 8 * blk;
                v = isaac64_mix_exec(v);
                self.write8(i0, v);
                blk = blk + 1;
            }
        }
        self.a = 0;
        self.b = 0;
        self.c = 0;
        self.cnt = 0;
        self.isaac64();
    }

    /// Write the eight mixing variables into `mem` at `i0`.
    fn write8(&mut self, i0: usize, v: Mix64)
        requires
            old(self).mem@.len() == RAND_SIZE,
            i0 + 8 <= RAND_SIZE,
        ensures
            final(self).mem@ == isaac64_write8(old(self).mem@, i0 as int, v),
            final(self).rsl == old(self).rsl,
            final(self).cnt == old(self).cnt,
            final(self).a == old(self).a,
            final(self).b == old(self).b,
            final(self).c == old(self).c,
    {
        self.mem.set(i0, v.a);
        self.mem.set(i0 + 1, v.b);
        self.mem.set(i0 + 2, v.c);
        self.mem.set(i0 + 3, v.d);
        self.mem.set(i0 + 4, v.e);
        self.mem.set(i0 + 5, v.f);
        self.mem.set(i0 + 6, v.g);
        self.mem.set(i0 + 7, v.h);
    }

    /// Refill the output buffer (`rsl`).
    fn isaac64(&mut self)
        requires
            old(self).rsl@.len() == RAND_SIZE,
            old(self).mem@.len() == RAND_SIZE,
        ensures
            final(self)@ == isaac64_refill(old(self)@),
            final(self).wf(),
    {
        self.c = self.c.wrapping_add(1);
        let mut a = self.a;
        let mut b = self.b.wrapping_add(self.c);
        let ghost mem0 = self.mem@;
        let ghost rsl0 = self.rsl@;
        let ghost a0 = a;
        let ghost b0 = b;
        let ghost c1 = self.c;
        let mut s: usize = 0;
        while s < RAND_SIZE
            invariant
                s <= RAND_SIZE,
                self.mem@.len() == RAND_SIZE,
                self.rsl@.len() == RAND_SIZE,
                self.c == c1,
                (self.mem@, self.rsl@, a, b) == isaac64_steps(mem0, rsl0, a0, b0, s as nat),
            decreases RAND_SIZE - s,
        {
            let m2off: usize = if s < 128 {
                s + 128
            } else {
                s - 128
            };
            let mix: u64 = if s % 4 == 0 {
                !(a ^ (a << 21u64))
            } else if s % 4 == 1 {
                a ^ (a >> 5u64)
            } else if s % 4 == 2 {
                a ^ (a << 12u64)
            } else {
                a ^ (a >> 33u64)
            };
            let x = self.mem[s];
            a = mix.wrapping_add(self.mem[m2off]);
            let y = isaac64_ind_exec(&self.mem, x).wrapping_add(a).wrapping_add(b);
            self.mem.set(s, y);
            b = isaac64_ind_exec(&self.mem, y >> 8).wrapping_add(x);
            self.rsl.set(s, b);
            s = s + 1;
        }
        self.a = a;
        self.b = b;
        self.cnt = RAND_SIZE;
    }
}

/// A fresh 256-word zero buffer of 64-bit words.
fn zero_vec64() -> (r: Vec<u64>)
    ensures
        r@ == isaac64_zeroes(),
{
    let mut v: Vec<u64> = Vec::new();
    while v.len() < RAND_SIZE
        invariant
            v.len() <= RAND_SIZE,
            v@ == Seq::new(v.len() as nat, |i: int| 0u64),
        decreases RAND_SIZE - v.len(),
    {
        v.push(0);
    }
    assert(v@ =~= isaac64_zeroes());
    v
}

/// Copy a seed into a fresh 256-word buffer, zero-padding a short seed
/// and ignoring words beyond the buffer.
fn pad_vec64(seed: &Vec<u64>) -> (r: Vec<u64>)
    ensures
        r@ == isaac64_pad(seed@),
{
    let mut v: Vec<u64> = Vec::new();
    while v.len() < RAND_SIZE
        invariant
            v.len() <= RAND_SIZE,
            v@ == isaac64_pad(seed@).take(v.len() as int),
        decreases RAND_SIZE - v.len(),
    {
        let k = v.len();
        let w = if k < seed.len() {
            seed[k]
        } else {
            0
        };
        v.push(w);
    }
    assert(v@ =~= isaac64_pad(seed@));
    v
}

impl SeedableRng<Vec<u64>> for Isaac64 {
    open spec fn seed_ok(seed: Vec<u64>) -> bool {
        true
    }

    open spec fn sp_from_seed(seed: Vec<u64>) -> Isaac64V {
        isaac64_init_model(isaac64_pad(seed@), isaac64_zeroes(), true)
    }

    open spec fn sp_reseed(m: Isaac64V, seed: Vec<u64>) -> Isaac64V {
        isaac64_init_model(isaac64_pad(seed@), isaac64_zeroes(), true)
    }

    fn reseed(&mut self, seed: Vec<u64>) {
        *self = <Isaac64 as SeedableRng<Vec<u64>>>::from_seed(seed);
    }

    /// The seed can have any length: at most 256 words are used, missing
    /// words are taken to be zero.  Generators built from equal seeds
    /// generate identical sequences.
    fn from_seed(seed: Vec<u64>) -> (r: Self) {
        let mut rng = Isaac64 {
            cnt: 0,
            rsl: pad_vec64(&seed),
            mem: zero_vec64(),
            a: 0,
            b: 0,
            c: 0,
        };
        rng.init(true);
        rng
    }

    proof fn from_seed_is_new_reseed(seed: Vec<u64>) {
    }
}

impl SeedableRng<u64> for Isaac64 {
    open spec fn seed_ok(seed: u64) -> bool {
        true
    }

    open spec fn sp_from_seed(seed: u64) -> Isaac64V {
        isaac64_init_model(isaac64_pad(seq![seed]), isaac64_zeroes(), true)
    }

    open spec fn sp_reseed(m: Isaac64V, seed: u64) -> Isaac64V {
        isaac64_init_model(isaac64_pad(seq![seed]), isaac64_zeroes(), true)
    }

    fn reseed(&mut self, seed: u64) {
        let mut s: Vec<u64> = Vec::new();
        s.push(seed);
        assert(s@ =~= seq![seed]);
        *self = <Isaac64 as SeedableRng<Vec<u64>>>::from_seed(s);
    }

    fn from_seed(seed: u64) -> (r: Self) {
        let mut s: Vec<u64> = Vec::new();
        s.push(seed);
        assert(s@ =~= seq![seed]);
        <Isaac64 as SeedableRng<Vec<u64>>>::from_seed(s)
    }

    proof fn from_seed_is_new_reseed(seed: u64) {
    }
}

/// Seed-length tolerance for ISAAC-64: seeding with any sequence gives
/// the same generator as seeding with that sequence cut or zero-padded to
/// the buffer length.
pub proof fn lemma_isaac64_seed_padding(seed: Seq<u64>, padded: Seq<u64>)
    requires
        padded.len() == RAND_SIZE,
        forall|i: int|
            0 <= i < RAND_SIZE ==> padded[i] == (if i < seed.len() {
                seed[i]
            } else {
                0u64
            }),
    ensures
        isaac64_pad(seed) == isaac64_pad(padded),
        isaac64_init_model(isaac64_pad(seed), isaac64_zeroes(), true) == isaac64_init_model(
            isaac64_pad(padded),
            isaac64_zeroes(),
            true,
        ),
{
    assert(isaac64_pad(seed) =~= isaac64_pad(padded));
}

} // verus!
