//! Mersenne Twister generators (32- and 64-bit) and the WELL512
//! generator: block generators over a fixed-length state array with a
//! cursor.

use vstd::prelude::*;
use vstd::pervasive::VecAdditionalExecFns;
use crate::Rng;
use crate::SeedableRng;

verus! {

/// The MT19937 state length.
pub const MT_N: usize = 624;

/// The MT19937 middle offset.
pub const MT_M: usize = 397;

/// The MT19937 twist-matrix constant.
pub const MT_A: u32 = 0x9908b0df;

/// A 32-bit Mersenne Twister (MT19937): a 624-word state array plus a
/// cursor; generation proceeds in batches of 624 recomputed by the twist
/// step, and every word passes through a tempering transform on the way
/// out.
pub struct MT19937 {
    pub state: Vec<u32>,
    pub index: usize,
}

/// The model of an `MT19937` state.
pub struct Mt32V {
    pub state: Seq<u32>,
    pub index: usize,
}

impl View for MT19937 {
    type V = Mt32V;

    open spec fn view(&self) -> Mt32V {
        Mt32V { state: self.state@, index: self.index }
    }
}

/// The twist recurrence for one word: the high bit of word `i` joins the
/// low bits of the word after it, and the word `397` ahead (cyclically) is
/// folded in, with a conditional XOR of the twist-matrix constant.
pub open spec fn mt32_twist_word(s: Seq<u32>, i: int) -> u32 {
    let i1 = if i == MT_N - 1 {
        0
    } else {
        i + 1
    };
    let im = if i < MT_N - MT_M {
        i + MT_M
    } else {
        i - (MT_N - MT_M)
    };
    let y = (s[i] & 0x8000_0000) | (s[i1] & 0x7fff_ffff);
    s[im] ^ (y >> 1) ^ (if y & 1 == 1 {
        MT_A
    } else {
        0
    })
}

/// The state after the first `k` words of a twist have been recomputed in
/// place, in order.
pub open spec fn mt32_twist_upto(s: Seq<u32>, k: nat) -> Seq<u32>
    decreases k,
{
    if k == 0 {
        s
    } else {
        let p = mt32_twist_upto(s, (k - 1) as nat);
        p.update(k - 1, mt32_twist_word(p, k - 1))
    }
}

/// A full twist: all 624 words recomputed.
pub open spec fn mt32_twist(s: Seq<u32>) -> Seq<u32> {
    mt32_twist_upto(s, MT_N as nat)
}

/// The MT19937 tempering transform.
pub open spec fn mt32_temper(y0: u32) -> u32 {
    let y1 = y0 ^ (y0 >> 11);
    let y2 = y1 ^ ((y1 << 7) & 0x9d2c5680);
    let y3 = y2 ^ ((y2 << 15) & 0xefc60000);
    y3 ^ (y3 >> 18)
}

/// One MT19937 output step: twist first if the batch is exhausted, then
/// temper the word under the cursor and advance it.
pub open spec fn mt32_step(m: Mt32V) -> (Mt32V, u32) {
    let st = if m.index >= MT_N {
        mt32_twist(m.state)
    } else {
        m.state
    };
    let idx: usize = if m.index >= MT_N {
        0
    } else {
        m.index
    };
    (Mt32V { state: st, index: (idx + 1) as usize }, mt32_temper(st[idx as int]))
}

/// The first `k` words of the state expanded from a scalar seed by the
/// standard MT recurrence `state[i] = 1812433253 * (state[i-1] ^
/// (state[i-1] >> 30)) + i`.
pub open spec fn mt32_seed_upto(seed: u32, k: nat) -> Seq<u32>
    decreases k,
{
    if k <= 1 {
        seq![seed]
    } else {
        let p = mt32_seed_upto(seed, (k - 1) as nat);
        let prev = p[k - 2];
        p.push(1812433253u32.wrapping_mul(prev ^ (prev >> 30)).wrapping_add((k - 1) as u32))
    }
}

/// The model determined by a scalar seed: the expanded state with the
/// cursor at the end, so the first draw twists.
pub open spec fn mt32_from_scalar(seed: u32) -> Mt32V {
    Mt32V { state: mt32_seed_upto(seed, MT_N as nat), index: MT_N as usize }
}

/// One step of the first key-mixing pass: fold the next key word into the
/// state at cursor `i`, then advance both cursors cyclically (the state
/// cursor wraps to 1, copying the last word to slot 0).
pub open spec fn mt32_mix_a_step(key: Seq<u32>, s: Seq<u32>, i: nat, j: nat) -> (
    Seq<u32>,
    nat,
    nat,
) {
    let v = (s[i as int] ^ ((s[i as int - 1] ^ (s[i as int - 1] >> 30)).wrapping_mul(
        1664525,
    ))).wrapping_add(key[j as int]).wrapping_add(j as u32);
    let s2 = s.update(i as int, v);
    let (s3, i3) = if i + 1 >= MT_N {
        (s2.update(0, s2[MT_N - 1]), 1nat)
    } else {
        (s2, i + 1)
    };
    let j3: nat = if j + 1 >= key.len() {
        0
    } else {
        j + 1
    };
    (s3, i3, j3)
}

/// The state and cursors after `k` steps of the first key-mixing pass.
pub open spec fn mt32_mix_a_upto(key: Seq<u32>, s0: Seq<u32>, k: nat) -> (Seq<u32>, nat, nat)
    decreases k,
{
    if k == 0 {
        (s0, 1nat, 0nat)
    } else {
        let (s, i, j) = mt32_mix_a_upto(key, s0, (k - 1) as nat);
        mt32_mix_a_step(key, s, i, j)
    }
}

/// One step of the second mixing pass: a multiply-fold-subtract over the
/// state alone, with the same cyclic state cursor.
pub open spec fn mt32_mix_b_step(s: Seq<u32>, i: nat) -> (Seq<u32>, nat) {
    let v = (s[i as int] ^ ((s[i as int - 1] ^ (s[i as int - 1] >> 30)).wrapping_mul(
        1566083941,
    ))).wrapping_sub(i as u32);
    let s2 = s.update(i as int, v);
    if i + 1 >= MT_N {
        (s2.update(0, s2[MT_N - 1]), 1nat)
    } else {
        (s2, i + 1)
    }
}

/// The state and cursor after `k` steps of the second mixing pass.
pub open spec fn mt32_mix_b_upto(s0: Seq<u32>, i0: nat, k: nat) -> (Seq<u32>, nat)
    decreases k,
{
    if k == 0 {
        (s0, i0)
    } else {
        let (s, i) = mt32_mix_b_upto(s0, i0, (k - 1) as nat);
        mt32_mix_b_step(s, i)
    }
}

/// The model determined by a seed sequence, per the reference MT seeding
/// algorithm: scalar-seed with 19650218, fold the key in cyclically, run
/// the second mixing pass, and force the top bit of slot 0.
pub open spec fn mt32_from_key(key: Seq<u32>) -> Mt32V {
    let base = mt32_seed_upto(19650218, MT_N as nat);
    let lim: nat = if key.len() > MT_N {
        key.len()
    } else {
        MT_N as nat
    };
    let (s1, i1, j1) = mt32_mix_a_upto(key, base, lim);
    let (s2, i2) = mt32_mix_b_upto(s1, i1, (MT_N - 1) as nat);
    Mt32V { state: s2.update(0, 0x8000_0000), index: MT_N as usize }
}

impl Rng for MT19937 {
    open spec fn wf(&self) -> bool {
        self.state.len() == MT_N && self.index <= MT_N
    }

    open spec fn sp_new() -> Mt32V {
        mt32_from_scalar(5489)
    }

    open spec fn sp_next32(m: Mt32V) -> (Mt32V, u32) {
        mt32_step(m)
    }

    open spec fn sp_next64(m: Mt32V) -> (Mt32V, u64) {
        let (m1, hi) = Self::sp_next32(m);
        let (m2, lo) = Self::sp_next32(m1);
        (m2, ((hi as u64) << 32) | (lo as u64))
    }

    open spec fn sp_entropy32(m: Mt32V) -> usize {
        4
    }

    open spec fn sp_entropy64(m: Mt32V) -> usize {
        8
    }

    /// The default state is the one the reference algorithm derives from
    /// the scalar seed 5489.
    fn new() -> (r: Self) {
        MT19937::expand_scalar(5489)
    }

    fn next_u32(&mut self) -> (r: u32) {
        if self.index >= MT_N {
            self.generate_numbers();
        }
        let y0 = self.state[self.index];
        self.index = self.index + 1;
        let y1 = y0 ^ (y0 >> 11);
        let y2 = y1 ^ ((y1 << 7) & 0x9d2c5680);
        let y3 = y2 ^ ((y2 << 15) & 0xefc60000);
        y3 ^ (y3 >> 18)
    }

    fn next_u64(&mut self) -> (r: u64) {
        let hi = self.next_u32();
        let lo = self.next_u32();
        ((hi as u64) << 32) | (lo as u64)
    }

    fn entropy_u32(&self) -> (r: usize) {
        4
    }

    fn entropy_u64(&self) -> (r: usize) {
        8
    }
}

impl MT19937 {
    /// Recompute the whole batch: the twist step, after which the cursor
    /// rests at the start of the fresh block.
    fn generate_numbers(&mut self)
        requires
            old(self).wf(),
        ensures
            final(self).state@ == mt32_twist(old(self).state@),
            final(self).index == 0,
            final(self).wf(),
    {
        let s0 = Ghost(self.state@);
        let mut i: usize = 0;
        while i < MT_N
            invariant
                i <= MT_N,
                self.state.len() == MT_N,
                self.state@ == mt32_twist_upto(s0@, i as nat),
            decreases MT_N - i,
        {
            let i1 = if i == MT_N - 1 {
                0
            } else {
                i + 1
            };
            let im = if i < MT_N - MT_M {
                i + MT_M
            } else {
                i - (MT_N - MT_M)
            };
            let y = (self.state[i] & 0x8000_0000) | (self.state[i1] & 0x7fff_ffff);
            let v = self.state[im] ^ (y >> 1) ^ (if y & 1 == 1 {
                MT_A
            } else {
                0
            });
            self.state.set(i, v);
            i = i + 1;
        }
        self.index = 0;
    }

    /// Expand a scalar seed into a full state by the standard MT
    /// recurrence; the cursor is left at the end so the first draw
    /// twists.
    fn expand_scalar(seed: u32) -> (r: MT19937)
        ensures
            r@ == mt32_from_scalar(seed),
            r.wf(),
    {
        let mut state: Vec<u32> = Vec::new();
        state.push(seed);
        while state.len() < MT_N
            invariant
                1 <= state.len() <= MT_N,
                state@ == mt32_seed_upto(seed, state.len() as nat),
            decreases MT_N - state.len(),
        {
            let k = state.len();
            let prev = state[k - 1];
            let w = 1812433253u32.wrapping_mul(prev ^ (prev >> 30)).wrapping_add(k as u32);
            state.push(w);
        }
        MT19937 { state, index: MT_N }
    }

    /// Fold a seed sequence into the state, per the reference MT seeding
    /// algorithm (both mixing passes wrap the state index cyclically and
    /// the key index modulo the key length).
    fn expand_key(key: &Vec<u32>) -> (r: MT19937)
        requires
            1 <= key.len() <= 0xFFFF_FFFF,
        ensures
            r@ == mt32_from_key(key@),
            r.wf(),
    {
        let mut r = MT19937::expand_scalar(19650218);
        let lim: usize = if key.len() > MT_N {
            key.len()
        } else {
            MT_N
        };
        let s1 = Ghost(r.state@);
        let mut i: usize = 1;
        let mut j: usize = 0;
        let mut k: usize = 0;
        while k < lim
            invariant
                k <= lim,
                lim >= MT_N,
                lim == (if key.len() > MT_N {
                    key.len()
                } else {
                    MT_N
                }),
                1 <= key.len() <= 0xFFFF_FFFF,
                r.state.len() == MT_N,
                1 <= i < MT_N,
                j < key.len(),
                (r.state@, i as nat, j as nat) == mt32_mix_a_upto(key@, s1@, k as nat),
            decreases lim - k,
        {
            let prev = r.state[i - 1];
            let v = (r.state[i] ^ ((prev ^ (prev >> 30)).wrapping_mul(1664525))).wrapping_add(
                key[j],
            ).wrapping_add(j as u32);
            r.state.set(i, v);
            i = i + 1;
            j = j + 1;
            if i >= MT_N {
                let last = r.state[MT_N - 1];
                r.state.set(0, last);
                i = 1;
            }
            if j >= key.len() {
                j = 0;
            }
            k = k + 1;
        }
        let s2 = Ghost(r.state@);
        let i2 = Ghost(i as nat);
        let mut k: usize = 0;
        while k < MT_N - 1
            invariant
                k <= MT_N - 1,
                r.state.len() == MT_N,
                1 <= i < MT_N,
                (r.state@, i as nat) == mt32_mix_b_upto(s2@, i2@, k as nat),
            decreases MT_N - 1 - k,
        {
            let prev = r.state[i - 1];
            let v = (r.state[i] ^ ((prev ^ (prev >> 30)).wrapping_mul(1566083941))).wrapping_sub(
                i as u32,
            );
            r.state.set(i, v);
            i = i + 1;
            if i >= MT_N {
                let last = r.state[MT_N - 1];
                r.state.set(0, last);
                i = 1;
            }
            k = k + 1;
        }
        r.state.set(0, 0x8000_0000);
        r.index = MT_N;
        r
    }
}

impl SeedableRng<u32> for MT19937 {
    open spec fn seed_ok(seed: u32) -> bool {
        true
    }

    open spec fn sp_from_seed(seed: u32) -> Mt32V {
        mt32_from_scalar(seed)
    }

    open spec fn sp_reseed(m: Mt32V, seed: u32) -> Mt32V {
        mt32_from_scalar(seed)
    }

    fn reseed(&mut self, seed: u32) {
        *self = MT19937::expand_scalar(seed);
    }

    fn from_seed(seed: u32) -> (r: Self) {
        MT19937::expand_scalar(seed)
    }

    proof fn from_seed_is_new_reseed(seed: u32) {
    }
}

impl SeedableRng<Vec<u32>> for MT19937 {
    /// The key must be nonempty (the reference algorithm reads its first
    /// word unconditionally) and short enough for its indices to fit in
    /// 32 bits.
    open spec fn seed_ok(seed: Vec<u32>) -> bool {
        1 <= seed@.len() <= 0xFFFF_FFFF
    }

    open spec fn sp_from_seed(seed: Vec<u32>) -> Mt32V {
        mt32_from_key(seed@)
    }

    open spec fn sp_reseed(m: Mt32V, seed: Vec<u32>) -> Mt32V {
        mt32_from_key(seed@)
    }

    fn reseed(&mut self, seed: Vec<u32>) {
        *self = MT19937::expand_key(&seed);
    }

    fn from_seed(seed: Vec<u32>) -> (r: Self) {
        MT19937::expand_key(&seed)
    }

    proof fn from_seed_is_new_reseed(seed: Vec<u32>) {
    }
}

/// The MT19937-64 state length.
pub const MT64_N: usize = 312;

/// The MT19937-64 middle offset.
pub const MT64_M: usize = 156;

/// The MT19937-64 twist-matrix constant.
pub const MT64_A: u64 = 0xB5026F5AA96619E9;

/// A 64-bit Mersenne Twister (MT19937-64): a 312-word state array plus a
/// cursor.
#[allow(non_camel_case_types)]
pub struct MT19937_64 {
    pub state: Vec<u64>,
    pub index: usize,
}

/// The model of an `MT19937_64` state.
pub struct Mt64V {
    pub state: Seq<u64>,
    pub index: usize,
}

impl View for MT19937_64 {
    type V = Mt64V;

    open spec fn view(&self) -> Mt64V {
        Mt64V { state: self.state@, index: self.index }
    }
}

/// The 64-bit twist recurrence for one word.
pub open spec fn mt64_twist_word(s: Seq<u64>, i: int) -> u64 {
    let i1 = if i == MT64_N - 1 {
        0
    } else {
        i + 1
    };
    let im = if i < MT64_N - MT64_M {
        i + MT64_M
    } else {
        i - (MT64_N - MT64_M)
    };
    let x = (s[i] & 0xffff_ffff_8000_0000) | (s[i1] & 0x7fff_ffff);
    s[im] ^ (x >> 1) ^ (if x & 1 == 1 {
        MT64_A
    } else {
        0
    })
}

/// The state after the first `k` words of a 64-bit twist.
pub open spec fn mt64_twist_upto(s: Seq<u64>, k: nat) -> Seq<u64>
    decreases k,
{
    if k == 0 {
        s
    } else {
        let p = mt64_twist_upto(s, (k - 1) as nat);
        p.update(k - 1, mt64_twist_word(p, k - 1))
    }
}

/// A full 64-bit twist: all 312 words recomputed.
pub open spec fn mt64_twist(s: Seq<u64>) -> Seq<u64> {
    mt64_twist_upto(s, MT64_N as nat)
}

/// The MT19937-64 tempering transform.
pub open spec fn mt64_temper(x0: u64) -> u64 {
    let x1 = x0 ^ ((x0 >> 29) & 0x5555555555555555);
    let x2 = x1 ^ ((x1 << 17) & 0x71D67FFFEDA60000);
    let x3 = x2 ^ ((x2 << 37) & 0xFFF7EEE000000000);
    x3 ^ (x3 >> 43)
}

/// One MT19937-64 output step.
pub open spec fn mt64_step(m: Mt64V) -> (Mt64V, u64) {
    let st = if m.index >= MT64_N {
        mt64_twist(m.state)
    } else {
        m.state
    };
    let idx: usize = if m.index >= MT64_N {
        0
    } else {
        m.index
    };
    (Mt64V { state: st, index: (idx + 1) as usize }, mt64_temper(st[idx as int]))
}

/// The first `k` words of the state expanded from a scalar seed by
/// `state[i] = 6364136223846793005 * (state[i-1] ^ (state[i-1] >> 62)) + i`.
pub open spec fn mt64_seed_upto(seed: u64, k: nat) -> Seq<u64>
    decreases k,
{
    if k <= 1 {
        seq![seed]
    } else {
        let p = mt64_seed_upto(seed, (k - 1) as nat);
        let prev = p[k - 2];
        p.push(
            6364136223846793005u64.wrapping_mul(prev ^ (prev >> 62)).wrapping_add((k - 1) as u64),
        )
    }
}

/// The model determined by a scalar seed.
pub open spec fn mt64_from_scalar(seed: u64) -> Mt64V {
    Mt64V { state: mt64_seed_upto(seed, MT64_N as nat), index: MT64_N as usize }
}

/// One step of the first 64-bit key-mixing pass.
pub open spec fn mt64_mix_a_step(key: Seq<u64>, s: Seq<u64>, i: nat, j: nat) -> (
    Seq<u64>,
    nat,
    nat,
) {
    let v = (s[i as int] ^ ((s[i as int - 1] ^ (s[i as int - 1] >> 62)).wrapping_mul(
        3935559000370003845,
    ))).wrapping_add(key[j as int]).wrapping_add(j as u64);
    let s2 = s.update(i as int, v);
    let (s3, i3) = if i + 1 >= MT64_N {
        (s2.update(0, s2[MT64_N - 1]), 1nat)
    } else {
        (s2, i + 1)
    };
    let j3: nat = if j + 1 >= key.len() {
        0
    } else {
        j + 1
    };
    (s3, i3, j3)
}

/// The state and cursors after `k` steps of the first 64-bit mixing pass.
pub open spec fn mt64_mix_a_upto(key: Seq<u64>, s0: Seq<u64>, k: nat) -> (Seq<u64>, nat, nat)
    decreases k,
{
    if k == 0 {
        (s0, 1nat, 0nat)
    } else {
        let (s, i, j) = mt64_mix_a_upto(key, s0, (k - 1) as nat);
        mt64_mix_a_step(key, s, i, j)
    }
}

/// One step of the second 64-bit mixing pass.
pub open spec fn mt64_mix_b_step(s: Seq<u64>, i: nat) -> (Seq<u64>, nat) {
    let v = (s[i as int] ^ ((s[i as int - 1] ^ (s[i as int - 1] >> 62)).wrapping_mul(
        2862933555777941757,
    ))).wrapping_sub(i as u64);
    let s2 = s.update(i as int, v);
    if i + 1 >= MT64_N {
        (s2.update(0, s2[MT64_N - 1]), 1nat)
    } else {
        (s2, i + 1)
    }
}

/// The state and cursor after `k` steps of the second 64-bit mixing pass.
pub open spec fn mt64_mix_b_upto(s0: Seq<u64>, i0: nat, k: nat) -> (Seq<u64>, nat)
    decreases k,
{
    if k == 0 {
        (s0, i0)
    } else {
        let (s, i) = mt64_mix_b_upto(s0, i0, (k - 1) as nat);
        mt64_mix_b_step(s, i)
    }
}

/// The model determined by a 64-bit seed sequence, per the reference
/// seeding algorithm.
pub open spec fn mt64_from_key(key: Seq<u64>) -> Mt64V {
    let base = mt64_seed_upto(19650218, MT64_N as nat);
    let lim: nat = if key.len() > MT64_N {
        key.len()
    } else {
        MT64_N as nat
    };
    let (s1, i1, j1) = mt64_mix_a_upto(key, base, lim);
    let (s2, i2) = mt64_mix_b_upto(s1, i1, (MT64_N - 1) as nat);
    Mt64V { state: s2.update(0, 0x8000000000000000), index: MT64_N as usize }
}

impl Rng for MT19937_64 {
    open spec fn wf(&self) -> bool {
        self.state.len() == MT64_N && self.index <= MT64_N
    }

    open spec fn sp_new() -> Mt64V {
        mt64_from_scalar(5489)
    }

    open spec fn sp_next64(m: Mt64V) -> (Mt64V, u64) {
        mt64_step(m)
    }

    open spec fn sp_next32(m: Mt64V) -> (Mt64V, u32) {
        let (m1, x) = Self::sp_next64(m);
        (m1, (x & 0xFFFF_FFFF) as u32)
    }

    open spec fn sp_entropy32(m: Mt64V) -> usize {
        8
    }

    open spec fn sp_entropy64(m: Mt64V) -> usize {
        8
    }

    /// The default state is the one the reference algorithm derives from
    /// the scalar seed 5489.
    fn new() -> (r: Self) {
        MT19937_64::expand_scalar(5489)
    }

    fn next_u32(&mut self) -> (r: u32) {
        let x = self.next_u64();
        (x & 0xFFFF_FFFF) as u32
    }

    fn next_u64(&mut self) -> (r: u64) {
        if self.index >= MT64_N {
            self.generate_numbers();
        }
        let x0 = self.state[self.index];
        self.index = self.index + 1;
        let x1 = x0 ^ ((x0 >> 29) & 0x5555555555555555);
        let x2 = x1 ^ ((x1 << 17) & 0x71D67FFFEDA60000);
        let x3 = x2 ^ ((x2 << 37) & 0xFFF7EEE000000000);
        x3 ^ (x3 >> 43)
    }

    fn entropy_u32(&self) -> (r: usize) {
        8
    }

    fn entropy_u64(&self) -> (r: usize) {
        8
    }
}

impl MT19937_64 {
    /// Recompute the whole batch by the 64-bit twist step.
    fn generate_numbers(&mut self)
        requires
            old(self).wf(),
        ensures
            final(self).state@ == mt64_twist(old(self).state@),
            final(self).index == 0,
            final(self).wf(),
    {
        let s0 = Ghost(self.state@);
        let mut i: usize = 0;
        while i < MT64_N
            invariant
                i <= MT64_N,
                self.state.len() == MT64_N,
                self.state@ == mt64_twist_upto(s0@, i as nat),
            decreases MT64_N - i,
        {
            let i1 = if i == MT64_N - 1 {
                0
            } else {
                i + 1
            };
            let im = if i < MT64_N - MT64_M {
                i + MT64_M
            } else {
                i - (MT64_N - MT64_M)
            };
            let x = (self.state[i] & 0xffff_ffff_8000_0000) | (self.state[i1] & 0x7fff_ffff);
            let v = self.state[im] ^ (x >> 1) ^ (if x & 1 == 1 {
                MT64_A
            } else {
                0
            });
            self.state.set(i, v);
            i = i + 1;
        }
        self.index = 0;
    }

    /// Expand a scalar seed into a full state by the standard recurrence.
    fn expand_scalar(seed: u64) -> (r: MT19937_64)
        ensures
            r@ == mt64_from_scalar(seed),
            r.wf(),
    {
        let mut state: Vec<u64> = Vec::new();
        state.push(seed);
        while state.len() < MT64_N
            invariant
                1 <= state.len() <= MT64_N,
                state@ == mt64_seed_upto(seed, state.len() as nat),
            decreases MT64_N - state.len(),
        {
            let k = state.len();
            let prev = state[k - 1];
            let w = 6364136223846793005u64.wrapping_mul(prev ^ (prev >> 62)).wrapping_add(k as u64);
            state.push(w);
        }
        MT19937_64 { state, index: MT64_N }
    }

    /// Fold a seed sequence into the state, per the reference seeding
    /// algorithm.
    fn expand_key(key: &Vec<u64>) -> (r: MT19937_64)
        requires
            1 <= key.len() <= 0xFFFF_FFFF,
        ensures
            r@ == mt64_from_key(key@),
            r.wf(),
    {
        let mut r = MT19937_64::expand_scalar(19650218);
        let lim: usize = if key.len() > MT64_N {
            key.len()
        } else {
            MT64_N
        };
        let s1 = Ghost(r.state@);
        let mut i: usize = 1;
        let mut j: usize = 0;
        let mut k: usize = 0;
        while k < lim
            invariant
                k <= lim,
                lim >= MT64_N,
                lim == (if key.len() > MT64_N {
                    key.len()
                } else {
                    MT64_N
                }),
                1 <= key.len() <= 0xFFFF_FFFF,
                r.state.len() == MT64_N,
                1 <= i < MT64_N,
                j < key.len(),
                (r.state@, i as nat, j as nat) == mt64_mix_a_upto(key@, s1@, k as nat),
            decreases lim - k,
        {
            let prev = r.state[i - 1];
            let v = (r.state[i] ^ ((prev ^ (prev >> 62)).wrapping_mul(
                3935559000370003845,
            ))).wrapping_add(key[j]).wrapping_add(j as u64);
            r.state.set(i, v);
            i = i + 1;
            j = j + 1;
            if i >= MT64_N {
                let last = r.state[MT64_N - 1];
                r.state.set(0, last);
                i = 1;
            }
            if j >= key.len() {
                j = 0;
            }
            k = k + 1;
        }
        let s2 = Ghost(r.state@);
        let i2 = Ghost(i as nat);
        let mut k: usize = 0;
        while k < MT64_N - 1
            invariant
                k <= MT64_N - 1,
                r.state.len() == MT64_N,
                1 <= i < MT64_N,
                (r.state@, i as nat) == mt64_mix_b_upto(s2@, i2@, k as nat),
            decreases MT64_N - 1 - k,
        {
            let prev = r.state[i - 1];
            let v = (r.state[i] ^ ((prev ^ (prev >> 62)).wrapping_mul(
                2862933555777941757,
            ))).wrapping_sub(i as u64);
            r.state.set(i, v);
            i = i + 1;
            if i >= MT64_N {
                let last = r.state[MT64_N - 1];
                r.state.set(0, last);
                i = 1;
            }
            k = k + 1;
        }
        r.state.set(0, 0x8000000000000000);
        r.index = MT64_N;
        r
    }
}

impl SeedableRng<u64> for MT19937_64 {
    open spec fn seed_ok(seed: u64) -> bool {
        true
    }

    open spec fn sp_from_seed(seed: u64) -> Mt64V {
        mt64_from_scalar(seed)
    }

    open spec fn sp_reseed(m: Mt64V, seed: u64) -> Mt64V {
        mt64_from_scalar(seed)
    }

    fn reseed(&mut self, seed: u64) {
        *self = MT19937_64::expand_scalar(seed);
    }

    fn from_seed(seed: u64) -> (r: Self) {
        MT19937_64::expand_scalar(seed)
    }

    proof fn from_seed_is_new_reseed(seed: u64) {
    }
}

impl SeedableRng<Vec<u64>> for MT19937_64 {
    /// The key must be nonempty (the reference algorithm reads its first
    /// word unconditionally) and short enough for its indices to fit in
    /// 32 bits.
    open spec fn seed_ok(seed: Vec<u64>) -> bool {
        1 <= seed@.len() <= 0xFFFF_FFFF
    }

    open spec fn sp_from_seed(seed: Vec<u64>) -> Mt64V {
        mt64_from_key(seed@)
    }

    open spec fn sp_reseed(m: Mt64V, seed: Vec<u64>) -> Mt64V {
        mt64_from_key(seed@)
    }

    fn reseed(&mut self, seed: Vec<u64>) {
        *self = MT19937_64::expand_key(&seed);
    }

    fn from_seed(seed: Vec<u64>) -> (r: Self) {
        MT19937_64::expand_key(&seed)
    }

    proof fn from_seed_is_new_reseed(seed: Vec<u64>) {
    }
}

/// The WELL512 state length.
pub const WELL512_N: usize = 16;

/// A WELL512 generator: a 16-word ring and a cursor.
pub struct WELL512 {
    pub state: Vec<u32>,
    pub index: usize,
}

/// The model of a `WELL512` state.
pub struct Well512V {
    pub state: Seq<u32>,
    pub index: usize,
}

impl View for WELL512 {
    type V = Well512V;

    open spec fn view(&self) -> Well512V {
        Well512V { state: self.state@, index: self.index }
    }
}

/// One WELL512 step: a fixed sequence of XOR and shift combinations over
/// four ring positions (`index`, `index+13`, `index+9`, `index+15`,
/// modulo 16); two ring words are rewritten, the cursor steps back by one
/// (modulo 16), and the word written there is the output.
pub open spec fn well512_step(s: Well512V) -> (Well512V, u32) {
    let idx = s.index;
    let a0 = s.state[idx as int];
    let c0 = s.state[((idx + 13) % 16) as int];
    let b = a0 ^ c0 ^ (a0 << 16) ^ (c0 << 15);
    let c1 = s.state[((idx + 9) % 16) as int];
    let c2 = c1 ^ (c1 >> 11);
    let a1 = b ^ c2;
    let st1 = s.state.update(idx as int, a1);
    let d = a1 ^ ((a1 << 5) & 0xDA442D24);
    let idx2 = ((idx + 15) % 16) as usize;
    let a2 = st1[idx2 as int];
    let val = a2 ^ b ^ d ^ (a2 << 2) ^ (b << 18) ^ (c2 << 28);
    (Well512V { state: st1.update(idx2 as int, val), index: idx2 }, val)
}

/// The WELL512 state a seed sequence determines: seed words are copied
/// into the ring, a short seed is zero-padded, extra words are ignored,
/// and the cursor is reset.
pub open spec fn well512_seed_state(seed: Seq<u32>) -> Seq<u32> {
    Seq::new(WELL512_N as nat, |i: int| if i < seed.len() { seed[i] } else { 0u32 })
}

impl Rng for WELL512 {
    open spec fn wf(&self) -> bool {
        self.state.len() == WELL512_N && self.index < WELL512_N
    }

    open spec fn sp_new() -> Well512V {
        Well512V {
            state: Seq::new(
                WELL512_N as nat,
                |i: int| (((i + 1) * 0x9E3779B9) % 0x1_0000_0000) as u32,
            ),
            index: 0,
        }
    }

    open spec fn sp_next32(m: Well512V) -> (Well512V, u32) {
        well512_step(m)
    }

    open spec fn sp_next64(m: Well512V) -> (Well512V, u64) {
        let (m1, hi) = Self::sp_next32(m);
        let (m2, lo) = Self::sp_next32(m1);
        (m2, ((hi as u64) << 32) | (lo as u64))
    }

    open spec fn sp_entropy32(m: Well512V) -> usize {
        4
    }

    open spec fn sp_entropy64(m: Well512V) -> usize {
        8
    }

    /// The default ring holds nonzero multiples of the golden-ratio
    /// constant, so the generator does not start in the degenerate
    /// all-zero state.
    fn new() -> (r: Self) {
        let mut state: Vec<u32> = Vec::new();
        while state.len() < WELL512_N
            invariant
                state.len() <= WELL512_N,
                state@ == Seq::new(
                    state.len() as nat,
                    |i: int| (((i + 1) * 0x9E3779B9) % 0x1_0000_0000) as u32,
                ),
            decreases WELL512_N - state.len(),
        {
            let k = state.len() as u32;
            let w = (k + 1).wrapping_mul(0x9E3779B9);
            proof {
                lemma_mul_mod_u32(k as int + 1);
            }
            state.push(w);
        }
        assert(state@ =~= <WELL512 as Rng>::sp_new().state);
        WELL512 { state, index: 0 }
    }

    fn next_u32(&mut self) -> (r: u32) {
        let idx = self.index;
        let a0 = self.state[idx];
        let c0 = self.state[(idx + 13) % 16];
        let b = a0 ^ c0 ^ (a0 << 16) ^ (c0 << 15);
        let c1 = self.state[(idx + 9) % 16];
        let c2 = c1 ^ (c1 >> 11);
        let a1 = b ^ c2;
        self.state.set(idx, a1);
        let d = a1 ^ ((a1 << 5) & 0xDA442D24);
        let idx2 = (idx + 15) % 16;
        let a2 = self.state[idx2];
        let val = a2 ^ b ^ d ^ (a2 << 2) ^ (b << 18) ^ (c2 << 28);
        self.state.set(idx2, val);
        self.index = idx2;
        val
    }

    fn next_u64(&mut self) -> (r: u64) {
        let hi = self.next_u32();
        let lo = self.next_u32();
        ((hi as u64) << 32) | (lo as u64)
    }

    fn entropy_u32(&self) -> (r: usize) {
        4
    }

    fn entropy_u64(&self) -> (r: usize) {
        8
    }
}

/// The product of a small positive factor with the golden-ratio constant,
/// reduced modulo `2^32`, is what `wrapping_mul` computes.
proof fn lemma_mul_mod_u32(k: int)
    requires
        1 <= k <= 16,
    ensures
        (k as u32).wrapping_mul(0x9E3779B9) == ((k * 0x9E3779B9) % 0x1_0000_0000) as u32,
{
}

impl SeedableRng<Vec<u32>> for WELL512 {
    open spec fn seed_ok(seed: Vec<u32>) -> bool {
        true
    }

    open spec fn sp_from_seed(seed: Vec<u32>) -> Well512V {
        Well512V { state: well512_seed_state(seed@), index: 0 }
    }

    open spec fn sp_reseed(m: Well512V, seed: Vec<u32>) -> Well512V {
        Well512V { state: well512_seed_state(seed@), index: 0 }
    }

    fn reseed(&mut self, seed: Vec<u32>) {
        *self = <WELL512 as SeedableRng<Vec<u32>>>::from_seed(seed);
    }

    fn from_seed(seed: Vec<u32>) -> (r: Self) {
        let mut state: Vec<u32> = Vec::new();
        while state.len() < WELL512_N
            invariant
                state.len() <= WELL512_N,
                state@ == well512_seed_state(seed@).take(state.len() as int),
            decreases WELL512_N - state.len(),
        {
            let k = state.len();
            let w = if k < seed.len() {
                seed[k]
            } else {
                0
            };
            state.push(w);
        }
        assert(state@ =~= well512_seed_state(seed@));
        WELL512 { state, index: 0 }
    }

    proof fn from_seed_is_new_reseed(seed: Vec<u32>) {
    }
}

/// Seed-length tolerance for WELL512: seeding with any sequence gives the
/// same generator as seeding with that sequence cut or zero-padded to the
/// state length.
pub proof fn lemma_well512_seed_padding(seed: Seq<u32>, padded: Seq<u32>)
    requires
        padded.len() == WELL512_N,
        forall|i: int|
            0 <= i < WELL512_N ==> padded[i] == (if i < seed.len() {
                seed[i]
            } else {
                0u32
            }),
    ensures
        well512_seed_state(seed) == well512_seed_state(padded),
{
    assert(well512_seed_state(seed) =~= well512_seed_state(padded));
}


} // verus!
