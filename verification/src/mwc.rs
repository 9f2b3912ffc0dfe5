//! Multiply-with-carry generators: CMWC with a 4096-word ring and MWC256
//! with a 256-word ring.

use vstd::prelude::*;
use vstd::arithmetic::mul::lemma_mul_inequality;
use vstd::pervasive::VecAdditionalExecFns;
use crate::Rng;

verus! {

/// The golden-ratio constant used to fill the CMWC ring.
pub const CMWC_PHI: u32 = 0x9e3779b9;

/// The CMWC ring length.
pub const CMWC_N: usize = 4096;

/// The CMWC multiplier.
pub const CMWC_A: u64 = 18782;

/// A complementary multiply-with-carry generator over a 4096-word ring.
pub struct CMWC {
    pub q: Vec<u32>,
    pub c: u32,
    pub i: usize,
}

/// The model of a `CMWC` state: ring contents, carry, and cursor.
pub struct CmwcV {
    pub q: Seq<u32>,
    pub c: u32,
    pub i: usize,
}

impl View for CMWC {
    type V = CmwcV;

    open spec fn view(&self) -> CmwcV {
        CmwcV { q: self.q@, c: self.c, i: self.i }
    }
}

/// The first `n` words of the CMWC ring in its default state: three fixed
/// words derived from the golden ratio, then each word the XOR of the two
/// before it.
pub open spec fn cmwc_seed_q(n: nat) -> Seq<u32>
    decreases n,
{
    if n <= 3 {
        seq![1u32, 1u32.wrapping_add(CMWC_PHI), 1u32.wrapping_add(CMWC_PHI.wrapping_mul(2))].take(
            n as int,
        )
    } else {
        let prev = cmwc_seed_q((n - 1) as nat);
        prev.push(prev[n - 2] ^ prev[n - 3])
    }
}

/// One CMWC step: advance the ring cursor, update the carry from the high
/// bits of `18782 * q[i] + c`, and fold the complemented low bits back
/// into the ring; the folded word is the output.
pub open spec fn cmwc_step(s: CmwcV) -> (CmwcV, u32) {
    let i2: usize = if s.i + 1 == CMWC_N {
        0
    } else {
        (s.i + 1) as usize
    };
    let t: u64 = (CMWC_A * s.q[i2 as int] + s.c) as u64;
    let c2: u32 = (t >> 32) as u32;
    let x0: u32 = ((t & 0xFFFF_FFFF) as u32).wrapping_add(c2);
    let x: u32 = if x0 < c2 {
        x0.wrapping_add(1)
    } else {
        x0
    };
    let c3: u32 = if x0 < c2 {
        c2.wrapping_add(1)
    } else {
        c2
    };
    let out: u32 = 0xffff_fffeu32.wrapping_sub(x);
    (CmwcV { q: s.q.update(i2 as int, out), c: c3, i: i2 }, out)
}

impl Rng for CMWC {
    open spec fn wf(&self) -> bool {
        self.q.len() == CMWC_N && self.i < CMWC_N
    }

    open spec fn sp_new() -> CmwcV {
        CmwcV { q: cmwc_seed_q(CMWC_N as nat), c: 362436, i: (CMWC_N - 1) as usize }
    }

    open spec fn sp_next32(m: CmwcV) -> (CmwcV, u32) {
        cmwc_step(m)
    }

    open spec fn sp_next64(m: CmwcV) -> (CmwcV, u64) {
        let (m1, hi) = Self::sp_next32(m);
        let (m2, lo) = Self::sp_next32(m1);
        (m2, ((hi as u64) << 32) | (lo as u64))
    }

    open spec fn sp_entropy32(m: CmwcV) -> usize {
        4
    }

    open spec fn sp_entropy64(m: CmwcV) -> usize {
        8
    }

    fn new() -> (r: Self) {
        CMWC::new()
    }

    fn next_u32(&mut self) -> (r: u32) {
        let i2: usize = if self.i + 1 == CMWC_N {
            0
        } else {
            self.i + 1
        };
        let qi = self.q[i2];
        proof {
            lemma_mul_inequality(qi as int, 0xFFFF_FFFF, CMWC_A as int);
        }
        let t: u64 = CMWC_A * (qi as u64) + (self.c as u64);
        proof {
            lemma_shr32_bound(t);
            lemma_mask32_bound(t);
        }
        let c2: u32 = (t >> 32) as u32;
        let x0: u32 = ((t & 0xFFFF_FFFF) as u32).wrapping_add(c2);
        let x: u32;
        let c3: u32;
        if x0 < c2 {
            x = x0.wrapping_add(1);
            c3 = c2.wrapping_add(1);
        } else {
            x = x0;
            c3 = c2;
        }
        let out: u32 = 0xffff_fffeu32.wrapping_sub(x);
        self.q.set(i2, out);
        self.c = c3;
        self.i = i2;
        out
    }

    fn next_u64(&mut self) -> (r: u64) {
        let hi = self.next_u32();
        let lo = self.next_u32();
        ((hi as u64) << 32) | (lo as u64)
    }

    fn entropy_u32(&self) -> (r: usize) {
        4
    }

    fn entropy_u64(&self) -> (r: usize) {
        8
    }
}

impl CMWC {
    /// Create a CMWC generator in its default state: the ring holds three
    /// fixed golden-ratio words followed by the XOR recurrence, the carry
    /// is 362436, and the cursor sits at the last slot.
    pub fn new() -> (r: CMWC)
        ensures
            r@ == <CMWC as Rng>::sp_new(),
            r.wf(),
    {
        let mut q: Vec<u32> = Vec::new();
        q.push(1);
        q.push(1u32.wrapping_add(CMWC_PHI));
        q.push(1u32.wrapping_add(CMWC_PHI.wrapping_mul(2)));
        assert(q@ =~= cmwc_seed_q(3));
        while q.len() < CMWC_N
            invariant
                3 <= q.len() <= CMWC_N,
                q@ == cmwc_seed_q(q.len() as nat),
            decreases CMWC_N - q.len(),
        {
            let n = q.len();
            let w = q[n - 1] ^ q[n - 2];
            q.push(w);
        }
        CMWC { q, c: 362436, i: CMWC_N - 1 }
    }
}

/// `x >> 32` always fits in 32 bits for a 64-bit `x`.
proof fn lemma_shr32_bound(x: u64)
    ensures
        x >> 32 <= 0xFFFF_FFFF,
{
    assert(x >> 32 <= 0xFFFF_FFFF) by (bit_vector);
}

/// The low 32 bits of a 64-bit word fit in 32 bits.
proof fn lemma_mask32_bound(x: u64)
    ensures
        x & 0xFFFF_FFFF <= 0xFFFF_FFFF,
{
    assert(x & 0xFFFF_FFFF <= 0xFFFF_FFFF) by (bit_vector);
}

/// The MWC256 ring length.
pub const MWC256_N: usize = 256;

/// The MWC256 multiplier.
pub const MWC256_A: u64 = 809430660;

/// A multiply-with-carry generator over a 256-word ring: the carry is
/// updated from the high bits of `809430660 * q[i] + c` and the low bits
/// are emitted directly.
pub struct MWC256 {
    pub q: Vec<u32>,
    pub c: u32,
    pub i: u8,
}

/// The model of an `MWC256` state: ring contents, carry, and cursor.
pub struct Mwc256V {
    pub q: Seq<u32>,
    pub c: u32,
    pub i: u8,
}

impl View for MWC256 {
    type V = Mwc256V;

    open spec fn view(&self) -> Mwc256V {
        Mwc256V { q: self.q@, c: self.c, i: self.i }
    }
}

/// One MWC256 step.
pub open spec fn mwc256_step(s: Mwc256V) -> (Mwc256V, u32) {
    let i2: u8 = s.i.wrapping_add(1);
    let t: u64 = (MWC256_A * s.q[i2 as int] + s.c) as u64;
    let c2: u32 = (t >> 32) as u32;
    let out: u32 = (t & 0xFFFF_FFFF) as u32;
    (Mwc256V { q: s.q, c: c2, i: i2 }, out)
}

impl Rng for MWC256 {
    open spec fn wf(&self) -> bool {
        self.q.len() == MWC256_N
    }

    open spec fn sp_new() -> Mwc256V {
        Mwc256V { q: Seq::new(MWC256_N as nat, |i: int| 1u32), c: 362436, i: 255 }
    }

    open spec fn sp_next32(m: Mwc256V) -> (Mwc256V, u32) {
        mwc256_step(m)
    }

    open spec fn sp_next64(m: Mwc256V) -> (Mwc256V, u64) {
        let (m1, hi) = Self::sp_next32(m);
        let (m2, lo) = Self::sp_next32(m1);
        (m2, ((hi as u64) << 32) | (lo as u64))
    }

    open spec fn sp_entropy32(m: Mwc256V) -> usize {
        4
    }

    open spec fn sp_entropy64(m: Mwc256V) -> usize {
        8
    }

    fn new() -> (r: Self) {
        MWC256::new()
    }

    fn next_u32(&mut self) -> (r: u32) {
        let i2: u8 = self.i.wrapping_add(1);
        let qi = self.q[i2 as usize];
        proof {
            lemma_mul_inequality(qi as int, 0xFFFF_FFFF, MWC256_A as int);
        }
        let t: u64 = MWC256_A * (qi as u64) + (self.c as u64);
        proof {
            lemma_shr32_bound(t);
            lemma_mask32_bound(t);
        }
        self.c = (t >> 32) as u32;
        self.i = i2;
        (t & 0xFFFF_FFFF) as u32
    }

    fn next_u64(&mut self) -> (r: u64) {
        let hi = self.next_u32();
        let lo = self.next_u32();
        ((hi as u64) << 32) | (lo as u64)
    }

    fn entropy_u32(&self) -> (r: usize) {
        4
    }

    fn entropy_u64(&self) -> (r: usize) {
        8
    }
}

impl MWC256 {
    /// Create an MWC256 generator in its default state: every ring word 1,
    /// carry 362436, cursor at the last slot.
    pub fn new() -> (r: MWC256)
        ensures
            r@ == <MWC256 as Rng>::sp_new(),
            r.wf(),
    {
        let mut q: Vec<u32> = Vec::new();
        while q.len() < MWC256_N
            invariant
                q.len() <= MWC256_N,
                q@ == Seq::new(q.len() as nat, |i: int| 1u32),
            decreases MWC256_N - q.len(),
        {
            q.push(1);
        }
        assert(q@ =~= Seq::new(MWC256_N as nat, |i: int| 1u32));
        MWC256 { q, c: 362436, i: 255 }
    }
}

} // verus!
