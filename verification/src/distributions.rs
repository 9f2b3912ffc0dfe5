//! Sampling combinators over the generator abstraction: a range
//! distribution, and joint and list combinators built from it.
//!
//! The continuous distributions (normal and exponential, via the
//! Ziggurat method) work in floating point, which the verifier does not
//! accept; they live with the unverified shell around this library.

use vstd::prelude::*;
use crate::Rng;
use crate::derived::sp_gen_range;
use crate::derived::gen_integer_range;
use crate::derived::MAX_RANGE_DRAWS;

verus! {

/// The uniform distribution over `[low, low + range)`.
pub struct RangeDist {
    pub low: u64,
    pub range: u64,
}

impl RangeDist {
    /// The range must be nonempty and must not wrap past the largest
    /// representable value.
    pub open spec fn sample_ok(&self) -> bool {
        self.range > 0 && self.low + self.range <= u64::MAX
    }

    /// The successor generator model and the value sampled.
    pub open spec fn sp_sample<R: Rng>(&self, m: R::V) -> (R::V, u64) {
        sp_gen_range::<R>(m, self.low, (self.low + self.range) as u64, MAX_RANGE_DRAWS as nat)
    }

    /// Sample one value, uniform over the range.
    pub fn sample<R: Rng>(&self, rng: &mut R) -> (s: u64)
        requires
            self.sample_ok(),
            old(rng).wf(),
        ensures
            (final(rng)@, s) == self.sp_sample::<R>(old(rng)@),
            self.low <= s < self.low + self.range,
            final(rng).wf(),
    {
        proof {
            crate::derived::lemma_gen_range_bounds::<R>(
                old(rng)@,
                self.low,
                (self.low + self.range) as u64,
                MAX_RANGE_DRAWS as nat,
            );
        }
        gen_integer_range(rng, self.low, self.low + self.range)
    }
}

/// The joint distribution of an independent pair of ranges: the first
/// component is sampled, then the second.
pub struct JointDistribution {
    pub d1: RangeDist,
    pub d2: RangeDist,
}

impl JointDistribution {
    /// The successor generator model and the pair sampled.
    pub open spec fn sp_sample<R: Rng>(&self, m: R::V) -> (R::V, (u64, u64)) {
        let (m1, s1) = self.d1.sp_sample::<R>(m);
        let (m2, s2) = self.d2.sp_sample::<R>(m1);
        (m2, (s1, s2))
    }

    /// Sample one pair.
    pub fn sample<R: Rng>(&self, rng: &mut R) -> (s: (u64, u64))
        requires
            self.d1.sample_ok(),
            self.d2.sample_ok(),
            old(rng).wf(),
        ensures
            (final(rng)@, s) == self.sp_sample::<R>(old(rng)@),
            final(rng).wf(),
    {
        let s1 = self.d1.sample(rng);
        let s2 = self.d2.sample(rng);
        (s1, s2)
    }
}

/// A distribution over lists: one range distribution draws the length,
/// another draws each element.
pub struct ListDist {
    pub int_dist: RangeDist,
    pub elem: RangeDist,
}

/// The generator model and elements after `n` draws from the element
/// distribution.
pub open spec fn sp_list_elems<R: Rng>(e: RangeDist, m: R::V, n: nat) -> (R::V, Seq<u64>)
    decreases n,
{
    if n == 0 {
        (m, Seq::empty())
    } else {
        let (m1, s) = sp_list_elems::<R>(e, m, (n - 1) as nat);
        let (m2, x) = e.sp_sample::<R>(m1);
        (m2, s.push(x))
    }
}

impl ListDist {
    /// Sample a list: the length distribution draws the length, and the
    /// element distribution then fills the list.
    pub fn sample_list<R: Rng>(&self, rng: &mut R) -> (r: Vec<u64>)
        requires
            self.int_dist.sample_ok(),
            self.elem.sample_ok(),
            self.int_dist.low + self.int_dist.range <= usize::MAX,
            old(rng).wf(),
        ensures
            final(rng).wf(),
            ({
                let (m1, n) = self.int_dist.sp_sample::<R>(old(rng)@);
                (final(rng)@, r@) == sp_list_elems::<R>(self.elem, m1, n as nat) && r@.len() == n
            }),
    {
        proof {
            crate::derived::lemma_gen_range_bounds::<R>(
                old(rng)@,
                self.int_dist.low,
                (self.int_dist.low + self.int_dist.range) as u64,
                MAX_RANGE_DRAWS as nat,
            );
        }
        let n = self.int_dist.sample(rng);
        let ghost m1 = rng@;
        let mut out: Vec<u64> = Vec::new();
        let n = n as usize;
        let mut k: usize = 0;
        while k < n
            invariant
                k <= n,
                rng.wf(),
                self.elem.sample_ok(),
                out@.len() == k,
                (rng@, out@) == sp_list_elems::<R>(self.elem, m1, k as nat),
            decreases n - k,
        {
            let x = self.elem.sample(rng);
            out.push(x);
            k = k + 1;
        }
        out
    }
}

} // verus!
