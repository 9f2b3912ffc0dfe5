//! A wrapper around another generator that reseeds it after it has
//! consumed a budget of entropy.

use vstd::prelude::*;
use crate::Rng;
use crate::SeedableRng;
use crate::std_rng::StdRng;
use crate::std_rng::StdSeed;
use crate::isaac::Isaac64V;

verus! {

/// How many bytes of entropy the underlying generator may consume before
/// it is reseeded, unless another threshold is configured.
pub const DEFAULT_ENTROPY_THRESHOLD: usize = 32768;

/// Something that can be used to reseed a generator in place.
pub trait Reseeder<R: Rng>: Sized + View {
    /// The model of a default-constructed strategy.
    spec fn sp_new() -> Self::V;

    /// What one reseed does: the successor models of the strategy and of
    /// the generator it acted on.
    spec fn sp_reseed(m: Self::V, rng: R::V) -> (Self::V, R::V);

    /// Create a default instance.
    fn new() -> (r: Self)
        ensures
            r@ == Self::sp_new(),
    ;

    /// Reseed the given generator.
    fn reseed(&mut self, rng: &mut R)
        requires
            old(rng).wf(),
        ensures
            (final(self)@, final(rng)@) == Self::sp_reseed(old(self)@, old(rng)@),
            final(rng).wf(),
    ;
}

/// Reseed a generator by replacing it with a default-constructed one.
pub struct ReseedWithNew;

impl View for ReseedWithNew {
    type V = ReseedWithNew;

    open spec fn view(&self) -> ReseedWithNew {
        ReseedWithNew
    }
}

impl<R: Rng> Reseeder<R> for ReseedWithNew {
    open spec fn sp_new() -> ReseedWithNew {
        ReseedWithNew
    }

    open spec fn sp_reseed(m: ReseedWithNew, rng: R::V) -> (ReseedWithNew, R::V) {
        (m, R::sp_new())
    }

    fn new() -> (r: ReseedWithNew) {
        ReseedWithNew
    }

    fn reseed(&mut self, rng: &mut R) {
        *rng = R::new();
    }
}

/// A wrapper around a generator that reseeds it once the entropy the
/// wrapped generator has consumed reaches a threshold.
pub struct ReseedingRng<R, Rsdr> {
    pub rng: R,
    pub entropy_threshold: usize,
    pub entropy_used: usize,
    /// Controls the behaviour when reseeding.
    pub reseeder: Rsdr,
}

/// The model of a `ReseedingRng` state.
pub struct ReseedingV<RV, SV> {
    pub rng: RV,
    pub entropy_threshold: usize,
    pub entropy_used: usize,
    pub reseeder: SV,
}

impl<R: Rng, Rsdr: Reseeder<R>> View for ReseedingRng<R, Rsdr> {
    type V = ReseedingV<R::V, Rsdr::V>;

    open spec fn view(&self) -> ReseedingV<R::V, Rsdr::V> {
        ReseedingV {
            rng: self.rng@,
            entropy_threshold: self.entropy_threshold,
            entropy_used: self.entropy_used,
            reseeder: self.reseeder@,
        }
    }
}

/// The model after the threshold check: once the entropy used reaches the
/// threshold, the strategy acts on the wrapped generator and the count
/// starts over at zero.
pub open spec fn sp_reseed_if_necessary<R: Rng, Rsdr: Reseeder<R>>(
    m: ReseedingV<R::V, Rsdr::V>,
) -> ReseedingV<R::V, Rsdr::V> {
    if m.entropy_used >= m.entropy_threshold {
        let (s2, r2) = Rsdr::sp_reseed(m.reseeder, m.rng);
        ReseedingV {
            rng: r2,
            entropy_threshold: m.entropy_threshold,
            entropy_used: 0,
            reseeder: s2,
        }
    } else {
        m
    }
}

/// One 32-bit draw through the wrapper: the threshold check runs first,
/// the draw's entropy cost is charged, and the wrapped generator steps.
pub open spec fn sp_wrapped_next32<R: Rng, Rsdr: Reseeder<R>>(
    m: ReseedingV<R::V, Rsdr::V>,
) -> (ReseedingV<R::V, Rsdr::V>, u32) {
    let m1 = sp_reseed_if_necessary::<R, Rsdr>(m);
    let used = m1.entropy_used.saturating_add(R::sp_entropy32(m1.rng));
    let (r2, x) = R::sp_next32(m1.rng);
    (
        ReseedingV {
            rng: r2,
            entropy_threshold: m1.entropy_threshold,
            entropy_used: used,
            reseeder: m1.reseeder,
        },
        x,
    )
}

/// One 64-bit draw through the wrapper.
pub open spec fn sp_wrapped_next64<R: Rng, Rsdr: Reseeder<R>>(
    m: ReseedingV<R::V, Rsdr::V>,
) -> (ReseedingV<R::V, Rsdr::V>, u64) {
    let m1 = sp_reseed_if_necessary::<R, Rsdr>(m);
    let used = m1.entropy_used.saturating_add(R::sp_entropy64(m1.rng));
    let (r2, x) = R::sp_next64(m1.rng);
    (
        ReseedingV {
            rng: r2,
            entropy_threshold: m1.entropy_threshold,
            entropy_used: used,
            reseeder: m1.reseeder,
        },
        x,
    )
}

impl<R: Rng, Rsdr: Reseeder<R>> ReseedingRng<R, Rsdr> {
    /// Create a new wrapper from a generator, an entropy threshold in
    /// bytes, and a reseeding strategy.
    pub fn from_options(rng: R, entropy_threshold: usize, reseeder: Rsdr) -> (r: ReseedingRng<
        R,
        Rsdr,
    >)
        requires
            rng.wf(),
        ensures
            r@ == (ReseedingV {
                rng: rng@,
                entropy_threshold: entropy_threshold,
                entropy_used: 0,
                reseeder: reseeder@,
            }),
            r.wf(),
    {
        ReseedingRng { rng, entropy_threshold, entropy_used: 0, reseeder }
    }

    /// Reseed the wrapped generator if the entropy used has reached the
    /// threshold, and start the count over.
    pub fn reseed_if_necessary(&mut self)
        requires
            old(self).wf(),
        ensures
            final(self)@ == sp_reseed_if_necessary::<R, Rsdr>(old(self)@),
            final(self).wf(),
    {
        if self.entropy_used >= self.entropy_threshold {
            self.reseeder.reseed(&mut self.rng);
            self.entropy_used = 0;
        }
    }
}

impl<R: Rng, Rsdr: Reseeder<R>> Rng for ReseedingRng<R, Rsdr> {
    open spec fn wf(&self) -> bool {
        self.rng.wf()
    }

    open spec fn sp_new() -> ReseedingV<R::V, Rsdr::V> {
        ReseedingV {
            rng: R::sp_new(),
            entropy_threshold: DEFAULT_ENTROPY_THRESHOLD,
            entropy_used: 0,
            reseeder: Rsdr::sp_new(),
        }
    }

    open spec fn sp_next32(m: ReseedingV<R::V, Rsdr::V>) -> (ReseedingV<R::V, Rsdr::V>, u32) {
        sp_wrapped_next32::<R, Rsdr>(m)
    }

    open spec fn sp_next64(m: ReseedingV<R::V, Rsdr::V>) -> (ReseedingV<R::V, Rsdr::V>, u64) {
        sp_wrapped_next64::<R, Rsdr>(m)
    }

    open spec fn sp_entropy32(m: ReseedingV<R::V, Rsdr::V>) -> usize {
        R::sp_entropy32(m.rng)
    }

    open spec fn sp_entropy64(m: ReseedingV<R::V, Rsdr::V>) -> usize {
        R::sp_entropy64(m.rng)
    }

    fn new() -> (r: Self) {
        ReseedingRng {
            rng: R::new(),
            entropy_threshold: DEFAULT_ENTROPY_THRESHOLD,
            entropy_used: 0,
            reseeder: Rsdr::new(),
        }
    }

    fn next_u32(&mut self) -> (r: u32) {
        self.reseed_if_necessary();
        let cost = self.rng.entropy_u32();
        self.entropy_used = self.entropy_used.saturating_add(cost);
        self.rng.next_u32()
    }

    fn next_u64(&mut self) -> (r: u64) {
        self.reseed_if_necessary();
        let cost = self.rng.entropy_u64();
        self.entropy_used = self.entropy_used.saturating_add(cost);
        self.rng.next_u64()
    }

    fn entropy_u32(&self) -> (r: usize) {
        self.rng.entropy_u32()
    }

    fn entropy_u64(&self) -> (r: usize) {
        self.rng.entropy_u64()
    }
}

impl<Seed, R: SeedableRng<Seed>, Rsdr: Reseeder<R>> SeedableRng<Seed> for ReseedingRng<R, Rsdr> {
    open spec fn seed_ok(seed: Seed) -> bool {
        R::seed_ok(seed)
    }

    open spec fn sp_from_seed(seed: Seed) -> ReseedingV<R::V, Rsdr::V> {
        ReseedingV {
            rng: R::sp_from_seed(seed),
            entropy_threshold: DEFAULT_ENTROPY_THRESHOLD,
            entropy_used: 0,
            reseeder: Rsdr::sp_new(),
        }
    }

    open spec fn sp_reseed(m: ReseedingV<R::V, Rsdr::V>, seed: Seed) -> ReseedingV<
        R::V,
        Rsdr::V,
    > {
        ReseedingV {
            rng: R::sp_reseed(m.rng, seed),
            entropy_threshold: m.entropy_threshold,
            entropy_used: m.entropy_used,
            reseeder: m.reseeder,
        }
    }

    /// Reseeding replaces the wrapped generator's state; the entropy
    /// count and the strategy are left as they are.
    fn reseed(&mut self, seed: Seed) {
        self.rng.reseed(seed);
    }

    fn from_seed(seed: Seed) -> (r: Self) {
        ReseedingRng {
            rng: R::from_seed(seed),
            entropy_threshold: DEFAULT_ENTROPY_THRESHOLD,
            entropy_used: 0,
            reseeder: Rsdr::new(),
        }
    }

    proof fn from_seed_is_new_reseed(seed: Seed) {
        R::from_seed_is_new_reseed(seed);
    }
}

/// The wrapper model after `n` 32-bit draws.
pub open spec fn sp_wrapped_iter32<R: Rng, Rsdr: Reseeder<R>>(
    m: ReseedingV<R::V, Rsdr::V>,
    n: nat,
) -> ReseedingV<R::V, Rsdr::V>
    decreases n,
{
    if n == 0 {
        m
    } else {
        sp_wrapped_next32::<R, Rsdr>(sp_wrapped_iter32::<R, Rsdr>(m, (n - 1) as nat)).0
    }
}

/// Entropy accounting below the threshold: starting from a zero count,
/// with a constant per-draw cost `e`, draws accrue exactly `e` each and
/// never invoke the strategy as long as the count stays below the
/// threshold.  After `n` such draws the count is exactly `n * e`, the
/// strategy is untouched, and the wrapped generator has simply advanced
/// `n` steps.
pub proof fn lemma_entropy_accounting<R: Rng, Rsdr: Reseeder<R>>(
    m: ReseedingV<R::V, Rsdr::V>,
    e: usize,
    n: nat,
)
    requires
        forall|rv: R::V| #[trigger] R::sp_entropy32(rv) == e,
        m.entropy_used == 0,
        n >= 1 ==> (n - 1) * (e as int) < m.entropy_threshold,
        n * (e as int) <= usize::MAX,
    ensures
        sp_wrapped_iter32::<R, Rsdr>(m, n).entropy_used == n * (e as int),
        sp_wrapped_iter32::<R, Rsdr>(m, n).entropy_threshold == m.entropy_threshold,
        sp_wrapped_iter32::<R, Rsdr>(m, n).reseeder == m.reseeder,
        sp_wrapped_iter32::<R, Rsdr>(m, n).rng == crate::iterate32::<R>(m.rng, n),
    decreases n,
{
    if n == 0 {
        assert(n * (e as int) == 0) by (nonlinear_arith)
            requires
                n == 0,
        ;
    } else {
        assert((n - 1) * (e as int) <= n * (e as int) && (n >= 2 ==> (n - 2) * (e as int) <= (n
            - 1) * (e as int))) by (nonlinear_arith)
            requires
                n >= 1,
                e >= 0,
        ;
        lemma_entropy_accounting::<R, Rsdr>(m, e, (n - 1) as nat);
        let prev = sp_wrapped_iter32::<R, Rsdr>(m, (n - 1) as nat);
        assert(prev.entropy_used < prev.entropy_threshold);
        assert(R::sp_entropy32(prev.rng) == e);
        assert((n - 1) * (e as int) + e == n * (e as int)) by (nonlinear_arith);
        assert(sp_wrapped_iter32::<R, Rsdr>(m, n) == sp_wrapped_next32::<R, Rsdr>(prev).0);
    }
}

/// The triggering draw: once the entropy used has reached the threshold,
/// the next draw invokes the strategy exactly once, the count starts
/// over at zero (and then accrues that draw's own cost), and the value
/// comes from the freshly reseeded generator.
pub proof fn lemma_reseed_triggers<R: Rng, Rsdr: Reseeder<R>>(m: ReseedingV<R::V, Rsdr::V>)
    requires
        m.entropy_used >= m.entropy_threshold,
    ensures
        ({
            let (s2, r2) = Rsdr::sp_reseed(m.reseeder, m.rng);
            let (next, x) = sp_wrapped_next32::<R, Rsdr>(m);
            next.reseeder == s2 && next.rng == R::sp_next32(r2).0 && x == R::sp_next32(r2).1
                && next.entropy_used == (0usize).saturating_add(R::sp_entropy32(r2))
        }),
{
}

/// Controls how the task generator is reseeded: with a fresh default
/// generator, or not at all (for a caller that has fixed a seed and
/// wants determinism).
#[derive(Clone, Copy, PartialEq, Eq, Structural)]
pub enum TaskRngReseeder {
    /// Reseed using the standard generator's default construction.
    WithNew,
    /// Don't reseed at all.
    DontReseed,
}

impl View for TaskRngReseeder {
    type V = TaskRngReseeder;

    open spec fn view(&self) -> TaskRngReseeder {
        *self
    }
}

impl Reseeder<StdRng> for TaskRngReseeder {
    open spec fn sp_new() -> TaskRngReseeder {
        TaskRngReseeder::WithNew
    }

    open spec fn sp_reseed(m: TaskRngReseeder, rng: Isaac64V) -> (TaskRngReseeder, Isaac64V) {
        match m {
            TaskRngReseeder::WithNew => (m, <StdRng as Rng>::sp_new()),
            TaskRngReseeder::DontReseed => (m, rng),
        }
    }

    fn new() -> (r: TaskRngReseeder) {
        TaskRngReseeder::WithNew
    }

    fn reseed(&mut self, rng: &mut StdRng) {
        match *self {
            TaskRngReseeder::WithNew => {
                *rng = StdRng::new();
            },
            TaskRngReseeder::DontReseed => {},
        }
    }
}

/// The explicitly passed default generator: a standard generator behind
/// the entropy-budget wrapper.
pub type TaskRng = ReseedingRng<StdRng, TaskRngReseeder>;

/// Explicitly seed (or reseed) a task generator.  This also stops the
/// generator from automatically reseeding itself, so its output stays a
/// function of the seed alone.
pub fn seed_task_rng<Seed: StdSeed>(rng: &mut TaskRng, seed: Seed)
    requires
        old(rng).wf(),
    ensures
        final(rng)@.rng == seed.sp_apply(),
        final(rng)@.reseeder == TaskRngReseeder::DontReseed,
        final(rng)@.entropy_threshold == old(rng)@.entropy_threshold,
        final(rng)@.entropy_used == old(rng)@.entropy_used,
        final(rng).wf(),
{
    rng.rng.reseed(seed);
    rng.reseeder = TaskRngReseeder::DontReseed;
}

/// A generator that counts upward by one: `next_u32` hands out 0, 1, 2,
/// in turn, at a declared cost of one byte of entropy per draw.  Useful
/// for exercising the reseeding wrapper deterministically.
#[derive(Clone, Copy)]
pub struct Counter {
    pub i: u32,
}

impl View for Counter {
    type V = Counter;

    open spec fn view(&self) -> Counter {
        *self
    }
}

impl Rng for Counter {
    open spec fn wf(&self) -> bool {
        true
    }

    open spec fn sp_new() -> Counter {
        Counter { i: 0 }
    }

    open spec fn sp_next32(m: Counter) -> (Counter, u32) {
        (Counter { i: m.i.wrapping_add(1) }, m.i)
    }

    open spec fn sp_next64(m: Counter) -> (Counter, u64) {
        let (m1, hi) = Self::sp_next32(m);
        let (m2, lo) = Self::sp_next32(m1);
        (m2, ((hi as u64) << 32) | (lo as u64))
    }

    open spec fn sp_entropy32(m: Counter) -> usize {
        1
    }

    open spec fn sp_entropy64(m: Counter) -> usize {
        2
    }

    fn new() -> (r: Self) {
        Counter { i: 0 }
    }

    fn next_u32(&mut self) -> (r: u32) {
        let x = self.i;
        self.i = self.i.wrapping_add(1);
        x
    }

    fn next_u64(&mut self) -> (r: u64) {
        let hi = self.next_u32();
        let lo = self.next_u32();
        ((hi as u64) << 32) | (lo as u64)
    }

    fn entropy_u32(&self) -> (r: usize) {
        1
    }

    fn entropy_u64(&self) -> (r: usize) {
        2
    }
}

} // verus!
