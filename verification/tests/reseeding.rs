//! The entropy-budget wrapper: accounting, the triggering draw, and the
//! task-generator conveniences.

use rand::Rng;
use rand::SeedableRng;
use rand::reseeding::Counter;
use rand::reseeding::DEFAULT_ENTROPY_THRESHOLD;
use rand::reseeding::ReseedWithNew;
use rand::reseeding::ReseedingRng;
use rand::reseeding::TaskRng;
use rand::reseeding::TaskRngReseeder;
use rand::reseeding::seed_task_rng;
use rand::std_rng::StdRng;

#[test]
fn test_reseeding() {
    let mut rs = ReseedingRng::from_options(Counter { i: 0 }, 100, ReseedWithNew);

    let mut i = 0;
    for _ in 0..1000 {
        assert_eq!(rs.next_u32(), i % 100);
        i += 1;
    }
}

#[test]
fn reseed_happens_exactly_at_threshold() {
    // The counter costs one byte per draw; with a threshold of 3 the
    // fourth draw is the first one served by a fresh generator.
    let mut rs = ReseedingRng::from_options(Counter { i: 0 }, 3, ReseedWithNew);
    assert_eq!(rs.next_u32(), 0);
    assert_eq!(rs.next_u32(), 1);
    assert_eq!(rs.next_u32(), 2);
    assert_eq!(rs.next_u32(), 0);
    assert_eq!(rs.next_u32(), 1);
}

#[test]
fn zero_threshold_reseeds_every_draw() {
    // The threshold check runs before each draw, so a zero threshold
    // replaces the wrapped generator immediately, every time.
    let mut rs = ReseedingRng::from_options(Counter { i: 5 }, 0, ReseedWithNew);
    assert_eq!(rs.next_u32(), 0);
    assert_eq!(rs.next_u32(), 0);
    assert_eq!(rs.next_u32(), 0);
}

#[test]
fn wrapper_passes_seed_through() {
    let mut plain = <StdRng as SeedableRng<u64>>::from_seed(31337u64);
    let mut wrapped: ReseedingRng<StdRng, ReseedWithNew> = <ReseedingRng<StdRng, ReseedWithNew> as
        SeedableRng<u64>>::from_seed(31337u64);
    for _ in 0..1000 {
        assert_eq!(plain.next_u64(), wrapped.next_u64());
    }
}

#[test]
fn task_rng_explicit_seeding_is_deterministic() {
    let mut a: TaskRng = ReseedingRng::from_options(
        StdRng::new(),
        DEFAULT_ENTROPY_THRESHOLD,
        TaskRngReseeder::WithNew,
    );
    let mut b: TaskRng = ReseedingRng::from_options(
        StdRng::new(),
        DEFAULT_ENTROPY_THRESHOLD,
        TaskRngReseeder::WithNew,
    );
    seed_task_rng(&mut a, 10u64);
    seed_task_rng(&mut b, 10u64);
    for _ in 0..1000 {
        assert_eq!(a.next_u64(), b.next_u64());
    }
}
