//! Range correctness and uniformity of `gen_integer_range`.

use rand::Rng;
use rand::SeedableRng;
use rand::derived::gen_integer_range;
use rand::mersenne_twister::MT19937;
use rand::xorshift::XorShift4;

#[test]
fn range_correctness_many_trials() {
    // The result never leaves [low, high), including a width of one and
    // widths close to the native width.
    let pairs: [(u64, u64); 6] = [
        (0, 1),
        (0, 10),
        (5, 6),
        (17, 4097),
        (0, u64::MAX),
        (1, u64::MAX - 1),
    ];
    let mut r = XorShift4::new();
    for &(low, high) in pairs.iter() {
        for _ in 0..100_000 {
            let v = gen_integer_range(&mut r, low, high);
            assert!(low <= v && v < high);
        }
    }
}

#[test]
fn range_width_one_is_constant() {
    let mut r = XorShift4::from_seed([1, 2, 3, 4]);
    for _ in 0..1000 {
        assert_eq!(gen_integer_range(&mut r, 41, 42), 41);
    }
}

fn chi_squared(counts: &[u64], draws: u64) -> f64 {
    let expected = draws as f64 / counts.len() as f64;
    let mut chi = 0.0f64;
    for &c in counts.iter() {
        let d = c as f64 - expected;
        chi += d * d / expected;
    }
    chi
}

#[test]
fn range_uniformity_small_moduli() {
    // Chi-squared goodness of fit against the uniform distribution over
    // {0, .., n-1}, for n = 3 and n = 7 (thresholds far beyond the 99.9th
    // percentile of the corresponding chi-squared distributions).
    let mut r = MT19937::new();
    for &n in [3u64, 7].iter() {
        let mut counts = vec![0u64; n as usize];
        let draws: u64 = 100_000;
        for _ in 0..draws {
            let v = gen_integer_range(&mut r, 0, n);
            counts[v as usize] += 1;
        }
        let chi = chi_squared(&counts, draws);
        assert!(chi < 40.0, "chi-squared {} too large for n = {}", chi, n);
    }
}

#[test]
fn range_uniformity_many_bins() {
    // 100000 bins with a million draws: expected count ten per bin;
    // the statistic has about 99999 degrees of freedom (standard
    // deviation near 450), so 110000 is far beyond any plausible value
    // for a uniform source.
    let mut r = MT19937::new();
    let n: u64 = 100_000;
    let mut counts = vec![0u64; n as usize];
    let draws: u64 = 1_000_000;
    for _ in 0..draws {
        let v = gen_integer_range(&mut r, 0, n);
        counts[v as usize] += 1;
    }
    let chi = chi_squared(&counts, draws);
    assert!(chi < 110_000.0, "chi-squared {} too large", chi);
}

#[test]
fn range_uniformity_256_bins() {
    let mut r = MT19937::new();
    let mut counts = vec![0u64; 256];
    let draws: u64 = 200_000;
    for _ in 0..draws {
        let v = gen_integer_range(&mut r, 0, 256);
        counts[v as usize] += 1;
    }
    let chi = chi_squared(&counts, draws);
    // 255 degrees of freedom: mean 255, standard deviation about 22.6.
    assert!(chi < 400.0, "chi-squared {} too large", chi);
}
