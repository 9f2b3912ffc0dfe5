//! Operations layered generically on top of any generator: uniform
//! integer ranges free of modulo bias, choice, shuffling, reservoir
//! sampling, byte and text strings, and weighted choice.

use vstd::prelude::*;
use vstd::pervasive::VecAdditionalExecFns;
use crate::Rng;

verus! {

/// The number of draws after which the rejection loop in
/// `gen_integer_range` settles for the last draw reduced modulo the
/// range.  Each draw is rejected with probability below one half, so the
/// chance of ever reaching the bound is below `2^-64`; a bound keeps
/// every call provably terminating.
pub const MAX_RANGE_DRAWS: usize = 64;

/// The acceptance zone for rejection sampling over `range`: the largest
/// multiple of `range` not above `2^64`.  Draws at or above it would make
/// low results more likely than high ones and are redrawn.
pub open spec fn accept_zone(range: u64) -> u64
    recommends
        range > 0,
{
    (u64::MAX - (u64::MAX as int % (range as int))) as u64
}

/// The generator state and result of the rejection loop: draw a 64-bit
/// word; accept it (reduced into the range) if it falls below the
/// acceptance zone or the fuel has run out, and redraw otherwise.
pub open spec fn sp_gen_range<R: Rng>(m: R::V, low: u64, high: u64, fuel: nat) -> (R::V, u64)
    recommends
        low < high,
    decreases fuel,
{
    let range = (high - low) as u64;
    let (m2, d) = R::sp_next64(m);
    if d < accept_zone(range) || fuel <= 1 {
        (m2, (low + ((d as int) % (range as int))) as u64)
    } else {
        sp_gen_range::<R>(m2, low, high, (fuel - 1) as nat)
    }
}

/// Whatever the generator state and fuel, the rejection loop's result
/// lies in `[low, high)`.
pub proof fn lemma_gen_range_bounds<R: Rng>(m: R::V, low: u64, high: u64, fuel: nat)
    requires
        low < high,
        fuel >= 1,
    ensures
        low <= sp_gen_range::<R>(m, low, high, fuel).1 < high,
    decreases fuel,
{
    let range = (high - low) as u64;
    let (m2, d) = R::sp_next64(m);
    if !(d < accept_zone(range) || fuel <= 1) {
        lemma_gen_range_bounds::<R>(m2, low, high, (fuel - 1) as nat);
    }
}

/// Generate a random integer in the range `[low, high)`, uniformly
/// distributed when the underlying generator is uniform, even for ranges
/// that do not divide `2^64`: draws in the biased tail are rejected and
/// redrawn.
pub fn gen_integer_range<R: Rng>(rng: &mut R, low: u64, high: u64) -> (r: u64)
    requires
        low < high,
        old(rng).wf(),
    ensures
        low <= r < high,
        (final(rng)@, r) == sp_gen_range::<R>(old(rng)@, low, high, MAX_RANGE_DRAWS as nat),
        final(rng).wf(),
{
    let range = high - low;
    let zone = u64::MAX - u64::MAX % range;
    let mut fuel: usize = MAX_RANGE_DRAWS;
    loop
        invariant
            1 <= fuel <= MAX_RANGE_DRAWS,
            rng.wf(),
            low < high,
            range == high - low,
            zone == accept_zone(range),
            sp_gen_range::<R>(old(rng)@, low, high, MAX_RANGE_DRAWS as nat) == sp_gen_range::<R>(
                rng@,
                low,
                high,
                fuel as nat,
            ),
        decreases fuel,
    {
        let d = rng.next_u64();
        if d < zone || fuel == 1 {
            return low + d % range;
        }
        fuel = fuel - 1;
    }
}

/// Choose `Some(&item)` uniformly, returning `None` if `values` is
/// empty.
pub fn choose_option<'a, R: Rng, T>(rng: &mut R, values: &'a Vec<T>) -> (r: Option<&'a T>)
    requires
        old(rng).wf(),
    ensures
        final(rng).wf(),
        values@.len() == 0 ==> r is None && final(rng)@ == old(rng)@,
        values@.len() > 0 ==> (r matches Some(v) && ({
            let (m2, idx) = sp_gen_range::<R>(
                old(rng)@,
                0,
                values@.len() as u64,
                MAX_RANGE_DRAWS as nat,
            );
            final(rng)@ == m2 && *v == values@[idx as int]
        })),
{
    if values.len() == 0 {
        None
    } else {
        let idx = gen_integer_range(rng, 0, values.len() as u64);
        Some(&values[idx as usize])
    }
}

/// Choose a reference to an element uniformly; the input must not be
/// empty.
pub fn choose_nonempty<'a, R: Rng, T>(rng: &mut R, values: &'a Vec<T>) -> (r: &'a T)
    requires
        old(rng).wf(),
        values@.len() > 0,
    ensures
        final(rng).wf(),
        ({
            let (m2, idx) = sp_gen_range::<R>(
                old(rng)@,
                0,
                values@.len() as u64,
                MAX_RANGE_DRAWS as nat,
            );
            final(rng)@ == m2 && *r == values@[idx as int]
        }),
{
    let idx = gen_integer_range(rng, 0, values.len() as u64);
    &values[idx as usize]
}

/// A random `u32`: one 32-bit step.
pub fn gen_u32<R: Rng>(rng: &mut R) -> (r: u32)
    requires
        old(rng).wf(),
    ensures
        (final(rng)@, r) == R::sp_next32(old(rng)@),
        final(rng).wf(),
{
    rng.next_u32()
}

/// A random `u64`: one 64-bit step.
pub fn gen_u64<R: Rng>(rng: &mut R) -> (r: u64)
    requires
        old(rng).wf(),
    ensures
        (final(rng)@, r) == R::sp_next64(old(rng)@),
        final(rng).wf(),
{
    rng.next_u64()
}

/// A random `u8`: the low byte of one 32-bit step.
pub fn gen_u8<R: Rng>(rng: &mut R) -> (r: u8)
    requires
        old(rng).wf(),
    ensures
        final(rng)@ == R::sp_next32(old(rng)@).0,
        r == (R::sp_next32(old(rng)@).1 & 0xFF) as u8,
        final(rng).wf(),
{
    let x = rng.next_u32();
    (x & 0xFF) as u8
}

/// A random `u16`: the low two bytes of one 32-bit step.
pub fn gen_u16<R: Rng>(rng: &mut R) -> (r: u16)
    requires
        old(rng).wf(),
    ensures
        final(rng)@ == R::sp_next32(old(rng)@).0,
        r == (R::sp_next32(old(rng)@).1 & 0xFFFF) as u16,
        final(rng).wf(),
{
    let x = rng.next_u32();
    (x & 0xFFFF) as u16
}

/// A random `bool`: the low bit of one 32-bit step.
pub fn gen_bool<R: Rng>(rng: &mut R) -> (r: bool)
    requires
        old(rng).wf(),
    ensures
        final(rng)@ == R::sp_next32(old(rng)@).0,
        r == (R::sp_next32(old(rng)@).1 & 1 == 1),
        final(rng).wf(),
{
    let x = rng.next_u32();
    x & 1 == 1
}

/// Return a bool with a 1-in-`n` chance of being true (always true when
/// `n` is zero).
pub fn gen_weighted_bool<R: Rng>(rng: &mut R, n: u64) -> (r: bool)
    requires
        old(rng).wf(),
        n < u64::MAX,
    ensures
        final(rng).wf(),
        n == 0 ==> r && final(rng)@ == old(rng)@,
        n > 0 ==> ({
            let (m2, v) = sp_gen_range::<R>(old(rng)@, 1, (n + 1) as u64, MAX_RANGE_DRAWS as nat);
            final(rng)@ == m2 && r == (v == 1)
        }),
{
    if n == 0 {
        true
    } else {
        let v = gen_integer_range(rng, 1, n + 1);
        v == 1
    }
}

/// The bytes produced by `len` draws, each the low byte of a 32-bit step.
pub open spec fn sp_gen_bytes<R: Rng>(m: R::V, len: nat) -> (R::V, Seq<u8>)
    decreases len,
{
    if len == 0 {
        (m, Seq::empty())
    } else {
        let (m1, s) = sp_gen_bytes::<R>(m, (len - 1) as nat);
        let (m2, x) = R::sp_next32(m1);
        (m2, s.push((x & 0xFF) as u8))
    }
}

/// Return a random byte string of the specified length.
pub fn gen_bytes<R: Rng>(rng: &mut R, len: usize) -> (r: Vec<u8>)
    requires
        old(rng).wf(),
    ensures
        r@.len() == len,
        (final(rng)@, r@) == sp_gen_bytes::<R>(old(rng)@, len as nat),
        final(rng).wf(),
{
    let mut out: Vec<u8> = Vec::new();
    let mut k: usize = 0;
    while k < len
        invariant
            k <= len,
            rng.wf(),
            out@.len() == k,
            (rng@, out@) == sp_gen_bytes::<R>(old(rng)@, k as nat),
        decreases len - k,
    {
        let b = gen_u8(rng);
        out.push(b);
        k = k + 1;
    }
    out
}

/// A sequence with the values at two positions exchanged.
pub open spec fn sp_swap<T>(s: Seq<T>, i: int, j: int) -> Seq<T>
    recommends
        0 <= i < s.len(),
        0 <= j < s.len(),
{
    s.update(i, s[j]).update(j, s[i])
}

/// Exchanging two positions preserves the multiset of values.
pub proof fn lemma_swap_multiset<T>(s: Seq<T>, i: int, j: int)
    requires
        0 <= i < s.len(),
        0 <= j < s.len(),
    ensures
        sp_swap(s, i, j).to_multiset() == s.to_multiset(),
{
    broadcast use vstd::seq_lib::group_to_multiset_ensures;

    if i == j {
        assert(sp_swap(s, i, j) =~= s);
    } else {
        let s1 = s.update(i, s[j]);
        assert(s1.to_multiset() =~= s.to_multiset().insert(s[j]).remove(s[i]));
        assert(s1[j] == s[j]);
        assert(sp_swap(s, i, j).to_multiset() =~= s1.to_multiset().insert(s[i]).remove(s[j]));
        assert(sp_swap(s, i, j).to_multiset() =~= s.to_multiset());
    }
}

/// The generator state and array contents after the first `k` iterations
/// of the Fisher-Yates walk over `s`: iteration `k` locks position
/// `s.len() - k` in place, exchanging it with a uniformly chosen
/// earlier-or-equal position.
pub open spec fn sp_shuffle_steps<R: Rng, T>(m: R::V, s: Seq<T>, k: nat) -> (R::V, Seq<T>)
    recommends
        k < s.len(),
    decreases k,
{
    if k == 0 {
        (m, s)
    } else {
        let (m1, s1) = sp_shuffle_steps::<R, T>(m, s, (k - 1) as nat);
        let i = s.len() - k;
        let (m2, j) = sp_gen_range::<R>(m1, 0, (i + 1) as u64, MAX_RANGE_DRAWS as nat);
        (m2, sp_swap(s1, i as int, j as int))
    }
}

/// The generator state and array contents after a full shuffle.
pub open spec fn sp_shuffle<R: Rng, T>(m: R::V, s: Seq<T>) -> (R::V, Seq<T>) {
    if s.len() >= 2 {
        sp_shuffle_steps::<R, T>(m, s, (s.len() - 1) as nat)
    } else {
        (m, s)
    }
}

/// The Fisher-Yates walk only rearranges: after any number of its
/// iterations the multiset of values is unchanged.
pub proof fn lemma_shuffle_steps_multiset<R: Rng, T>(m: R::V, s: Seq<T>, k: nat)
    requires
        k < s.len(),
        s.len() <= u64::MAX,
    ensures
        sp_shuffle_steps::<R, T>(m, s, k).1.to_multiset() == s.to_multiset(),
        sp_shuffle_steps::<R, T>(m, s, k).1.len() == s.len(),
    decreases k,
{
    broadcast use vstd::seq_lib::group_to_multiset_ensures;

    if k > 0 {
        lemma_shuffle_steps_multiset::<R, T>(m, s, (k - 1) as nat);
        let (m1, s1) = sp_shuffle_steps::<R, T>(m, s, (k - 1) as nat);
        let i = s.len() - k;
        lemma_gen_range_bounds::<R>(m1, 0, (i + 1) as u64, MAX_RANGE_DRAWS as nat);
        let (m2, j) = sp_gen_range::<R>(m1, 0, (i + 1) as u64, MAX_RANGE_DRAWS as nat);
        lemma_swap_multiset(s1, i as int, j as int);
    }
}

/// Exchange the values at two positions of a vector.
fn vec_swap<T>(values: &mut Vec<T>, i: usize, j: usize)
    requires
        i < old(values)@.len(),
        j < old(values)@.len(),
    ensures
        final(values)@ == sp_swap(old(values)@, i as int, j as int),
{
    if i == j {
        proof {
            assert(values@ =~= sp_swap(old(values)@, i as int, j as int));
        }
    } else if i < j {
        let x = values.remove(j);
        let y = values.remove(i);
        values.insert(i, x);
        values.insert(j, y);
        proof {
            assert(values@ =~= sp_swap(old(values)@, i as int, j as int));
        }
    } else {
        let x = values.remove(i);
        let y = values.remove(j);
        values.insert(j, x);
        values.insert(i, y);
        proof {
            assert(values@ =~= sp_swap(old(values)@, i as int, j as int));
        }
    }
}

/// Shuffle a mutable vector in place by the Fisher-Yates walk: the index
/// runs from the last position down to 1, exchanging each position with
/// a uniformly chosen earlier-or-equal one, so every permutation is
/// equally likely when the generator is uniform.  The result always
/// holds the same values with the same multiplicities; a vector of
/// length 0 or 1 is left unchanged.
pub fn shuffle_mut<R: Rng, T>(rng: &mut R, values: &mut Vec<T>)
    requires
        old(rng).wf(),
    ensures
        final(rng).wf(),
        (final(rng)@, final(values)@) == sp_shuffle::<R, T>(old(rng)@, old(values)@),
        final(values)@.to_multiset() == old(values)@.to_multiset(),
        final(values)@.len() == old(values)@.len(),
        old(values)@.len() <= 1 ==> final(values)@ == old(values)@,
{
    let len = values.len();
    let mut i: usize = len;
    while i >= 2
        invariant
            rng.wf(),
            values@.len() == len,
            1 <= i <= len || (i == len && len <= 1),
            (rng@, values@) == sp_shuffle_steps::<R, T>(
                old(rng)@,
                old(values)@,
                (len - i) as nat,
            ),
            old(values)@.len() == len,
        decreases i,
    {
        i = i - 1;
        let j = gen_integer_range(rng, 0, (i + 1) as u64);
        vec_swap(values, i, j as usize);
    }
    proof {
        if len >= 2 {
            lemma_shuffle_steps_multiset::<R, T>(old(rng)@, old(values)@, (len - 1) as nat);
        } else {
            assert((rng@, values@) == sp_shuffle_steps::<R, T>(old(rng)@, old(values)@, 0));
        }
    }
}

/// Shuffle a vector, returning it.
pub fn shuffle<R: Rng, T>(rng: &mut R, values: Vec<T>) -> (r: Vec<T>)
    requires
        old(rng).wf(),
    ensures
        final(rng).wf(),
        (final(rng)@, r@) == sp_shuffle::<R, T>(old(rng)@, values@),
        r@.to_multiset() == values@.to_multiset(),
        r@.len() == values@.len(),
        values@.len() <= 1 ==> r@ == values@,
{
    let mut v = values;
    shuffle_mut(rng, &mut v);
    v
}

/// The generator state and reservoir contents after the first `k` input
/// items have been offered: the first `n` items are kept; after that the
/// `i`-th item replaces a uniformly chosen slot of `[0, i]`, if that slot
/// lies in the reservoir.
pub open spec fn sp_sample_steps<R: Rng, T>(m: R::V, input: Seq<T>, n: nat, k: nat) -> (
    R::V,
    Seq<T>,
)
    recommends
        k <= input.len(),
    decreases k,
{
    if k == 0 {
        (m, Seq::empty())
    } else {
        let (m1, res) = sp_sample_steps::<R, T>(m, input, n, (k - 1) as nat);
        let i = k - 1;
        let elem = input[i];
        if i < n {
            (m1, res.push(elem))
        } else {
            let (m2, slot) = sp_gen_range::<R>(m1, 0, (i + 1) as u64, MAX_RANGE_DRAWS as nat);
            if slot < res.len() {
                (m2, res.update(slot as int, elem))
            } else {
                (m2, res)
            }
        }
    }
}

/// The reservoir always holds as many items as it has been offered, up
/// to its capacity.
pub proof fn lemma_sample_len<R: Rng, T>(m: R::V, input: Seq<T>, n: nat, k: nat)
    requires
        k <= input.len(),
    ensures
        sp_sample_steps::<R, T>(m, input, n, k).1.len() == (if k < n {
            k
        } else {
            n
        }),
    decreases k,
{
    if k > 0 {
        lemma_sample_len::<R, T>(m, input, n, (k - 1) as nat);
    }
}

/// The reservoir only ever holds items offered to it.
pub proof fn lemma_sample_membership<R: Rng, T>(m: R::V, input: Seq<T>, n: nat, k: nat)
    requires
        k <= input.len(),
    ensures
        forall|i: int|
            0 <= i < sp_sample_steps::<R, T>(m, input, n, k).1.len() ==> input.contains(
                #[trigger] sp_sample_steps::<R, T>(m, input, n, k).1[i],
            ),
    decreases k,
{
    if k > 0 {
        lemma_sample_membership::<R, T>(m, input, n, (k - 1) as nat);
        let (m1, res) = sp_sample_steps::<R, T>(m, input, n, (k - 1) as nat);
        let i = k - 1;
        let elem = input[i as int];
        assert(input.contains(elem)) by {
            assert(input[i as int] == elem);
        }
        let res2 = sp_sample_steps::<R, T>(m, input, n, k).1;
        if i < n {
            assert(res2 == res.push(elem));
            assert forall|j: int| 0 <= j < res2.len() implies input.contains(res2[j]) by {
                if j < res.len() {
                    assert(res2[j] == res[j]);
                } else {
                    assert(res2[j] == elem);
                }
            }
        } else {
            let (m2, slot) = sp_gen_range::<R>(m1, 0, (i + 1) as u64, MAX_RANGE_DRAWS as nat);
            if slot < res.len() {
                assert(res2 == res.update(slot as int, elem));
                assert forall|j: int| 0 <= j < res2.len() implies input.contains(res2[j]) by {
                    if j == slot {
                        assert(res2[j] == elem);
                    } else {
                        assert(res2[j] == res[j]);
                    }
                }
            } else {
                assert(res2 == res);
            }
        }
    }
}

/// Randomly sample up to `n` elements from the input: a single-pass
/// uniform reservoir sample.  The result holds exactly `n` items when
/// the input has at least `n`, and the whole input otherwise; every item
/// of the result is an item of the input.
pub fn sample<R: Rng, T>(rng: &mut R, values: Vec<T>, n: usize) -> (r: Vec<T>)
    requires
        old(rng).wf(),
    ensures
        final(rng).wf(),
        (final(rng)@, r@) == sp_sample_steps::<R, T>(old(rng)@, values@, n as nat, values@.len()),
        r@.len() == (if values@.len() < n {
            values@.len() as int
        } else {
            n as int
        }),
        forall|i: int| 0 <= i < r@.len() ==> values@.contains(#[trigger] r@[i]),
{
    let ghost input = values@;
    let total = values.len();
    let mut rest = values;
    let mut reservoir: Vec<T> = Vec::new();
    let mut i: usize = 0;
    while i < total
        invariant
            i <= total,
            rng.wf(),
            input.len() == total,
            rest@ == input.skip(i as int),
            (rng@, reservoir@) == sp_sample_steps::<R, T>(old(rng)@, input, n as nat, i as nat),
            reservoir@.len() == (if i < n {
                i as int
            } else {
                n as int
            }),
        decreases total - i,
    {
        proof {
            assert(rest@[0] == input[i as int]);
        }
        let elem = rest.remove(0);
        proof {
            assert(rest@ =~= input.skip(i as int + 1));
        }
        if i < n {
            reservoir.push(elem);
        } else {
            let slot = gen_integer_range(rng, 0, (i + 1) as u64);
            if (slot as usize) < reservoir.len() {
                reservoir.set(slot as usize, elem);
            }
        }
        i = i + 1;
    }
    proof {
        lemma_sample_len::<R, T>(old(rng)@, input, n as nat, total as nat);
        lemma_sample_membership::<R, T>(old(rng)@, input, n as nat, total as nat);
    }
    reservoir
}

/// Relies on `String::push`: appends the given character to the end of
/// the string.  vstd gives this method no specification of its own.
pub assume_specification[ String::push ](s: &mut String, c: char)
    ensures
        final(s)@ == old(s)@.push(c),
;

/// The byte at position `i` of the character set A-Z, a-z, 0-9.
pub open spec fn ascii_charset_byte(i: int) -> u8
    recommends
        0 <= i < 62,
{
    if i < 26 {
        (65 + i) as u8
    } else if i < 52 {
        (97 + i - 26) as u8
    } else {
        (48 + i - 52) as u8
    }
}

/// Whether a character belongs to the set A-Z, a-z, 0-9.
pub open spec fn is_ascii_alphanumeric_char(c: char) -> bool {
    (65 <= c as int <= 90) || (97 <= c as int <= 122) || (48 <= c as int <= 57)
}

/// The characters produced by `len` uniform draws from the 62-character
/// set.
pub open spec fn sp_gen_ascii<R: Rng>(m: R::V, len: nat) -> (R::V, Seq<char>)
    decreases len,
{
    if len == 0 {
        (m, Seq::empty())
    } else {
        let (m1, s) = sp_gen_ascii::<R>(m, (len - 1) as nat);
        let (m2, idx) = sp_gen_range::<R>(m1, 0, 62, MAX_RANGE_DRAWS as nat);
        (m2, s.push(ascii_charset_byte(idx as int) as char))
    }
}

/// Return a random string of the specified length composed of
/// `A-Z`, `a-z`, `0-9`, each position drawn uniformly from that set.
pub fn gen_ascii_str<R: Rng>(rng: &mut R, len: usize) -> (r: String)
    requires
        old(rng).wf(),
    ensures
        r@.len() == len,
        (final(rng)@, r@) == sp_gen_ascii::<R>(old(rng)@, len as nat),
        forall|i: int| 0 <= i < len ==> is_ascii_alphanumeric_char(#[trigger] r@[i]),
        final(rng).wf(),
{
    let mut s = String::new();
    let mut k: usize = 0;
    while k < len
        invariant
            k <= len,
            rng.wf(),
            s@.len() == k,
            (rng@, s@) == sp_gen_ascii::<R>(old(rng)@, k as nat),
            forall|i: int| 0 <= i < k ==> is_ascii_alphanumeric_char(#[trigger] s@[i]),
        decreases len - k,
    {
        let idx = gen_integer_range(rng, 0, 62);
        let b: u8 = if idx < 26 {
            (65 + idx) as u8
        } else if idx < 52 {
            (97 + idx - 26) as u8
        } else {
            (48 + idx - 52) as u8
        };
        s.push(b as char);
        k = k + 1;
    }
    s
}

/// A value with a particular weight compared to other values.
pub struct Weighted<T> {
    pub weight: usize,
    pub item: T,
}

/// The sum of the first `k` weights.
pub open spec fn prefix_weight<T>(v: Seq<Weighted<T>>, k: int) -> int
    recommends
        0 <= k <= v.len(),
    decreases k,
{
    if k <= 0 {
        0
    } else {
        prefix_weight(v, k - 1) + v[k - 1].weight
    }
}

/// The sum of all the weights.
pub open spec fn total_weight<T>(v: Seq<Weighted<T>>) -> int {
    prefix_weight(v, v.len() as int)
}

/// Prefix sums of weights never decrease.
pub proof fn lemma_prefix_weight_monotonic<T>(v: Seq<Weighted<T>>, a: int, b: int)
    requires
        0 <= a <= b <= v.len(),
    ensures
        prefix_weight(v, a) <= prefix_weight(v, b),
    decreases b - a,
{
    if a < b {
        lemma_prefix_weight_monotonic(v, a, b - 1);
    }
}

/// Choose `Some(&item)` respecting the relative weights: item `i` is
/// selected when the uniform draw over the total weight lands between
/// the sums of the weights before and through `i`.  Returns `None` when
/// the weights sum to zero.
pub fn choose_weighted_option<'a, R: Rng, T>(rng: &mut R, v: &'a Vec<Weighted<T>>) -> (r: Option<
    &'a T,
>)
    requires
        old(rng).wf(),
        total_weight(v@) <= u64::MAX,
    ensures
        final(rng).wf(),
        total_weight(v@) == 0 ==> r is None && final(rng)@ == old(rng)@,
        total_weight(v@) > 0 ==> (r matches Some(p) && ({
            let (m2, chosen) = sp_gen_range::<R>(
                old(rng)@,
                0,
                total_weight(v@) as u64,
                MAX_RANGE_DRAWS as nat,
            );
            final(rng)@ == m2 && exists|idx: int|
                0 <= idx < v@.len() && prefix_weight(v@, idx) <= chosen < prefix_weight(
                    v@,
                    idx + 1,
                ) && p == &v@[idx].item
        })),
{
    let mut total: u64 = 0;
    let mut k: usize = 0;
    while k < v.len()
        invariant
            k <= v@.len(),
            total == prefix_weight(v@, k as int),
            total_weight(v@) <= u64::MAX,
        decreases v@.len() - k,
    {
        proof {
            lemma_prefix_weight_monotonic(v@, k as int + 1, v@.len() as int);
            lemma_prefix_weight_nonneg(v@, k as int);
        }
        total = total + (v[k].weight as u64);
        k = k + 1;
    }
    if total == 0 {
        return None;
    }
    let chosen = gen_integer_range(rng, 0, total);
    let mut so_far: u64 = 0;
    let mut k: usize = 0;
    loop
        invariant
            rng.wf(),
            k <= v@.len(),
            v@.len() <= usize::MAX,
            total == total_weight(v@),
            total > 0,
            so_far == prefix_weight(v@, k as int),
            so_far <= chosen < total,
            rng@ == sp_gen_range::<R>(
                old(rng)@,
                0,
                total_weight(v@) as u64,
                MAX_RANGE_DRAWS as nat,
            ).0,
            chosen == sp_gen_range::<R>(
                old(rng)@,
                0,
                total_weight(v@) as u64,
                MAX_RANGE_DRAWS as nat,
            ).1,
        decreases v@.len() - k,
    {
        proof {
            if k as int == v@.len() as int {
                assert(so_far == total_weight(v@));
                assert(false);
            }
            lemma_prefix_weight_monotonic(v@, k as int + 1, v@.len() as int);
            lemma_prefix_weight_nonneg(v@, k as int);
        }
        let w = v[k].weight as u64;
        if so_far + w > chosen {
            return Some(&v[k].item);
        }
        so_far = so_far + w;
        k = k + 1;
    }
}

/// Prefix sums of weights are never negative.
pub proof fn lemma_prefix_weight_nonneg<T>(v: Seq<Weighted<T>>, k: int)
    requires
        0 <= k <= v.len(),
    ensures
        prefix_weight(v, k) >= 0,
    decreases k,
{
    if k > 0 {
        lemma_prefix_weight_nonneg(v, k - 1);
    }
}

/// Choose an item respecting the relative weights; the weights must not
/// all be zero.
pub fn choose_weighted<'a, R: Rng, T>(rng: &mut R, v: &'a Vec<Weighted<T>>) -> (r: &'a T)
    requires
        old(rng).wf(),
        0 < total_weight(v@) <= u64::MAX,
    ensures
        final(rng).wf(),
        ({
            let (m2, chosen) = sp_gen_range::<R>(
                old(rng)@,
                0,
                total_weight(v@) as u64,
                MAX_RANGE_DRAWS as nat,
            );
            final(rng)@ == m2 && exists|idx: int|
                0 <= idx < v@.len() && prefix_weight(v@, idx) <= chosen < prefix_weight(
                    v@,
                    idx + 1,
                ) && r == &v@[idx].item
        }),
{
    let r = choose_weighted_option(rng, v);
    match r {
        Option::Some(p) => p,
        Option::None => {
            proof {
                assert(false);
            }
            unreached()
        },
    }
}

/// The items of the first `k` entries, each repeated its weight many
/// times, in order.
pub open spec fn sp_weighted_flat<T>(v: Seq<Weighted<T>>, k: int) -> Seq<T>
    recommends
        0 <= k <= v.len(),
    decreases k,
{
    if k <= 0 {
        Seq::empty()
    } else {
        sp_weighted_flat(v, k - 1) + Seq::new(v[k - 1].weight as nat, |i: int| v[k - 1].item)
    }
}

/// Return a vector holding copies of the items, in order, where the
/// weight of an item determines how many copies of it there are.
pub fn weighted_vec<T: Copy>(v: &Vec<Weighted<T>>) -> (r: Vec<T>)
    requires
        total_weight(v@) <= usize::MAX,
    ensures
        r@ == sp_weighted_flat(v@, v@.len() as int),
        r@.len() == total_weight(v@),
{
    let mut out: Vec<T> = Vec::new();
    let mut k: usize = 0;
    while k < v.len()
        invariant
            k <= v@.len(),
            out@ == sp_weighted_flat(v@, k as int),
            out@.len() == prefix_weight(v@, k as int),
            total_weight(v@) <= usize::MAX,
        decreases v@.len() - k,
    {
        proof {
            lemma_prefix_weight_monotonic(v@, k as int + 1, v@.len() as int);
            lemma_prefix_weight_nonneg(v@, k as int);
        }
        let w = v[k].weight;
        let item = v[k].item;
        let mut c: usize = 0;
        while c < w
            invariant
                c <= w,
                w == v@[k as int].weight,
                item == v@[k as int].item,
                k < v@.len(),
                out@ == sp_weighted_flat(v@, k as int) + Seq::new(c as nat, |i: int| item),
            decreases w - c,
        {
            out.push(item);
            proof {
                assert(out@ =~= sp_weighted_flat(v@, k as int) + Seq::new(
                    (c + 1) as nat,
                    |i: int| item,
                ));
            }
            c = c + 1;
        }
        k = k + 1;
    }
    out
}

/// A stream of random values: a generator packaged for walking.
pub struct RandIterator<R> {
    /// The random number generator used to generate the random values.
    pub rng: R,
}

impl<R: Rng> RandIterator<R> {
    /// Create a new `RandIterator` from a generator.
    pub fn new(rng: R) -> (r: RandIterator<R>)
        ensures
            r.rng == rng,
    {
        RandIterator { rng }
    }

    /// The next 32-bit value of the stream.
    pub fn next_value(&mut self) -> (r: u32)
        requires
            old(self).rng.wf(),
        ensures
            (final(self).rng@, r) == R::sp_next32(old(self).rng@),
            final(self).rng.wf(),
    {
        self.rng.next_u32()
    }
}


/// A random `i32`: one 32-bit step reinterpreted.
pub fn gen_i32<R: Rng>(rng: &mut R) -> (r: i32)
    requires
        old(rng).wf(),
    ensures
        final(rng)@ == R::sp_next32(old(rng)@).0,
        r == R::sp_next32(old(rng)@).1 as i32,
        final(rng).wf(),
{
    let x = rng.next_u32();
    x as i32
}

/// A random `i64`: one 64-bit step reinterpreted.
pub fn gen_i64<R: Rng>(rng: &mut R) -> (r: i64)
    requires
        old(rng).wf(),
    ensures
        final(rng)@ == R::sp_next64(old(rng)@).0,
        r == R::sp_next64(old(rng)@).1 as i64,
        final(rng).wf(),
{
    let x = rng.next_u64();
    x as i64
}

/// A random `i8`: the low byte of one 32-bit step reinterpreted.
pub fn gen_i8<R: Rng>(rng: &mut R) -> (r: i8)
    requires
        old(rng).wf(),
    ensures
        final(rng)@ == R::sp_next32(old(rng)@).0,
        r == (R::sp_next32(old(rng)@).1 & 0xFF) as u8 as i8,
        final(rng).wf(),
{
    let x = rng.next_u32();
    ((x & 0xFF) as u8) as i8
}

/// A random `i16`: the low two bytes of one 32-bit step reinterpreted.
pub fn gen_i16<R: Rng>(rng: &mut R) -> (r: i16)
    requires
        old(rng).wf(),
    ensures
        final(rng)@ == R::sp_next32(old(rng)@).0,
        r == (R::sp_next32(old(rng)@).1 & 0xFFFF) as u16 as i16,
        final(rng).wf(),
{
    let x = rng.next_u32();
    ((x & 0xFFFF) as u16) as i16
}

/// A random `usize`: a 64-bit step narrowed to the machine width.
pub fn gen_usize<R: Rng>(rng: &mut R) -> (r: usize)
    requires
        old(rng).wf(),
    ensures
        final(rng)@ == R::sp_next64(old(rng)@).0,
        r == R::sp_next64(old(rng)@).1 as usize,
        final(rng).wf(),
{
    let x = rng.next_u64();
    x as usize
}

} // verus!
