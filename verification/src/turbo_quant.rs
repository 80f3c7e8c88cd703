//! The Turbo4 block format: a fixed signed Walsh-Hadamard rotation of a head vector, followed by
//! scalar quantization of the rotated coefficients against sixteen fixed centroids.
//!
//! Rotating a head vector spreads its energy evenly over the coefficients, so that, once scaled by
//! the norm of the vector, they follow the one distribution that the centroids were tuned for. The
//! norm is kept beside the packed centroid indices and scales the vector back up.
//!
//! This module decides everything about the format that is not floating-point arithmetic: the
//! order of the butterflies, the signs, the centroid tables and the packing. A caller carries the
//! additions, products and comparisons of coefficients out in the precision that it works in.
use vstd::arithmetic::power2::pow2;
use vstd::prelude::*;

verus! {

/// Rotation group size: one block covers 128 coefficients of an attention head.
pub const GROUP: usize = 128;

/// The size of a block: a 16-bit norm and one nibble for each coefficient.
pub const BLOCK_TURBO4_BYTES: usize = 2 + GROUP / 2;

/// Butterflies in one Walsh-Hadamard transform of a group.
pub const BUTTERFLIES: usize = 448;

/// Bit `i` is set where the first sign vector negates coefficient `i`.
pub const WHT_SIGNS1: u128 = 0x49f250a9_a4c63bbb_42f85949_e46a0359;

/// Bit `i` is set where the second sign vector negates coefficient `i`.
pub const WHT_SIGNS2: u128 = 0xbea56562_b7a5357a_3f628fdc_16acee90;

/// The 4-bit Lloyd-Max centroids for a normal distribution of variance 1/128, in millionths.
pub const CENTROIDS_4BIT: [i32; 16] = [
    -241529,
    -182877,
    -143016,
    -111036,
    -83292,
    -58050,
    -34299,
    -11349,
    11349,
    34299,
    58050,
    83292,
    111036,
    143016,
    182877,
    241529,
];

/// The midpoints between neighbouring centroids, in millionths.
pub const MID_4BIT: [i32; 15] = [
    -212203,
    -162947,
    -127026,
    -97164,
    -70671,
    -46174,
    -22824,
    0,
    22824,
    46174,
    70671,
    97164,
    127026,
    162947,
    212203,
];

/// One quantized group: the bits of its half-precision norm, and 128 nibble-packed centroid
/// indices.
#[derive(Clone, Copy, Debug)]
pub struct BlockTurbo4 {
    pub norm: u16,
    pub qs: [u8; 64],
}

/// Whether a block holds a norm and, for each coefficient, the number of midpoints that it reaches.
pub open spec fn is_block_of(block: BlockTurbo4, norm: u16, at_least: Seq<[bool; 15]>) -> bool {
    &&& block.norm == norm
    &&& forall|b: int|
        0 <= b < 64 ==> #[trigger] block.qs@[b] == packed(
            count_true(at_least[2 * b]@) as u8,
            count_true(at_least[2 * b + 1]@) as u8,
        )
}

/// Whether values are the centroids that a block holds, in millionths.
pub open spec fn are_values_of(values: Seq<i32>, block: BlockTurbo4) -> bool {
    &&& values.len() == 128
    &&& forall|j: int|
        0 <= j < 128 ==> #[trigger] values[j] == CENTROIDS_4BIT@[nibble(block.qs@, j) as int]
}

/// The sign that a sign vector gives coefficient `i`.
pub open spec fn sign_of(negated: u128, i: int) -> int {
    if (negated >> (i as u128)) & 1 == 1 {
        -1
    } else {
        1
    }
}

/// The sign of coefficient `i` before the transform.
pub open spec fn sign1(i: int) -> int {
    sign_of(WHT_SIGNS1, i)
}

/// The sign of coefficient `i` after the transform.
pub open spec fn sign2(i: int) -> int {
    sign_of(WHT_SIGNS2, i)
}

/// The two coefficients that butterfly number `p` of the transform combines. Each of the seven
/// stages has 64 butterflies. Those of stage `s` pair coefficients that lie `2^s` apart, and run
/// through the pairs in ascending order.
pub open spec fn butterfly(p: int) -> (int, int) {
    let h = pow2((p / 64) as nat) as int;
    let k = p % 64;
    let j = (k / h) * (2 * h) + k % h;
    (j, j + h)
}

/// The number of flags that are set.
pub open spec fn count_true(flags: Seq<bool>) -> nat
    decreases flags.len(),
{
    if flags.len() == 0 {
        0
    } else {
        count_true(flags.drop_last()) + (if flags.last() {
            1nat
        } else {
            0nat
        })
    }
}

/// The centroid index that a packed sequence of nibbles holds for coefficient `j`.
pub open spec fn nibble(qs: Seq<u8>, j: int) -> u8 {
    if j % 2 == 0 {
        qs[j / 2] & 0xF
    } else {
        (qs[j / 2] >> 4) & 0xF
    }
}

/// The byte that packs two centroid indices, the first in the low nibble.
pub open spec fn packed(low: u8, high: u8) -> u8 {
    (low & 0xF) | ((high & 0xF) << 4)
}

/// Position of a butterfly in its stage.
proof fn lemma_butterfly(s: int, q: int, m: int)
    requires
        0 <= s < 7,
        0 <= q,
        0 <= m < pow2(s as nat),
        q * pow2(s as nat) + m < 64,
    ensures
        butterfly(64 * s + q * pow2(s as nat) + m) == (
            2 * (q * pow2(s as nat)) + m,
            2 * (q * pow2(s as nat)) + m + pow2(s as nat),
        ),
{
    lemma_strides();
    let h = pow2(s as nat) as int;
    let k = q * h + m;
    let p = 64 * s + k;
    assert(p / 64 == s && p % 64 == k);
    vstd::arithmetic::div_mod::lemma_fundamental_div_mod_converse(k, h, q, m);
    assert(q * (2 * h) == 2 * (q * h)) by (nonlinear_arith);
}

/// The distances that the stages pair coefficients over.
pub(crate) proof fn lemma_strides()
    ensures
        pow2(0) == 1,
        pow2(1) == 2,
        pow2(2) == 4,
        pow2(3) == 8,
        pow2(4) == 16,
        pow2(5) == 32,
        pow2(6) == 64,
        pow2(7) == 128,
{
    vstd::arithmetic::power2::lemma2_to64();
}

/// The butterflies of the Walsh-Hadamard transform in the order in which they apply: the transform
/// replaces each pair `(a, b)` of coefficients in turn by `(a + b, a - b)`.
pub fn fwht_128() -> (r: Vec<(usize, usize)>)
    ensures
        r@.len() == BUTTERFLIES,
        forall|p: int|
            0 <= p < BUTTERFLIES ==> (#[trigger] r@[p]).0 == butterfly(p).0 && r@[p].1 == butterfly(
                p,
            ).1,
        forall|p: int| 0 <= p < BUTTERFLIES ==> (#[trigger] r@[p]).0 < r@[p].1 < GROUP,
{
    let mut r: Vec<(usize, usize)> = Vec::new();
    let mut h: usize = 1;
    let ghost mut s: int = 0;
    proof {
        lemma_strides();
    }
    while h < GROUP
        invariant
            0 <= s <= 7,
            h == pow2(s as nat),
            r@.len() == 64 * s,
            forall|p: int|
                0 <= p < r@.len() ==> (#[trigger] r@[p]).0 == butterfly(p).0 && r@[p].1
                    == butterfly(p).1 && r@[p].0 < r@[p].1 < GROUP,
        decreases GROUP - h,
    {
        proof {
            lemma_strides();
        }
        let mut i: usize = 0;
        let ghost mut q: int = 0;
        while i < GROUP
            invariant
                0 <= s < 7,
                h == pow2(s as nat),
                h == 1 || h == 2 || h == 4 || h == 8 || h == 16 || h == 32 || h == 64,
                0 <= q,
                i == 2 * (q * h),
                i <= GROUP,
                i % (2 * h) as usize == 0,
                r@.len() == 64 * s + q * h,
                forall|p: int|
                    0 <= p < r@.len() ==> (#[trigger] r@[p]).0 == butterfly(p).0 && r@[p].1
                        == butterfly(p).1 && r@[p].0 < r@[p].1 < GROUP,
            decreases GROUP - i,
        {
            assert(i + 2 * h <= GROUP);
            let mut j: usize = i;
            while j < i + h
                invariant
                    0 <= s < 7,
                    h == pow2(s as nat),
                    0 <= q,
                    i == 2 * (q * h),
                    i <= j <= i + h,
                    i + 2 * h <= GROUP,
                    r@.len() == 64 * s + q * h + (j - i),
                    forall|p: int|
                        0 <= p < r@.len() ==> (#[trigger] r@[p]).0 == butterfly(p).0 && r@[p].1
                            == butterfly(p).1 && r@[p].0 < r@[p].1 < GROUP,
                decreases i + h - j,
            {
                proof {
                    lemma_butterfly(s, q, j - i);
                }
                r.push((j, j + h));
                j += 1;
            }
            assert((q + 1) * h == q * h + h) by (nonlinear_arith);
            i += h * 2;
            proof {
                q = q + 1;
            }
        }
        assert(q * h == 64);
        h *= 2;
        proof {
            s = s + 1;
        }
    }
    r
}

/// The sign of coefficient `i` before the transform of a rotation, and after that of its inverse.
pub fn wht_sign1(i: usize) -> (r: i8)
    requires
        i < GROUP,
    ensures
        r == sign1(i as int),
{
    if (WHT_SIGNS1 >> (i as u128)) & 1 == 1 {
        -1
    } else {
        1
    }
}

/// The sign of coefficient `i` after the transform of a rotation, and before that of its inverse.
pub fn wht_sign2(i: usize) -> (r: i8)
    requires
        i < GROUP,
    ensures
        r == sign2(i as int),
{
    if (WHT_SIGNS2 >> (i as u128)) & 1 == 1 {
        -1
    } else {
        1
    }
}

/// Flags beyond a prefix only add to the count.
proof fn lemma_count_true_prefix(flags: Seq<bool>, i: int)
    requires
        0 <= i <= flags.len(),
    ensures
        count_true(flags.take(i)) <= count_true(flags) <= flags.len(),
    decreases flags.len(),
{
    if i == flags.len() {
        assert(flags.take(i) =~= flags);
        if flags.len() > 0 {
            lemma_count_true_prefix(flags.drop_last(), i - 1);
        }
    } else {
        lemma_count_true_prefix(flags.drop_last(), i);
        assert(flags.drop_last().take(i) =~= flags.take(i));
    }
}

/// Index of the nearest centroid of a coefficient, given for each of the ascending midpoints
/// between consecutive centroids whether the coefficient is at least that large.
pub fn nearest_centroid(at_least: &[bool]) -> (r: u8)
    requires
        count_true(at_least@) < 256,
    ensures
        r == count_true(at_least@),
{
    let mut r: u8 = 0;
    let mut i: usize = 0;
    assert(at_least@.take(0) =~= Seq::<bool>::empty());
    while i < at_least.len()
        invariant
            i <= at_least@.len(),
            r == count_true(at_least@.take(i as int)),
            count_true(at_least@) < 256,
        decreases at_least@.len() - i,
    {
        proof {
            let next = at_least@.take(i + 1);
            assert(next.drop_last() =~= at_least@.take(i as int));
            lemma_count_true_prefix(at_least@, i + 1);
        }
        if at_least[i] {
            r += 1;
        }
        i += 1;
    }
    assert(at_least@.take(at_least@.len() as int) =~= at_least@);
    r
}

/// Packs one rotated group. `norm` holds the bits of its half-precision norm, and `at_least[j]`
/// says of each midpoint whether coefficient `j`, divided by the norm, is at least that large.
pub fn quantize_turbo4(norm: u16, at_least: &[[bool; 15]; 128]) -> (r: BlockTurbo4)
    ensures
        is_block_of(r, norm, at_least@),
        r.norm == norm,
        forall|b: int|
            0 <= b < 64 ==> #[trigger] r.qs@[b] == packed(
                count_true(at_least@[2 * b]@) as u8,
                count_true(at_least@[2 * b + 1]@) as u8,
            ),
{
    let mut qs = [0u8; 64];
    let mut j: usize = 0;
    while j < GROUP
        invariant
            j <= GROUP,
            forall|b: int|
                0 <= b < 64 && 2 * b + 1 < j ==> #[trigger] qs@[b] == packed(
                    count_true(at_least@[2 * b]@) as u8,
                    count_true(at_least@[2 * b + 1]@) as u8,
                ),
            j % 2 == 1 ==> qs@[(j / 2) as int] == packed(
                count_true(at_least@[j - 1]@) as u8,
                0u8,
            ),
            forall|b: int| 0 <= b < 64 && j <= 2 * b ==> #[trigger] qs@[b] == 0,
        decreases GROUP - j,
    {
        proof {
            lemma_count_true_prefix(at_least@[j as int]@, 15);
        }
        let idx: u8 = nearest_centroid(at_least[j].as_slice());
        let byte: u8 = qs[j / 2];
        if j % 2 == 0 {
            proof {
                assert(0u8 | (idx & 0xF) == (idx & 0xF) | ((0u8 & 0xF) << 4)) by (bit_vector);
            }
            qs[j / 2] = byte | (idx & 0xF);
        } else {
            proof {
                let low = count_true(at_least@[j - 1]@) as u8;
                assert(((low & 0xF) | ((0u8 & 0xF) << 4)) | ((idx & 0xF) << 4) == (low & 0xF) | ((
                idx & 0xF) << 4)) by (bit_vector);
            }
            qs[j / 2] = byte | ((idx & 0xF) << 4);
        }
        j += 1;
    }
    BlockTurbo4 { norm, qs }
}

/// Unpacks a block: for each coefficient its centroid in millionths. Scaled by the norm, they are
/// the group, still rotated.
pub fn dequantize_turbo4(block: &BlockTurbo4) -> (r: [i32; 128])
    ensures
        are_values_of(r@, *block),
        forall|j: int|
            0 <= j < 128 ==> #[trigger] r@[j] == CENTROIDS_4BIT@[nibble(block.qs@, j) as int],
{
    let mut out = [0i32; 128];
    let mut j: usize = 0;
    while j < GROUP
        invariant
            j <= GROUP,
            forall|i: int|
                0 <= i < j ==> #[trigger] out@[i] == CENTROIDS_4BIT@[nibble(block.qs@, i) as int],
        decreases GROUP - j,
    {
        let byte: u8 = block.qs[j / 2];
        let idx: u8 = if j % 2 == 0 {
            byte & 0xF
        } else {
            (byte >> 4) & 0xF
        };
        assert(byte & 0xF < 16 && (byte >> 4) & 0xF < 16) by (bit_vector);
        out[j] = CENTROIDS_4BIT[idx as usize];
        j += 1;
    }
    out
}

/// The distance between two numbers.
pub open spec fn distance(a: int, b: int) -> int {
    if a <= b {
        b - a
    } else {
        a - b
    }
}

/// A run of set flags at the front is counted in full.
proof fn lemma_count_true_run(flags: Seq<bool>, n: int)
    requires
        0 <= n <= flags.len(),
        forall|i: int| 0 <= i < flags.len() ==> (#[trigger] flags[i] <==> i < n),
    ensures
        count_true(flags) == n,
    decreases flags.len(),
{
    if flags.len() > 0 {
        let front = flags.drop_last();
        assert forall|i: int| 0 <= i < front.len() implies (#[trigger] front[i] <==> i < n) by {
            assert(front[i] == flags[i]);
        }
        if n == flags.len() {
            lemma_count_true_run(front, n - 1);
        } else {
            lemma_count_true_run(front, n);
        }
    }
}

/// The tables ascend, and each midpoint is half the sum of its two centroids but for half a
/// millionth.
proof fn lemma_tables(i: int, j: int)
    requires
        0 <= i <= j < 16,
    ensures
        CENTROIDS_4BIT@[i] <= CENTROIDS_4BIT@[j],
        j < 15 ==> MID_4BIT@[i] <= MID_4BIT@[j],
        j < 15 ==> CENTROIDS_4BIT@[j] < MID_4BIT@[j] < CENTROIDS_4BIT@[j + 1],
        j < 15 ==> distance(2 * MID_4BIT@[j], CENTROIDS_4BIT@[j] + CENTROIDS_4BIT@[j + 1]) <= 1,
{
}

/// Short of the midpoint above a centroid, that centroid is nearer than any above it, but for one
/// millionth.
proof fn lemma_nearer_than_above(p: int, q: int, c: int, next: int, mid: int, d: int)
    by (nonlinear_arith)
    requires
        q > 0,
        c < mid < next <= d,
        2 * mid <= c + next + 1,
        p < mid * q,
    ensures
        p <= d * q,
        p - c * q <= (d * q - p) + q,
        c * q - p <= d * q - p,
{
}

/// From the midpoint below a centroid on, that centroid is nearer than any below it, but for one
/// millionth.
proof fn lemma_nearer_than_below(p: int, q: int, c: int, previous: int, mid: int, d: int)
    by (nonlinear_arith)
    requires
        q > 0,
        d <= previous < mid < c,
        2 * mid >= c + previous - 1,
        p >= mid * q,
    ensures
        p >= d * q,
        c * q - p <= (p - d * q) + q,
        p - c * q <= p - d * q,
{
}

/// The midpoints between which `p / q` millionths lie, of those from `i` on.
proof fn lemma_bucket(p: int, q: int, i: int) -> (n: int)
    requires
        0 <= i <= 15,
        i > 0 ==> MID_4BIT@[i - 1] * q <= p,
    ensures
        i <= n <= 15,
        n > 0 ==> MID_4BIT@[n - 1] * q <= p,
        n < 15 ==> p < MID_4BIT@[n] * q,
    decreases 15 - i,
{
    if i == 15 || p < MID_4BIT@[i] * q {
        i
    } else {
        lemma_bucket(p, q, i + 1)
    }
}

/// Counting the midpoints that a coefficient reaches gives the index of the nearest centroid. The
/// coefficient is `p / q` millionths, and distances are taken `q` times as long. The midpoints are
/// rounded to millionths, so a centroid that is up to a millionth nearer may be missed.
pub proof fn lemma_nearest_centroid_is_nearest(p: int, q: int, at_least: Seq<bool>, k: int)
    requires
        q > 0,
        at_least.len() == 15,
        forall|m: int| 0 <= m < 15 ==> (#[trigger] at_least[m] <==> MID_4BIT@[m] * q <= p),
        0 <= k < 16,
    ensures
        count_true(at_least) < 16,
        distance(p, CENTROIDS_4BIT@[count_true(at_least) as int] * q) <= distance(
            p,
            CENTROIDS_4BIT@[k] * q,
        ) + q,
{
    let n = lemma_bucket(p, q, 0);
    assert forall|m: int| 0 <= m < 15 implies (#[trigger] at_least[m] <==> m < n) by {
        if m < n {
            lemma_tables(m, n - 1);
            vstd::arithmetic::mul::lemma_mul_inequality(
                MID_4BIT@[m] as int,
                MID_4BIT@[n - 1] as int,
                q,
            );
        } else {
            lemma_tables(n, m);
            vstd::arithmetic::mul::lemma_mul_inequality(
                MID_4BIT@[n] as int,
                MID_4BIT@[m] as int,
                q,
            );
        }
    }
    lemma_count_true_run(at_least, n);
    let c = CENTROIDS_4BIT@[n] as int;
    let d = CENTROIDS_4BIT@[k] as int;
    if n < k {
        lemma_tables(n, n);
        lemma_tables(n + 1, k);
        lemma_nearer_than_above(
            p,
            q,
            c,
            CENTROIDS_4BIT@[n + 1] as int,
            MID_4BIT@[n] as int,
            d,
        );
    } else if k < n {
        lemma_tables(n - 1, n - 1);
        lemma_tables(k, n - 1);
        lemma_nearer_than_below(
            p,
            q,
            c,
            CENTROIDS_4BIT@[n - 1] as int,
            MID_4BIT@[n - 1] as int,
            d,
        );
    }
}

/// The centroids and the midpoints ascend, and each midpoint lies between its two centroids.
pub proof fn lemma_tables_ascend(i: int)
    requires
        0 <= i < 15,
    ensures
        CENTROIDS_4BIT@[i] < MID_4BIT@[i] < CENTROIDS_4BIT@[i + 1],
{
}

/// The nibbles of a packed byte are the two indices that went in.
proof fn lemma_packed(low: u8, high: u8)
    ensures
        packed(low, high) & 0xF == low & 0xF,
        (packed(low, high) >> 4) & 0xF == high & 0xF,
{
    assert(((low & 0xF) | ((high & 0xF) << 4)) & 0xF == low & 0xF) by (bit_vector);
    assert((((low & 0xF) | ((high & 0xF) << 4)) >> 4) & 0xF == high & 0xF) by (bit_vector);
}

/// A block gives every centroid index back that was packed into it.
pub proof fn lemma_unpacking_undoes_packing(at_least: Seq<Seq<bool>>, qs: Seq<u8>, j: int)
    requires
        at_least.len() == 128,
        qs.len() == 64,
        forall|i: int| 0 <= i < 128 ==> (#[trigger] at_least[i]).len() == 15,
        forall|b: int|
            0 <= b < 64 ==> #[trigger] qs[b] == packed(
                count_true(at_least[2 * b]) as u8,
                count_true(at_least[2 * b + 1]) as u8,
            ),
        0 <= j < 128,
    ensures
        nibble(qs, j) == count_true(at_least[j]),
{
    let b = j / 2;
    let low = count_true(at_least[2 * b]) as u8;
    let high = count_true(at_least[2 * b + 1]) as u8;
    assert(qs[b] == packed(low, high));
    lemma_packed(low, high);
    lemma_count_true_prefix(at_least[2 * b], 0);
    lemma_count_true_prefix(at_least[2 * b + 1], 0);
    assert(low & 0xF == low) by (bit_vector)
        requires
            low < 16,
    ;
    assert(high & 0xF == high) by (bit_vector)
        requires
            high < 16,
    ;
}

/// Packing the indices that a byte holds gives the byte back.
pub proof fn lemma_packing_undoes_unpacking(qs: Seq<u8>, b: int)
    requires
        0 <= b < qs.len(),
    ensures
        packed(nibble(qs, 2 * b), nibble(qs, 2 * b + 1)) == qs[b],
{
    let byte = qs[b];
    assert((2 * b) / 2 == b && (2 * b + 1) / 2 == b);
    assert(((byte & 0xF) & 0xF) | ((((byte >> 4) & 0xF) & 0xF) << 4) == byte) by (bit_vector);
}

/// Reading a block gives back, for every coefficient that went in, a centroid that is nearest to
/// it but for one millionth. Coefficient `i` is `values[i] / q` millionths of the norm.
pub proof fn lemma_block_holds_nearest_centroids(
    values: Seq<int>,
    q: int,
    at_least: Seq<Seq<bool>>,
    qs: Seq<u8>,
    j: int,
    k: int,
)
    requires
        q > 0,
        values.len() == 128,
        at_least.len() == 128,
        qs.len() == 64,
        forall|i: int| 0 <= i < 128 ==> (#[trigger] at_least[i]).len() == 15,
        forall|i: int, m: int|
            0 <= i < 128 && 0 <= m < 15 ==> (#[trigger] at_least[i][m] <==> MID_4BIT@[m] * q
                <= values[i]),
        forall|b: int|
            0 <= b < 64 ==> #[trigger] qs[b] == packed(
                count_true(at_least[2 * b]) as u8,
                count_true(at_least[2 * b + 1]) as u8,
            ),
        0 <= j < 128,
        0 <= k < 16,
    ensures
        distance(values[j], CENTROIDS_4BIT@[nibble(qs, j) as int] * q) <= distance(
            values[j],
            CENTROIDS_4BIT@[k] * q,
        ) + q,
{
    lemma_unpacking_undoes_packing(at_least, qs, j);
    lemma_nearest_centroid_is_nearest(values[j], q, at_least[j], k);
}

/// Flags are counted one by one.
pub proof fn lemma_flags_are_counted(flags: Seq<bool>, flag: bool)
    ensures
        count_true(Seq::<bool>::empty()) == 0,
        count_true(flags.push(flag)) == count_true(flags) + (if flag {
            1int
        } else {
            0int
        }),
        count_true(flags) <= flags.len(),
{
    assert(flags.push(flag).drop_last() =~= flags);
    lemma_count_true_prefix(flags, 0);
    lemma_count_at_most(flags);
}

/// No more flags are set than there are.
proof fn lemma_count_at_most(flags: Seq<bool>)
    ensures
        count_true(flags) <= flags.len(),
    decreases flags.len(),
{
    if flags.len() > 0 {
        lemma_count_at_most(flags.drop_last());
    }
}

/// The two indices of a byte are its remainder and its quotient by sixteen.
pub proof fn lemma_nibbles_are_hex_digits(qs: Seq<u8>, b: int)
    requires
        0 <= b < qs.len(),
    ensures
        nibble(qs, 2 * b) == qs[b] % 16,
        nibble(qs, 2 * b + 1) == qs[b] / 16,
{
    let byte = qs[b];
    assert((2 * b) / 2 == b && (2 * b + 1) / 2 == b);
    assert(byte & 0xF == byte % 16) by (bit_vector);
    assert((byte >> 4) & 0xF == byte / 16) by (bit_vector);
}

/// Two indices below sixteen pack into the number whose hexadecimal digits they are.
pub proof fn lemma_packed_in_hex(low: u8, high: u8)
    requires
        low < 16,
        high < 16,
    ensures
        packed(low, high) == low + 16 * high,
{
    assert((low & 0xF) | ((high & 0xF) << 4) == low + 16 * high) by (bit_vector)
        requires
            low < 16,
            high < 16,
    ;
}

/// A block holds, as hexadecimal digits in pairs with the first of a pair last, how many midpoints
/// each coefficient reaches, and the norm beside them.
pub proof fn lemma_blocks_hold_counts(
    block: BlockTurbo4,
    norm: u16,
    at_least: Seq<[bool; 15]>,
    b: int,
)
    requires
        is_block_of(block, norm, at_least),
        0 <= b < 64,
    ensures
        block.norm == norm,
        block.qs@[b] % 16 == count_true(at_least[2 * b]@),
        block.qs@[b] / 16 == count_true(at_least[2 * b + 1]@),
{
    lemma_count_at_most(at_least[2 * b]@);
    lemma_count_at_most(at_least[2 * b + 1]@);
    let low = count_true(at_least[2 * b]@) as u8;
    let high = count_true(at_least[2 * b + 1]@) as u8;
    assert(block.qs@[b] == packed(low, high));
    lemma_packed_in_hex(low, high);
}

/// The values of a block: coefficient by coefficient the centroid of its hexadecimal digit.
pub proof fn lemma_values_of_blocks(values: Seq<i32>, block: BlockTurbo4, b: int)
    requires
        are_values_of(values, block),
        0 <= b < 64,
    ensures
        values[2 * b] == CENTROIDS_4BIT@[block.qs@[b] as int % 16],
        values[2 * b + 1] == CENTROIDS_4BIT@[block.qs@[b] as int / 16],
{
    lemma_nibbles_are_hex_digits(block.qs@, b);
    assert(values[2 * b] == CENTROIDS_4BIT@[nibble(block.qs@, 2 * b) as int]);
    assert(values[2 * b + 1] == CENTROIDS_4BIT@[nibble(block.qs@, 2 * b + 1) as int]);
}

/// Reading a block that was written gives each coefficient the centroid of the number of midpoints
/// that it reached.
pub proof fn lemma_values_of_written_blocks(
    values: Seq<i32>,
    block: BlockTurbo4,
    norm: u16,
    at_least: Seq<[bool; 15]>,
    j: int,
)
    requires
        is_block_of(block, norm, at_least),
        are_values_of(values, block),
        0 <= j < 128,
    ensures
        values[j] == CENTROIDS_4BIT@[count_true(at_least[j]@) as int],
{
    let b = j / 2;
    lemma_blocks_hold_counts(block, norm, at_least, b);
    lemma_values_of_blocks(values, block, b);
}

/// The signs of the first sign vector, coefficient by coefficient.
pub proof fn lemma_sign1_vector(i: int)
    requires
        0 <= i < 128,
    ensures
        sign1(i) == (if "-++--+-+--+++++++-+-+--+++-++----++-++-+-++--+-++++-----+-++++-+--+---+---+---+++--+++--++-++-+--++-+-+-++++-+-++-++-----++-++-+"@[i]
            == '-' {
            -1int
        } else {
            1int
        }),
{
    reveal_strlit("-++--+-+--+++++++-+-+--+++-++----++-++-+-++--+-++++-----+-++++-+--+---+---+---+++--+++--++-++-+--++-+-+-++++-+-++-++-----++-++-+");
    let n = i as u128;
    let m = WHT_SIGNS1;
    assert((m >> n) & 1 == 1 ==> (
        n == 0 || n == 3 || n == 4 || n == 6 || n == 8 || n == 9 || n == 17 || n == 19 ||
        n == 21 || n == 22 || n == 26 || n == 29 || n == 30 || n == 31 || n == 32 || n == 35 ||
        n == 38 || n == 40 || n == 43 || n == 44 || n == 46 || n == 51 || n == 52 || n == 53 ||
        n == 54 || n == 55 || n == 57 || n == 62 || n == 64 || n == 65 || n == 67 || n == 68 ||
        n == 69 || n == 71 || n == 72 || n == 73 || n == 75 || n == 76 || n == 77 || n == 81 ||
        n == 82 || n == 86 || n == 87 || n == 90 || n == 93 || n == 95 || n == 96 || n == 99 ||
        n == 101 || n == 103 || n == 108 || n == 110 || n == 113 || n == 116 || n == 117 ||
        n == 118 || n == 119 || n == 120 || n == 123 || n == 126
    )) by (bit_vector)
        requires
            n < 128,
            m == 0x49f250a9_a4c63bbb_42f85949_e46a0359u128,
    ;
    assert((m >> n) & 1 != 1 ==> (
        n == 1 || n == 2 || n == 5 || n == 7 || n == 10 || n == 11 || n == 12 || n == 13 ||
        n == 14 || n == 15 || n == 16 || n == 18 || n == 20 || n == 23 || n == 24 || n == 25 ||
        n == 27 || n == 28 || n == 33 || n == 34 || n == 36 || n == 37 || n == 39 || n == 41 ||
        n == 42 || n == 45 || n == 47 || n == 48 || n == 49 || n == 50 || n == 56 || n == 58 ||
        n == 59 || n == 60 || n == 61 || n == 63 || n == 66 || n == 70 || n == 74 || n == 78 ||
        n == 79 || n == 80 || n == 83 || n == 84 || n == 85 || n == 88 || n == 89 || n == 91 ||
        n == 92 || n == 94 || n == 97 || n == 98 || n == 100 || n == 102 || n == 104 ||
        n == 105 || n == 106 || n == 107 || n == 109 || n == 111 || n == 112 || n == 114 ||
        n == 115 || n == 121 || n == 122 || n == 124 || n == 125 || n == 127
    )) by (bit_vector)
        requires
            n < 128,
            m == 0x49f250a9_a4c63bbb_42f85949_e46a0359u128,
    ;
}

/// The signs of the second sign vector, coefficient by coefficient.
pub proof fn lemma_sign2_vector(i: int)
    requires
        0 <= i < 128,
    ensures
        sign2(i) == (if "++++-++-+---+---++--+-+-+--+-+++++---+------+++-+-+++--+------+++-+----+-+-+--++-+-++-+----+--+-+-+++--+-+-++--+-+-++-+-+-----+-"@[i]
            == '-' {
            -1int
        } else {
            1int
        }),
{
    reveal_strlit("++++-++-+---+---++--+-+-+--+-+++++---+------+++-+-+++--+------+++-+----+-+-+--++-+-++-+----+--+-+-+++--+-+-++--+-+-++-+-+-----+-");
    let n = i as u128;
    let m = WHT_SIGNS2;
    assert((m >> n) & 1 == 1 ==> (
        n == 4 || n == 7 || n == 9 || n == 10 || n == 11 || n == 13 || n == 14 || n == 15 ||
        n == 18 || n == 19 || n == 21 || n == 23 || n == 25 || n == 26 || n == 28 || n == 34 ||
        n == 35 || n == 36 || n == 38 || n == 39 || n == 40 || n == 41 || n == 42 || n == 43 ||
        n == 47 || n == 49 || n == 53 || n == 54 || n == 56 || n == 57 || n == 58 || n == 59 ||
        n == 60 || n == 61 || n == 65 || n == 67 || n == 68 || n == 69 || n == 70 || n == 72 ||
        n == 74 || n == 76 || n == 77 || n == 80 || n == 82 || n == 85 || n == 87 || n == 88 ||
        n == 89 || n == 90 || n == 92 || n == 93 || n == 95 || n == 97 || n == 101 || n == 102 ||
        n == 104 || n == 106 || n == 109 || n == 110 || n == 112 || n == 114 || n == 117 ||
        n == 119 || n == 121 || n == 122 || n == 123 || n == 124 || n == 125 || n == 127
    )) by (bit_vector)
        requires
            n < 128,
            m == 0xbea56562_b7a5357a_3f628fdc_16acee90u128,
    ;
    assert((m >> n) & 1 != 1 ==> (
        n == 0 || n == 1 || n == 2 || n == 3 || n == 5 || n == 6 || n == 8 || n == 12 ||
        n == 16 || n == 17 || n == 20 || n == 22 || n == 24 || n == 27 || n == 29 || n == 30 ||
        n == 31 || n == 32 || n == 33 || n == 37 || n == 44 || n == 45 || n == 46 || n == 48 ||
        n == 50 || n == 51 || n == 52 || n == 55 || n == 62 || n == 63 || n == 64 || n == 66 ||
        n == 71 || n == 73 || n == 75 || n == 78 || n == 79 || n == 81 || n == 83 || n == 84 ||
        n == 86 || n == 91 || n == 94 || n == 96 || n == 98 || n == 99 || n == 100 || n == 103 ||
        n == 105 || n == 107 || n == 108 || n == 111 || n == 113 || n == 115 || n == 116 ||
        n == 118 || n == 120 || n == 126
    )) by (bit_vector)
        requires
            n < 128,
            m == 0xbea56562_b7a5357a_3f628fdc_16acee90u128,
    ;
}

/// The centroids and the midpoints lie on both sides of zero alike, at these places on the upper one.
pub proof fn lemma_tables_are_symmetric(i: int)
    requires
        0 <= i < 16,
    ensures
        CENTROIDS_4BIT@[15 - i] == -CENTROIDS_4BIT@[i],
        i < 15 ==> MID_4BIT@[14 - i] == -MID_4BIT@[i],
        CENTROIDS_4BIT@.skip(8) == seq![
            11349i32,
            34299,
            58050,
            83292,
            111036,
            143016,
            182877,
            241529,
        ],
        MID_4BIT@.skip(7) == seq![0i32, 22824, 46174, 70671, 97164, 127026, 162947, 212203],
{
}

/// The butterflies of a stage pair all coefficients that lie `2^s` apart in blocks of twice as many,
/// in ascending order.
pub proof fn lemma_butterflies_of_a_stage(s: int, k: int, l: int)
    requires
        0 <= s < 7,
        0 <= k < 64,
        0 <= l < 64,
    ensures
        ({
            let h = pow2(s as nat) as int;
            let (lo, hi) = butterfly(64 * s + k);
            &&& 0 <= lo < hi < 128
            &&& hi == lo + h
            &&& (lo / h) % 2 == 0
            &&& k < l ==> lo < butterfly(64 * s + l).0
        }),
{
    lemma_strides();
    assert((64 * s + k) / 64 == s && (64 * s + k) % 64 == k);
    assert((64 * s + l) / 64 == s && (64 * s + l) % 64 == l);
    if s == 0 {
        assert(pow2(s as nat) == 1);
        assert(butterfly(64 * s + k).0 == (k / 1) * 2 + k % 1);
        assert(butterfly(64 * s + l).0 == (l / 1) * 2 + l % 1);
    } else if s == 1 {
        assert(pow2(s as nat) == 2);
        assert(butterfly(64 * s + k).0 == (k / 2) * 4 + k % 2);
        assert(butterfly(64 * s + l).0 == (l / 2) * 4 + l % 2);
    } else if s == 2 {
        assert(pow2(s as nat) == 4);
        assert(butterfly(64 * s + k).0 == (k / 4) * 8 + k % 4);
        assert(butterfly(64 * s + l).0 == (l / 4) * 8 + l % 4);
    } else if s == 3 {
        assert(pow2(s as nat) == 8);
        assert(butterfly(64 * s + k).0 == (k / 8) * 16 + k % 8);
        assert(butterfly(64 * s + l).0 == (l / 8) * 16 + l % 8);
    } else if s == 4 {
        assert(pow2(s as nat) == 16);
        assert(butterfly(64 * s + k).0 == (k / 16) * 32 + k % 16);
        assert(butterfly(64 * s + l).0 == (l / 16) * 32 + l % 16);
    } else if s == 5 {
        assert(pow2(s as nat) == 32);
        assert(butterfly(64 * s + k).0 == (k / 32) * 64 + k % 32);
        assert(butterfly(64 * s + l).0 == (l / 32) * 64 + l % 32);
    } else {
        assert(pow2(s as nat) == 64);
        assert(butterfly(64 * s + k).0 == (k / 64) * 128 + k % 64);
        assert(butterfly(64 * s + l).0 == (l / 64) * 128 + l % 64);
    }
}

} // verus!
