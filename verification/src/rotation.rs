//! The rotation: its steps in order, and what they come to in exact arithmetic.
//!
//! A caller carries the steps out in the precision that it works in. In exact arithmetic the
//! transform leaves out its scale of `1/sqrt(128)`, so that it maps whole numbers to whole numbers.
//! Undone, a rotation then gives the vector back 128 times as long.
use crate::turbo_quant::{
    BUTTERFLIES, GROUP, butterfly, fwht_128, lemma_butterflies_of_a_stage,
    lemma_strides, sign1, sign2, wht_sign1, wht_sign2,
};
use vstd::arithmetic::div_mod::{
    lemma_div_denominator, lemma_fundamental_div_mod, lemma_fundamental_div_mod_converse,
    lemma_hoist_over_denominator,
};
use vstd::arithmetic::mul::lemma_mul_is_commutative;
use vstd::arithmetic::power2::pow2;
use vstd::prelude::*;

verus! {

/// One step of a rotation.
#[derive(Clone, Copy, Debug, PartialEq, Eq, Structural)]
pub enum Step {
    /// Multiplies coefficient `i` by `sign`.
    Sign { i: usize, sign: i8 },
    /// Replaces coefficient `lo` by the sum of the two, and coefficient `hi` by `lo` less `hi`.
    Butterfly { lo: usize, hi: usize },
    /// Multiplies coefficient `i` by `1/sqrt(128)`.
    Scale { i: usize },
}

/// Combines the two coefficients of a butterfly.
pub open spec fn apply_butterfly(x: Seq<int>, pair: (int, int)) -> Seq<int> {
    x.update(pair.0, x[pair.0] + x[pair.1]).update(pair.1, x[pair.0] - x[pair.1])
}

/// The first `n` butterflies of the transform, applied in turn.
pub open spec fn apply_butterflies(x: Seq<int>, n: nat) -> Seq<int>
    decreases n,
{
    if n == 0 {
        x
    } else {
        apply_butterfly(apply_butterflies(x, (n - 1) as nat), butterfly(n - 1))
    }
}

/// The Walsh-Hadamard transform of a group.
pub open spec fn transformed(x: Seq<int>) -> Seq<int> {
    apply_butterflies(x, 448)
}

/// A group with the first sign vector applied.
pub open spec fn with_signs1(x: Seq<int>) -> Seq<int> {
    Seq::new(128, |i: int| sign1(i) * x[i])
}

/// A group with the second sign vector applied.
pub open spec fn with_signs2(x: Seq<int>) -> Seq<int> {
    Seq::new(128, |i: int| sign2(i) * x[i])
}

/// The rotation: first signs, transform, second signs.
pub open spec fn rotated_forward(x: Seq<int>) -> Seq<int> {
    with_signs2(transformed(with_signs1(x)))
}

/// The rotation undone: second signs, transform, first signs.
pub open spec fn rotated_inverse(x: Seq<int>) -> Seq<int> {
    with_signs1(transformed(with_signs2(x)))
}

/// A group with every coefficient multiplied by `c`.
pub open spec fn scaled(x: Seq<int>, c: int) -> Seq<int> {
    Seq::new(128, |i: int| c * x[i])
}

/// The steps that apply the first sign vector.
pub open spec fn sign1_steps() -> Seq<Step> {
    Seq::new(128, |i: int| Step::Sign { i: i as usize, sign: sign1(i) as i8 })
}

/// The steps that apply the second sign vector.
pub open spec fn sign2_steps() -> Seq<Step> {
    Seq::new(128, |i: int| Step::Sign { i: i as usize, sign: sign2(i) as i8 })
}

/// The butterflies of the transform.
pub open spec fn butterfly_steps() -> Seq<Step> {
    Seq::new(
        448,
        |p: int|
            Step::Butterfly { lo: butterfly(p).0 as usize, hi: butterfly(p).1 as usize },
    )
}

/// The steps that scale each coefficient once.
pub open spec fn scale_steps() -> Seq<Step> {
    Seq::new(128, |i: int| Step::Scale { i: i as usize })
}

/// The steps of the transform.
pub open spec fn transform_steps() -> Seq<Step> {
    butterfly_steps() + scale_steps()
}

/// The steps of the rotation: first signs, transform, second signs.
pub open spec fn forward_steps() -> Seq<Step> {
    sign1_steps() + transform_steps() + sign2_steps()
}

/// The steps of the inverse rotation: second signs, transform, first signs.
pub open spec fn inverse_steps() -> Seq<Step> {
    sign2_steps() + transform_steps() + sign1_steps()
}

/// What a step makes of a group in exact arithmetic, which leaves the scale out.
pub open spec fn step_applied(x: Seq<int>, step: Step) -> Seq<int> {
    match step {
        Step::Sign { i, sign } => x.update(i as int, sign * x[i as int]),
        Step::Butterfly { lo, hi } => apply_butterfly(x, (lo as int, hi as int)),
        Step::Scale { .. } => x,
    }
}

/// What steps make of a group, one after the other.
pub open spec fn steps_applied(x: Seq<int>, steps: Seq<Step>) -> Seq<int>
    decreases steps.len(),
{
    if steps.len() == 0 {
        x
    } else {
        step_applied(steps_applied(x, steps.drop_last()), steps.last())
    }
}

/// The sum of `a` times one group and `b` times another.
pub open spec fn combined(a: int, x: Seq<int>, b: int, y: Seq<int>) -> Seq<int> {
    Seq::new(128, |i: int| a * x[i] + b * y[i])
}

/// The sum of a sequence.
pub open spec fn total(s: Seq<int>) -> int
    decreases s.len(),
{
    if s.len() == 0 {
        0
    } else {
        total(s.drop_last()) + s.last()
    }
}

/// The inner product of two groups.
pub open spec fn inner(x: Seq<int>, y: Seq<int>) -> int {
    total(Seq::new(128, |i: int| x[i] * y[i]))
}

/// Whether `h` is the distance of one of the stages.
spec fn is_stride(h: int) -> bool {
    h == 1 || h == 2 || h == 4 || h == 8 || h == 16 || h == 32 || h == 64
}

/// Whether coefficient `j` is the second of its pair in the stage of distance `h`.
spec fn upper(j: int, h: int) -> bool {
    (j / h) % 2 == 1
}

/// The coefficient that `j` is paired with in the stage of distance `h`.
spec fn partner(j: int, h: int) -> int {
    if upper(j, h) {
        j - h
    } else {
        j + h
    }
}

/// What a stage of distance `h` makes of coefficient `j`.
spec fn staged(x: Seq<int>, h: int, j: int) -> int {
    if upper(j, h) {
        x[partner(j, h)] - x[j]
    } else {
        x[j] + x[partner(j, h)]
    }
}

/// A stage of distance `h`.
spec fn stage(x: Seq<int>, h: int) -> Seq<int> {
    Seq::new(128, |j: int| staged(x, h, j))
}

/// The first `n` stages.
spec fn stages(x: Seq<int>, n: nat) -> Seq<int>
    decreases n,
{
    if n == 0 {
        x
    } else {
        stage(stages(x, (n - 1) as nat), pow2((n - 1) as nat) as int)
    }
}

/// Pairing within one stage.
proof fn lemma_partner(j: int, h: int)
    requires
        is_stride(h),
        0 <= j < 128,
    ensures
        0 <= partner(j, h) < 128,
        upper(partner(j, h), h) != upper(j, h),
        partner(partner(j, h), h) == j,
{
}

/// Pairing stays within blocks of twice the distance.
proof fn lemma_partner_block(j: int, h: int)
    requires
        is_stride(h),
        0 <= j < 128,
    ensures
        partner(j, h) / (2 * h) == j / (2 * h),
{
    if h == 1 {
        assert(partner(j, 1) / 2 == j / 2);
    } else if h == 2 {
        assert(partner(j, 2) / 4 == j / 4);
    } else if h == 4 {
        assert(partner(j, 4) / 8 == j / 8);
    } else if h == 8 {
        assert(partner(j, 8) / 16 == j / 16);
    } else if h == 16 {
        assert(partner(j, 16) / 32 == j / 32);
    } else if h == 32 {
        assert(partner(j, 32) / 64 == j / 64);
    } else {
        assert(partner(j, 64) / 128 == j / 128);
    }
}

/// A longer distance is an even multiple of a shorter one.
proof fn lemma_stride_multiple(h: int, g: int) -> (c: int)
    requires
        is_stride(h),
        is_stride(g),
        h < g,
    ensures
        c >= 1,
        g == (2 * h) * c,
        g == (2 * c) * h,
{
    let c = g / (2 * h);
    if h == 1 {
        assert(g == 2 * (g / 2));
    } else if h == 2 {
        assert(g == 4 * (g / 4));
    } else if h == 4 {
        assert(g == 8 * (g / 8));
    } else if h == 8 {
        assert(g == 16 * (g / 16));
    } else if h == 16 {
        assert(g == 32 * (g / 32));
    } else if h == 32 {
        assert(g == 64 * (g / 64));
    } else {
        assert(g == 128 * (g / 128));
    }
    c
}

/// Pairing in one stage does not disturb pairing in another.
proof fn lemma_partner_other(j: int, h: int, g: int)
    requires
        is_stride(h),
        is_stride(g),
        h != g,
        0 <= j < 128,
    ensures
        upper(partner(j, h), g) == upper(j, g),
{
    let i = partner(j, h);
    lemma_partner(j, h);
    if h < g {
        let c = lemma_stride_multiple(h, g);
        lemma_partner_block(j, h);
        lemma_div_denominator(j, 2 * h, c);
        lemma_div_denominator(i, 2 * h, c);
    } else {
        let c = lemma_stride_multiple(g, h);
        lemma_hoist_over_denominator(j, 2 * c, g as nat);
        lemma_hoist_over_denominator(j, -(2 * c), g as nat);
        assert((-(2 * c)) * g == -h) by (nonlinear_arith)
            requires
                h == (2 * c) * g,
        ;
    }
}

/// A stage applied twice doubles the group.
proof fn lemma_stage_twice(x: Seq<int>, h: int)
    requires
        is_stride(h),
        x.len() == 128,
    ensures
        stage(stage(x, h), h) == scaled(x, 2),
{
    assert forall|j: int| 0 <= j < 128 implies #[trigger] stage(stage(x, h), h)[j] == 2 * x[j] by {
        lemma_partner(j, h);
    }
    assert(stage(stage(x, h), h) =~= scaled(x, 2));
}

/// Two stages may change places.
proof fn lemma_stages_commute(x: Seq<int>, h: int, g: int)
    requires
        is_stride(h),
        is_stride(g),
        h != g,
        x.len() == 128,
    ensures
        stage(stage(x, h), g) == stage(stage(x, g), h),
{
    assert forall|j: int| 0 <= j < 128 implies #[trigger] stage(stage(x, h), g)[j] == stage(
        stage(x, g),
        h,
    )[j] by {
        lemma_partner(j, h);
        lemma_partner(j, g);
        lemma_partner_other(j, h, g);
        lemma_partner_other(j, g, h);
        lemma_partner(partner(j, h), g);
        lemma_partner(partner(j, g), h);
    }
    assert(stage(stage(x, h), g) =~= stage(stage(x, g), h));
}

/// The stages keep the length of a group.
proof fn lemma_stages_len(x: Seq<int>, n: nat)
    requires
        x.len() == 128,
    ensures
        stages(x, n).len() == 128,
    decreases n,
{
    if n > 0 {
        lemma_stages_len(x, (n - 1) as nat);
    }
}

/// A later stage may go before the earlier ones.
proof fn lemma_stage_first(x: Seq<int>, s: nat, n: nat)
    requires
        n <= s < 7,
        x.len() == 128,
    ensures
        stages(stage(x, pow2(s) as int), n) == stage(stages(x, n), pow2(s) as int),
    decreases n,
{
    if n > 0 {
        lemma_strides();
        let h = pow2((n - 1) as nat) as int;
        let g = pow2(s) as int;
        lemma_stage_first(x, s, (n - 1) as nat);
        lemma_stages_len(x, (n - 1) as nat);
        lemma_stages_commute(stages(x, (n - 1) as nat), g, h);
    }
}

/// The stages applied twice multiply the group.
proof fn lemma_stages_twice(x: Seq<int>, n: nat)
    requires
        n <= 7,
        x.len() == 128,
    ensures
        stages(stages(x, n), n) == scaled(x, pow2(n) as int),
    decreases n,
{
    lemma_strides();
    if n == 0 {
        assert(x =~= scaled(x, 1));
    } else {
        let m = (n - 1) as nat;
        let g = pow2(m) as int;
        let y = stages(x, m);
        lemma_stages_len(x, m);
        lemma_stage_first(y, m, m);
        lemma_stages_len(y, m);
        lemma_stages_twice(x, m);
        lemma_stage_twice(stages(y, m), g);
        assert(pow2(n) == 2 * g);
        assert(scaled(scaled(x, g), 2) =~= scaled(x, 2 * g)) by {
            assert forall|i: int| 0 <= i < 128 implies 2 * (g * #[trigger] x[i]) == (2 * g)
                * x[i] by {
                assert(2 * (g * x[i]) == (2 * g) * x[i]) by (nonlinear_arith);
            }
        }
    }
}

/// The place of coefficient `j` among the butterflies of a stage.
spec fn place(j: int, h: int) -> int {
    (j / (2 * h)) * h + j % h
}

/// A butterfly of a stage touches the two coefficients of its place.
proof fn lemma_place(s: nat, k: int, j: int)
    requires
        s < 7,
        0 <= k < 64,
        0 <= j < 128,
    ensures
        butterfly(64 * s + k).0 == j <==> (place(j, pow2(s) as int) == k && !upper(
            j,
            pow2(s) as int,
        )),
        butterfly(64 * s + k).1 == j <==> (place(j, pow2(s) as int) == k && upper(
            j,
            pow2(s) as int,
        )),
        0 <= butterfly(64 * s + k).0 < 128,
        0 <= butterfly(64 * s + k).1 < 128,
        butterfly(64 * s + k).1 == butterfly(64 * s + k).0 + pow2(s),
        0 <= place(j, pow2(s) as int) < 64,
{
    lemma_strides();
    let h = pow2(s) as int;
    assert((64 * s + k) / 64 == s && (64 * s + k) % 64 == k);
    let q = k / h;
    let r = k % h;
    let (lo, hi) = butterfly(64 * s + k);
    assert(is_stride(h));
    if h == 1 {
        assert(0 <= (k / 1) * 2 + k % 1 < 128 - 1);
        assert(0 <= j / 2 <= 63 && 0 <= j % 1 < 1);
        assert(0 <= (j / 2) * 1 + j % 1 < 64);
    } else if h == 2 {
        assert(0 <= (k / 2) * 4 + k % 2 < 128 - 2);
        assert(0 <= j / 4 <= 31 && 0 <= j % 2 < 2);
        assert(0 <= (j / 4) * 2 + j % 2 < 64);
    } else if h == 4 {
        assert(0 <= (k / 4) * 8 + k % 4 < 128 - 4);
        assert(0 <= j / 8 <= 15 && 0 <= j % 4 < 4);
        assert(0 <= (j / 8) * 4 + j % 4 < 64);
    } else if h == 8 {
        assert(0 <= (k / 8) * 16 + k % 8 < 128 - 8);
        assert(0 <= j / 16 <= 7 && 0 <= j % 8 < 8);
        assert(0 <= (j / 16) * 8 + j % 8 < 64);
    } else if h == 16 {
        assert(0 <= (k / 16) * 32 + k % 16 < 128 - 16);
        assert(0 <= j / 32 <= 3 && 0 <= j % 16 < 16);
        assert(0 <= (j / 32) * 16 + j % 16 < 64);
    } else if h == 32 {
        assert(0 <= (k / 32) * 64 + k % 32 < 128 - 32);
        assert(0 <= j / 64 <= 1 && 0 <= j % 32 < 32);
        assert(0 <= (j / 64) * 32 + j % 32 < 64);
    } else {
        assert(0 <= (k / 64) * 128 + k % 64 < 128 - 64);
        assert(0 <= j / 128 <= 0 && 0 <= j % 64 < 64);
        assert(0 <= (j / 128) * 64 + j % 64 < 64);
    }
    assert(0 <= lo && hi < 128);
    assert(k == q * h + r) by {
        lemma_fundamental_div_mod(k, h);
        lemma_mul_is_commutative(q, h);
    }
    lemma_pair_place(q, r, h);
    if place(j, h) == k {
        lemma_place_of(j, h);
        lemma_fundamental_div_mod_converse(k, h, j / (2 * h), j % h);
    }
}

/// The place of the two coefficients that lie at offset `r` of block `q`.
proof fn lemma_pair_place(q: int, r: int, h: int)
    requires
        h > 0,
        0 <= r < h,
        0 <= q,
    ensures
        place(q * (2 * h) + r, h) == q * h + r,
        place(q * (2 * h) + r + h, h) == q * h + r,
        !upper(q * (2 * h) + r, h),
        upper(q * (2 * h) + r + h, h),
{
    let lo = q * (2 * h) + r;
    let hi = lo + h;
    assert(lo == (2 * q) * h + r && hi == (2 * q + 1) * h + r && hi == q * (2 * h) + (r + h))
        by (nonlinear_arith)
        requires
            lo == q * (2 * h) + r,
            hi == lo + h,
    ;
    lemma_fundamental_div_mod_converse(lo, 2 * h, q, r);
    lemma_fundamental_div_mod_converse(hi, 2 * h, q, r + h);
    lemma_fundamental_div_mod_converse(lo, h, 2 * q, r);
    lemma_fundamental_div_mod_converse(hi, h, 2 * q + 1, r);
}

/// A coefficient is one of the two that its place names.
proof fn lemma_place_of(j: int, h: int)
    requires
        h > 0,
        0 <= j,
    ensures
        !upper(j, h) ==> j == (j / (2 * h)) * (2 * h) + j % h,
        upper(j, h) ==> j == (j / (2 * h)) * (2 * h) + j % h + h,
        0 <= j % h < h,
{
    lemma_fundamental_div_mod(j, h);
    lemma_div_denominator(j, h, 2);
    lemma_mul_is_commutative(h, 2);
    let b = j / h;
    let q = b / 2;
    assert(h * b == q * (2 * h) + (b % 2) * h) by (nonlinear_arith)
        requires
            b == 2 * q + b % 2,
    ;
    assert((b % 2) * h == (if upper(j, h) {
        h
    } else {
        0
    })) by (nonlinear_arith)
        requires
            b % 2 == (if upper(j, h) {
                1int
            } else {
                0int
            }),
    ;
}

/// The first `k` butterflies of a stage do what the stage does to the coefficients that they
/// touch, and leave the others alone.
proof fn lemma_part_of_stage(x: Seq<int>, s: nat, k: nat)
    requires
        s < 7,
        k <= 64,
        apply_butterflies(x, 64 * s).len() == 128,
    ensures
        ({
            let before = apply_butterflies(x, 64 * s);
            let after = apply_butterflies(x, 64 * s + k);
            let h = pow2(s) as int;
            &&& after.len() == 128
            &&& forall|j: int|
                0 <= j < 128 ==> #[trigger] after[j] == (if place(j, h) < k {
                    staged(before, h, j)
                } else {
                    before[j]
                })
        }),
    decreases k,
{
    let before = apply_butterflies(x, 64 * s);
    let h = pow2(s) as int;
    if k == 0 {
        assert forall|j: int| 0 <= j < 128 implies place(j, h) >= 0 by {
            lemma_place(s, 0, j);
        }
    } else {
        let last = k - 1;
        lemma_part_of_stage(x, s, last as nat);
        let mid = apply_butterflies(x, (64 * s + last) as nat);
        let after = apply_butterflies(x, 64 * s + k);
        let pair = butterfly(64 * s + last);
        assert(after == apply_butterfly(mid, pair));
        lemma_place(s, last, 0);
        lemma_place(s, last, pair.0);
        lemma_place(s, last, pair.1);
        lemma_strides();
        assert forall|j: int| 0 <= j < 128 implies #[trigger] after[j] == (if place(j, h) < k {
            staged(before, h, j)
        } else {
            before[j]
        }) by {
            lemma_place(s, last, j);
        }
    }
}

/// The butterflies of the first `n` stages are those stages.
proof fn lemma_butterflies_are_stages(x: Seq<int>, n: nat)
    requires
        n <= 7,
        x.len() == 128,
    ensures
        apply_butterflies(x, 64 * n) == stages(x, n),
        stages(x, n).len() == 128,
    decreases n,
{
    if n > 0 {
        let m = (n - 1) as nat;
        lemma_butterflies_are_stages(x, m);
        lemma_part_of_stage(x, m, 64);
        let h = pow2(m) as int;
        assert forall|j: int| 0 <= j < 128 implies place(j, h) < 64 by {
            lemma_place(m, 0, j);
        }
        assert(apply_butterflies(x, 64 * n) =~= stage(stages(x, m), h));
    }
}

/// The transform is its own inverse but for the scale: transforming a group twice gives it back
/// 128 times as long.
pub proof fn lemma_transform_is_own_inverse(x: Seq<int>)
    requires
        x.len() == 128,
    ensures
        transformed(transformed(x)) == scaled(x, 128),
{
    lemma_strides();
    lemma_butterflies_are_stages(x, 7);
    lemma_butterflies_are_stages(transformed(x), 7);
    lemma_stages_twice(x, 7);
}

/// The inverse rotation undoes the rotation but for the scale.
pub proof fn lemma_inverse_undoes_rotation(x: Seq<int>)
    requires
        x.len() == 128,
    ensures
        rotated_inverse(rotated_forward(x)) == scaled(x, 128),
{
    let y = with_signs1(x);
    lemma_transform_is_own_inverse(y);
    lemma_butterflies_are_stages(y, 7);
    let z = transformed(y);
    assert(with_signs2(with_signs2(z)) =~= z) by {
        assert forall|i: int| 0 <= i < 128 implies sign2(i) * (sign2(i) * #[trigger] z[i])
            == z[i] by {
            assert(sign2(i) == 1 || sign2(i) == -1);
        }
    }
    assert(rotated_inverse(rotated_forward(x)) =~= scaled(x, 128)) by {
        assert forall|i: int| 0 <= i < 128 implies sign1(i) * (128 * (sign1(i) * #[trigger] x[i]))
            == 128 * x[i] by {
            assert(sign1(i) == 1 || sign1(i) == -1);
        }
    }
}

/// The rotation undoes the inverse rotation but for the scale.
pub proof fn lemma_rotation_undoes_inverse(x: Seq<int>)
    requires
        x.len() == 128,
    ensures
        rotated_forward(rotated_inverse(x)) == scaled(x, 128),
{
    let y = with_signs2(x);
    lemma_transform_is_own_inverse(y);
    lemma_butterflies_are_stages(y, 7);
    let z = transformed(y);
    assert(with_signs1(with_signs1(z)) =~= z) by {
        assert forall|i: int| 0 <= i < 128 implies sign1(i) * (sign1(i) * #[trigger] z[i])
            == z[i] by {
            assert(sign1(i) == 1 || sign1(i) == -1);
        }
    }
    assert(rotated_forward(rotated_inverse(x)) =~= scaled(x, 128)) by {
        assert forall|i: int| 0 <= i < 128 implies sign2(i) * (128 * (sign2(i) * #[trigger] x[i]))
            == 128 * x[i] by {
            assert(sign2(i) == 1 || sign2(i) == -1);
        }
    }
}

/// Changing one term of a sum.
proof fn lemma_total_update(s: Seq<int>, i: int, v: int)
    requires
        0 <= i < s.len(),
    ensures
        total(s.update(i, v)) == total(s) - s[i] + v,
    decreases s.len(),
{
    let t = s.update(i, v);
    if i == s.len() - 1 {
        assert(t.drop_last() =~= s.drop_last());
    } else {
        lemma_total_update(s.drop_last(), i, v);
        assert(t.drop_last() =~= s.drop_last().update(i, v));
    }
}

/// Doubling every term of a sum.
proof fn lemma_total_doubled(s: Seq<int>, t: Seq<int>)
    requires
        s.len() == t.len(),
        forall|i: int| 0 <= i < s.len() ==> #[trigger] t[i] == 2 * s[i],
    ensures
        total(t) == 2 * total(s),
    decreases s.len(),
{
    if s.len() > 0 {
        lemma_total_doubled(s.drop_last(), t.drop_last());
    }
}

/// The products of two groups during a stage: those that the first `k` butterflies have not
/// touched count twice.
spec fn weighted(x: Seq<int>, y: Seq<int>, h: int, k: int) -> Seq<int> {
    Seq::new(
        128,
        |j: int|
            if place(j, h) < k {
                x[j] * y[j]
            } else {
                2 * (x[j] * y[j])
            },
    )
}

/// One butterfly keeps the weighted sum of products.
proof fn lemma_weighted_step(x: Seq<int>, y: Seq<int>, s: nat, k: int)
    requires
        s < 7,
        0 <= k < 64,
        x.len() == 128,
        y.len() == 128,
    ensures
        ({
            let pair = butterfly(64 * s + k);
            let h = pow2(s) as int;
            total(weighted(apply_butterfly(x, pair), apply_butterfly(y, pair), h, k + 1)) == total(
                weighted(x, y, h, k),
            )
        }),
{
    let pair = butterfly(64 * s + k);
    let (lo, hi) = pair;
    let h = pow2(s) as int;
    let before = weighted(x, y, h, k);
    let after = weighted(apply_butterfly(x, pair), apply_butterfly(y, pair), h, k + 1);
    lemma_strides();
    lemma_place(s, k, 0);
    lemma_place(s, k, lo);
    lemma_place(s, k, hi);
    let (a, b, c, d) = (x[lo], x[hi], y[lo], y[hi]);
    let first = (a + b) * (c + d);
    let second = (a - b) * (c - d);
    assert(after =~= before.update(lo, first).update(hi, second)) by {
        assert forall|j: int| 0 <= j < 128 implies #[trigger] after[j] == before.update(
            lo,
            first,
        ).update(hi, second)[j] by {
            lemma_place(s, k, j);
        }
    }
    lemma_total_update(before, lo, first);
    lemma_total_update(before.update(lo, first), hi, second);
    assert(first + second == 2 * (a * c) + 2 * (b * d)) by (nonlinear_arith)
        requires
            first == (a + b) * (c + d),
            second == (a - b) * (c - d),
    ;
}

/// The first `k` butterflies of a stage keep the weighted sum of products.
proof fn lemma_weighted_steps(x: Seq<int>, y: Seq<int>, s: nat, k: nat)
    requires
        s < 7,
        k <= 64,
        apply_butterflies(x, 64 * s).len() == 128,
        apply_butterflies(y, 64 * s).len() == 128,
    ensures
        ({
            let h = pow2(s) as int;
            total(
                weighted(
                    apply_butterflies(x, 64 * s + k),
                    apply_butterflies(y, 64 * s + k),
                    h,
                    k as int,
                ),
            ) == total(
                weighted(apply_butterflies(x, 64 * s), apply_butterflies(y, 64 * s), h, 0),
            )
        }),
    decreases k,
{
    if k > 0 {
        let m = (k - 1) as nat;
        lemma_weighted_steps(x, y, s, m);
        lemma_part_of_stage(x, s, m);
        lemma_part_of_stage(y, s, m);
        lemma_weighted_step(
            apply_butterflies(x, 64 * s + m),
            apply_butterflies(y, 64 * s + m),
            s,
            m as int,
        );
        assert(64 * s + k - 1 == 64 * s + m);
    }
}

/// Each stage doubles inner products.
proof fn lemma_stages_scale_products(x: Seq<int>, y: Seq<int>, n: nat)
    requires
        n <= 7,
        x.len() == 128,
        y.len() == 128,
    ensures
        inner(apply_butterflies(x, 64 * n), apply_butterflies(y, 64 * n)) == pow2(n) * inner(x, y),
    decreases n,
{
    lemma_strides();
    if n > 0 {
        let m = (n - 1) as nat;
        let h = pow2(m) as int;
        lemma_stages_scale_products(x, y, m);
        lemma_butterflies_are_stages(x, m);
        lemma_butterflies_are_stages(y, m);
        lemma_weighted_steps(x, y, m, 64);
        let (bx, by_) = (apply_butterflies(x, 64 * m), apply_butterflies(y, 64 * m));
        let (ax, ay) = (apply_butterflies(x, 64 * n), apply_butterflies(y, 64 * n));
        let before = Seq::new(128, |i: int| bx[i] * by_[i]);
        let after = Seq::new(128, |i: int| ax[i] * ay[i]);
        assert forall|j: int| 0 <= j < 128 implies 0 <= #[trigger] place(j, h) < 64 by {
            lemma_place(m, 0, j);
        }
        assert(64 * m + 64 == 64 * n);
        assert(weighted(ax, ay, h, 64) =~= after);
        lemma_total_doubled(before, weighted(bx, by_, h, 0));
        assert(pow2(n) == 2 * h);
        assert(2 * (h * inner(x, y)) == (2 * h) * inner(x, y)) by (nonlinear_arith);
    } else {
        assert(pow2(n) == 1);
    }
}

/// The rotation is orthogonal but for the scale: the inner product of two rotated groups is 128
/// times that of the groups. Scores against rotated keys are therefore those against the keys,
/// once the query is rotated too.
pub proof fn lemma_rotation_keeps_products(x: Seq<int>, y: Seq<int>)
    requires
        x.len() == 128,
        y.len() == 128,
    ensures
        inner(rotated_forward(x), rotated_forward(y)) == 128 * inner(x, y),
{
    let (sx, sy) = (with_signs1(x), with_signs1(y));
    let (tx, ty) = (transformed(sx), transformed(sy));
    lemma_strides();
    lemma_stages_scale_products(sx, sy, 7);
    assert(Seq::new(128, |i: int| sx[i] * sy[i]) =~= Seq::new(128, |i: int| x[i] * y[i])) by {
        assert forall|i: int| 0 <= i < 128 implies (sign1(i) * #[trigger] x[i]) * (sign1(i)
            * y[i]) == x[i] * y[i] by {
            lemma_signed_product(sign1(i), x[i], y[i]);
        }
    }
    let (rx, ry) = (rotated_forward(x), rotated_forward(y));
    assert(Seq::new(128, |i: int| rx[i] * ry[i]) =~= Seq::new(128, |i: int| tx[i] * ty[i])) by {
        assert forall|i: int| 0 <= i < 128 implies (sign2(i) * #[trigger] tx[i]) * (sign2(i)
            * ty[i]) == tx[i] * ty[i] by {
            lemma_signed_product(sign2(i), tx[i], ty[i]);
        }
    }
}

/// A sign applied to both factors leaves a product as it was.
proof fn lemma_signed_product(sign: int, a: int, b: int)
    requires
        sign == 1 || sign == -1,
    ensures
        (sign * a) * (sign * b) == a * b,
{
    assert((-1 * a) * (-1 * b) == a * b) by (nonlinear_arith);
}

/// Butterflies keep sums of groups.
proof fn lemma_butterflies_are_linear(a: int, x: Seq<int>, b: int, y: Seq<int>, n: nat)
    requires
        n <= 448,
        x.len() == 128,
        y.len() == 128,
    ensures
        apply_butterflies(x, n).len() == 128,
        apply_butterflies(y, n).len() == 128,
        apply_butterflies(combined(a, x, b, y), n) == combined(
            a,
            apply_butterflies(x, n),
            b,
            apply_butterflies(y, n),
        ),
    decreases n,
{
    if n > 0 {
        let m = (n - 1) as nat;
        lemma_butterflies_are_linear(a, x, b, y, m);
        let pair = butterfly(m as int);
        lemma_place((m / 64) as nat, m as int % 64, 0);
        assert(64 * (m / 64) + m as int % 64 == m);
        let (u, v) = (apply_butterflies(x, m), apply_butterflies(y, m));
        let sum = combined(a, u, b, v);
        lemma_linear_step(a, u[pair.0], u[pair.1], b, v[pair.0], v[pair.1]);
        lemma_strides();
        assert(apply_butterfly(sum, pair) =~= combined(
            a,
            apply_butterfly(u, pair),
            b,
            apply_butterfly(v, pair),
        ));
    }
}

/// The arithmetic of one butterfly on a sum of groups.
proof fn lemma_linear_step(a: int, u0: int, u1: int, b: int, v0: int, v1: int)
    by (nonlinear_arith)
    ensures
        (a * u0 + b * v0) + (a * u1 + b * v1) == a * (u0 + u1) + b * (v0 + v1),
        (a * u0 + b * v0) - (a * u1 + b * v1) == a * (u0 - u1) + b * (v0 - v1),
{
}

/// The inverse rotation of a sum of groups is the sum of their inverse rotations, so a weighted
/// sum of rotated values may be rotated back once, at the end.
pub proof fn lemma_inverse_is_linear(a: int, x: Seq<int>, b: int, y: Seq<int>)
    requires
        x.len() == 128,
        y.len() == 128,
    ensures
        rotated_inverse(combined(a, x, b, y)) == combined(
            a,
            rotated_inverse(x),
            b,
            rotated_inverse(y),
        ),
{
    let (sx, sy) = (with_signs2(x), with_signs2(y));
    assert(with_signs2(combined(a, x, b, y)) =~= combined(a, sx, b, sy)) by {
        assert forall|i: int| 0 <= i < 128 implies sign2(i) * (a * #[trigger] x[i] + b * y[i])
            == a * (sign2(i) * x[i]) + b * (sign2(i) * y[i]) by {
            lemma_signed_sum(sign2(i), a, x[i], b, y[i]);
        }
    }
    lemma_butterflies_are_linear(a, sx, b, sy, 448);
    let (tx, ty) = (transformed(sx), transformed(sy));
    assert(with_signs1(combined(a, tx, b, ty)) =~= combined(
        a,
        rotated_inverse(x),
        b,
        rotated_inverse(y),
    )) by {
        assert forall|i: int| 0 <= i < 128 implies sign1(i) * (a * #[trigger] tx[i] + b * ty[i])
            == a * (sign1(i) * tx[i]) + b * (sign1(i) * ty[i]) by {
            lemma_signed_sum(sign1(i), a, tx[i], b, ty[i]);
        }
    }
}

/// A sign applied to a sum of products.
proof fn lemma_signed_sum(sign: int, a: int, u: int, b: int, v: int)
    by (nonlinear_arith)
    ensures
        sign * (a * u + b * v) == a * (sign * u) + b * (sign * v),
{
}

/// Lists the steps that apply a sign vector.
fn push_signs(steps: &mut Vec<Step>, first: bool)
    ensures
        final(steps)@ == old(steps)@ + (if first {
            sign1_steps()
        } else {
            sign2_steps()
        }),
{
    let ghost signs = if first {
        sign1_steps()
    } else {
        sign2_steps()
    };
    let mut i: usize = 0;
    assert(steps@ =~= old(steps)@ + signs.take(0));
    while i < GROUP
        invariant
            i <= GROUP,
            signs == (if first {
                sign1_steps()
            } else {
                sign2_steps()
            }),
            steps@ == old(steps)@ + signs.take(i as int),
        decreases GROUP - i,
    {
        let sign: i8 = if first {
            wht_sign1(i)
        } else {
            wht_sign2(i)
        };
        steps.push(Step::Sign { i, sign });
        assert(steps@ =~= old(steps)@ + signs.take(i + 1));
        i += 1;
    }
    assert(signs.take(128) =~= signs);
}

/// Lists the steps of the transform.
fn push_transform(steps: &mut Vec<Step>)
    ensures
        final(steps)@ == old(steps)@ + transform_steps(),
{
    let pairs = fwht_128();
    let ghost all = transform_steps();
    let mut p: usize = 0;
    assert(steps@ =~= old(steps)@ + all.take(0));
    while p < BUTTERFLIES
        invariant
            p <= BUTTERFLIES,
            pairs@.len() == BUTTERFLIES,
            forall|k: int|
                0 <= k < BUTTERFLIES ==> (#[trigger] pairs@[k]).0 == butterfly(k).0 && pairs@[k].1
                    == butterfly(k).1,
            all == transform_steps(),
            steps@ == old(steps)@ + all.take(p as int),
        decreases BUTTERFLIES - p,
    {
        let (lo, hi) = pairs[p];
        steps.push(Step::Butterfly { lo, hi });
        assert(steps@ =~= old(steps)@ + all.take(p + 1));
        p += 1;
    }
    let mut i: usize = 0;
    while i < GROUP
        invariant
            i <= GROUP,
            all == transform_steps(),
            steps@ == old(steps)@ + all.take(BUTTERFLIES + i),
        decreases GROUP - i,
    {
        steps.push(Step::Scale { i });
        assert(steps@ =~= old(steps)@ + all.take(BUTTERFLIES + i + 1));
        i += 1;
    }
    assert(all.take(576) =~= all);
}

/// The steps of the rotation: first signs, transform, second signs.
pub fn rotate_forward() -> (r: Vec<Step>)
    ensures
        r@ == forward_steps(),
{
    let mut steps: Vec<Step> = Vec::new();
    push_signs(&mut steps, true);
    push_transform(&mut steps);
    push_signs(&mut steps, false);
    assert(steps@ =~= forward_steps());
    steps
}

/// The steps of the inverse rotation: second signs, transform, first signs.
pub fn rotate_inverse() -> (r: Vec<Step>)
    ensures
        r@ == inverse_steps(),
{
    let mut steps: Vec<Step> = Vec::new();
    push_signs(&mut steps, false);
    push_transform(&mut steps);
    push_signs(&mut steps, true);
    assert(steps@ =~= inverse_steps());
    steps
}

/// Steps may be applied in two goes.
proof fn lemma_steps_in_two(x: Seq<int>, a: Seq<Step>, b: Seq<Step>)
    ensures
        steps_applied(x, a + b) == steps_applied(steps_applied(x, a), b),
    decreases b.len(),
{
    if b.len() == 0 {
        assert(a + b =~= a);
    } else {
        lemma_steps_in_two(x, a, b.drop_last());
        assert((a + b).drop_last() =~= a + b.drop_last());
    }
}

/// The first `n` sign steps apply the first `n` signs.
proof fn lemma_sign_steps(x: Seq<int>, signs: Seq<Step>, sign: spec_fn(int) -> int, n: int)
    requires
        x.len() == 128,
        signs.len() == 128,
        forall|i: int|
            0 <= i < 128 ==> #[trigger] signs[i] == (Step::Sign {
                i: i as usize,
                sign: sign(i) as i8,
            }),
        forall|i: int| 0 <= i < 128 ==> -1 <= #[trigger] sign(i) <= 1,
        0 <= n <= 128,
    ensures
        steps_applied(x, signs.take(n)).len() == 128,
        forall|i: int|
            0 <= i < 128 ==> #[trigger] steps_applied(x, signs.take(n))[i] == (if i < n {
                sign(i) * x[i]
            } else {
                x[i]
            }),
    decreases n,
{
    if n > 0 {
        lemma_sign_steps(x, signs, sign, n - 1);
        assert(signs.take(n).drop_last() =~= signs.take(n - 1));
        assert(signs.take(n).last() == signs[n - 1]);
        assert(-1 <= sign(n - 1) <= 1);
    }
}

/// The first `n` steps of the transform: butterflies, then nothing that counts in exact arithmetic.
proof fn lemma_transform_steps(x: Seq<int>, n: nat)
    requires
        x.len() == 128,
        n <= 576,
    ensures
        steps_applied(x, transform_steps().take(n as int)) == apply_butterflies(
            x,
            if n <= 448 {
                n
            } else {
                448
            },
        ),
    decreases n,
{
    let all = transform_steps();
    if n > 0 {
        let m = (n - 1) as nat;
        lemma_transform_steps(x, m);
        assert(all.take(n as int).drop_last() =~= all.take(m as int));
        assert(all.take(n as int).last() == all[m as int]);
        if n <= 448 {
            lemma_place((m / 64) as nat, m as int % 64, 0);
            assert(64 * (m / 64) + m as int % 64 == m);
        }
    }
}

/// Following the listed steps carries the rotation out.
pub proof fn lemma_forward_steps_rotate(x: Seq<int>)
    requires
        x.len() == 128,
    ensures
        steps_applied(x, forward_steps()) == rotated_forward(x),
{
    let (first, middle, last) = (sign1_steps(), transform_steps(), sign2_steps());
    lemma_steps_in_two(x, first + middle, last);
    lemma_steps_in_two(x, first, middle);
    lemma_sign_steps(x, first, |i: int| sign1(i), 128);
    assert(first.take(128) =~= first);
    let y = with_signs1(x);
    assert(steps_applied(x, first) =~= y);
    lemma_transform_steps(y, 576);
    assert(middle.take(576) =~= middle);
    lemma_butterflies_are_stages(y, 7);
    let z = transformed(y);
    lemma_sign_steps(z, last, |i: int| sign2(i), 128);
    assert(last.take(128) =~= last);
    assert(steps_applied(z, last) =~= with_signs2(z));
}

/// Following the listed inverse steps carries the inverse rotation out.
pub proof fn lemma_inverse_steps_rotate(x: Seq<int>)
    requires
        x.len() == 128,
    ensures
        steps_applied(x, inverse_steps()) == rotated_inverse(x),
{
    let (first, middle, last) = (sign2_steps(), transform_steps(), sign1_steps());
    lemma_steps_in_two(x, first + middle, last);
    lemma_steps_in_two(x, first, middle);
    lemma_sign_steps(x, first, |i: int| sign2(i), 128);
    assert(first.take(128) =~= first);
    let y = with_signs2(x);
    assert(steps_applied(x, first) =~= y);
    lemma_transform_steps(y, 576);
    assert(middle.take(576) =~= middle);
    lemma_butterflies_are_stages(y, 7);
    let z = transformed(y);
    lemma_sign_steps(z, last, |i: int| sign1(i), 128);
    assert(last.take(128) =~= last);
    assert(steps_applied(z, last) =~= with_signs1(z));
}

/// Following the steps of the rotation and then those of its inverse gives a group back 128 times
/// as long. Each coefficient is scaled by `1/sqrt(128)` once on either way, which makes up for it.
pub proof fn lemma_steps_round_trip(x: Seq<int>)
    requires
        x.len() == 128,
    ensures
        steps_applied(steps_applied(x, forward_steps()), inverse_steps()) == scaled(x, 128),
{
    lemma_forward_steps_rotate(x);
    lemma_inverse_steps_rotate(rotated_forward(x));
    lemma_inverse_undoes_rotation(x);
}

/// Each stage of the transform replaces all pairs of coefficients that lie `2^s` apart by their sum
/// and their difference, and the transform is the seven stages.
pub proof fn lemma_transform_in_stages(x: Seq<int>, s: nat, j: int)
    requires
        x.len() == 128,
        s < 7,
        0 <= j < 128,
    ensures
        ({
            let h = pow2(s) as int;
            let before = apply_butterflies(x, 64 * s);
            let after = apply_butterflies(x, 64 * s + 64);
            &&& before.len() == 128
            &&& after.len() == 128
            &&& (j / h) % 2 == 0 ==> after[j] == before[j] + before[j + h]
            &&& (j / h) % 2 == 1 ==> after[j] == before[j - h] - before[j]
        }),
        apply_butterflies(x, 0) == x,
        transformed(x) == apply_butterflies(x, 64 * 7),
{
    lemma_butterflies_are_stages(x, s);
    lemma_butterflies_are_stages(x, s + 1);
}

/// A rotation multiplies each coefficient by its first sign, transforms the group, and multiplies
/// each coefficient by its second sign; its inverse takes the signs the other way round.
pub proof fn lemma_rotation_of_coefficients(x: Seq<int>, i: int)
    requires
        x.len() == 128,
        0 <= i < 128,
    ensures
        rotated_forward(x).len() == 128,
        rotated_inverse(x).len() == 128,
        rotated_forward(x)[i] == sign2(i) * transformed(Seq::new(128, |j: int| sign1(j) * x[j]))[i],
        rotated_inverse(x)[i] == sign1(i) * transformed(Seq::new(128, |j: int| sign2(j) * x[j]))[i],
{
}

/// The steps of a rotation in order: 128 signs, 448 butterflies, 128 scalings and 128 signs. The
/// inverse has the same steps, but for the sign vectors, which change places.
pub proof fn lemma_steps_in_order(i: int, p: int)
    requires
        0 <= i < 128,
        0 <= p < 448,
    ensures
        forward_steps().len() == 832,
        inverse_steps().len() == 832,
        forward_steps()[i] matches Step::Sign { i: at, sign } && at == i && sign == sign1(i),
        forward_steps()[128 + p] matches Step::Butterfly { lo, hi } && lo == butterfly(p).0 && hi
            == butterfly(p).1,
        forward_steps()[576 + i] matches Step::Scale { i: at } && at == i,
        forward_steps()[704 + i] matches Step::Sign { i: at, sign } && at == i && sign == sign2(i),
        inverse_steps()[i] == forward_steps()[704 + i],
        inverse_steps()[128 + p] == forward_steps()[128 + p],
        inverse_steps()[576 + i] == forward_steps()[576 + i],
        inverse_steps()[704 + i] == forward_steps()[i],
{
    lemma_butterflies_of_a_stage(p / 64, p % 64, p % 64);
}

/// What a step does to a group: it multiplies one coefficient by a sign, replaces two by their sum
/// and their difference, or leaves the group as it is, and touches no other coefficient.
pub proof fn lemma_what_steps_do(x: Seq<int>, i: usize, k: usize, sign: i8, j: int)
    requires
        i < k < x.len(),
        0 <= j < x.len(),
    ensures
        step_applied(x, Step::Sign { i, sign })[j] == (if j == i {
            sign * x[j]
        } else {
            x[j]
        }),
        step_applied(x, Step::Butterfly { lo: i, hi: k })[j] == (if j == i {
            x[i as int] + x[k as int]
        } else if j == k {
            x[i as int] - x[k as int]
        } else {
            x[j]
        }),
        step_applied(x, Step::Scale { i }) == x,
{
}

} // verus!
