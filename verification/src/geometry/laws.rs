//! Algebraic laws of transform composition.
use vstd::arithmetic::div_mod::lemma_mod_multiples_basic;
use vstd::prelude::*;
use crate::geometry::fixed::{Fixed, SCALE, mul_raw};
use crate::geometry::transform::Transform;
use crate::geometry::vector::Vector;

verus! {

/// Multiplying by one or by zero is exact.
pub proof fn lemma_mul_raw_unit(x: int)
    ensures
        mul_raw(SCALE as int, x) == x,
        mul_raw(x, SCALE as int) == x,
        mul_raw(0, x) == 0,
        mul_raw(x, 0) == 0,
{
    assert(SCALE as int * x == x * 1_000_000);
    assert(x * SCALE as int == x * 1_000_000);
    assert(0 * x == 0);
    assert(x * 0 == 0);
}

/// The identity is neutral on both sides of a composition: for every
/// transform `t`, `identity * t == t == t * identity`, exactly.
pub proof fn lemma_identity_neutral(t: Transform)
    ensures
        Transform::identity().compose(t) == t,
        t.compose(Transform::identity()) == t,
{
    lemma_mul_raw_unit(t.xx@);
    lemma_mul_raw_unit(t.xy@);
    lemma_mul_raw_unit(t.tx@);
    lemma_mul_raw_unit(t.yx@);
    lemma_mul_raw_unit(t.yy@);
    lemma_mul_raw_unit(t.ty@);
}

/// The identity leaves every point in place.
pub proof fn lemma_identity_apply(p: Vector)
    ensures
        Transform::identity().apply(p) == p,
{
    lemma_mul_raw_unit(p.x@);
    lemma_mul_raw_unit(p.y@);
}

/// The inverse of a translation is the translation by the opposite vector.
pub proof fn lemma_translate_inverse(v: Vector)
    ensures
        Transform::translate(v).inverse() == Transform::translate(v.neg()),
{
    let t = Transform::translate(v);
    assert(t.det() == 1_000_000_000_000) by (nonlinear_arith)
        requires
            t.xx@ == 1_000_000,
            t.yy@ == 1_000_000,
            t.xy@ == 0,
            t.yx@ == 0,
    ;
    lemma_mul_raw_unit(v.x@);
    lemma_mul_raw_unit(v.y@);
    assert(t.inverse().xx@ == SCALE);
    assert(t.inverse().yy@ == SCALE);
    assert(t.inverse().xy@ == 0);
    assert(t.inverse().yx@ == 0);
}

/// A translation followed by its inverse returns every point unchanged:
/// `(translate(v).inverse() * translate(v))` applied to `p` is `p`. The
/// components of `v` must have an opposite, which only the most negative
/// representable value lacks.
pub proof fn lemma_translate_roundtrip(v: Vector, p: Vector)
    requires
        v.x@ > i64::MIN,
        v.y@ > i64::MIN,
    ensures
        Transform::translate(v).inverse().compose(Transform::translate(v)) == Transform::identity(),
        Transform::translate(v).inverse().compose(Transform::translate(v)).apply(p) == p,
{
    lemma_translate_inverse(v);
    lemma_mul_raw_unit(v.x@);
    lemma_mul_raw_unit(v.y@);
    lemma_mul_raw_unit(SCALE as int);
    lemma_mul_raw_unit(0);
    lemma_identity_apply(p);
}

/// What rounding loses in one product: the exact product minus the rounded
/// one taken back to squared raw units. It lies in `0..SCALE`.
pub open spec fn mul_loss(x: int, y: int) -> int {
    (x * y) % (SCALE as int)
}

proof fn lemma_mul_loss(x: int, y: int)
    ensures
        SCALE * mul_raw(x, y) == x * y - mul_loss(x, y),
        0 <= mul_loss(x, y) < SCALE,
{
    let p = x * y;
    assert(p == 1_000_000 * (p / 1_000_000) + p % 1_000_000);
}

proof fn lemma_scaled_product(s: int, u: int, c: int, x: int)
    by (nonlinear_arith)
    requires
        s * u == x,
    ensures
        s * (u * c) == x * c,
        s * (c * u) == c * x,
{
}

proof fn lemma_triple(a: int, b: int, c: int)
    by (nonlinear_arith)
    ensures
        (a * b) * c == a * (b * c),
{
}

proof fn lemma_expand_left(p: int, q: int, r: int, c: int)
    by (nonlinear_arith)
    ensures
        (p + q - r) * c == p * c + q * c - r * c,
{
}

proof fn lemma_expand_right(a: int, p: int, q: int, r: int, t: int)
    by (nonlinear_arith)
    ensures
        a * (p + q - r + t) == a * p + a * q - a * r + a * t,
{
}

proof fn lemma_loss_bound(r: int, c: int, bound: int)
    by (nonlinear_arith)
    requires
        0 <= r <= bound,
    ensures
        -(bound * abs(c)) <= r * c <= bound * abs(c),
        -(bound * abs(c)) <= c * r <= bound * abs(c),
{
}

/// Absolute value of an integer.
pub open spec fn abs(x: int) -> int {
    if x < 0 {
        -x
    } else {
        x
    }
}

/// One entry of `(A * B) * C`, from a row `(a1, a2)` of `A`, the linear part
/// and the offset of `B`, and a column `(c1, c2)` of `C`, without the offset
/// of `A` and without saturation.
pub open spec fn left_nested(
    a1: int,
    a2: int,
    b11: int,
    b12: int,
    b21: int,
    b22: int,
    bt1: int,
    bt2: int,
    c1: int,
    c2: int,
) -> int {
    let u1 = mul_raw(a1, b11) + mul_raw(a2, b21);
    let u2 = mul_raw(a1, b12) + mul_raw(a2, b22);
    mul_raw(u1, c1) + mul_raw(u2, c2) + mul_raw(a1, bt1) + mul_raw(a2, bt2)
}

/// The same entry of `A * (B * C)`.
pub open spec fn right_nested(
    a1: int,
    a2: int,
    b11: int,
    b12: int,
    b21: int,
    b22: int,
    bt1: int,
    bt2: int,
    c1: int,
    c2: int,
) -> int {
    let v1 = mul_raw(b11, c1) + mul_raw(b12, c2) + bt1;
    let v2 = mul_raw(b21, c1) + mul_raw(b22, c2) + bt2;
    mul_raw(a1, v1) + mul_raw(a2, v2)
}

/// The two nestings of a triple product differ only by what the roundings
/// lose, each loss weighted by the factor it is multiplied with afterwards.
proof fn lemma_nested_difference(
    a1: int,
    a2: int,
    b11: int,
    b12: int,
    b21: int,
    b22: int,
    bt1: int,
    bt2: int,
    c1: int,
    c2: int,
)
    ensures
        ({
            let u1 = mul_raw(a1, b11) + mul_raw(a2, b21);
            let u2 = mul_raw(a1, b12) + mul_raw(a2, b22);
            let v1 = mul_raw(b11, c1) + mul_raw(b12, c2) + bt1;
            let v2 = mul_raw(b21, c1) + mul_raw(b22, c2) + bt2;
            SCALE * SCALE * (left_nested(a1, a2, b11, b12, b21, b22, bt1, bt2, c1, c2)
                - right_nested(a1, a2, b11, b12, b21, b22, bt1, bt2, c1, c2)) == a1 * (mul_loss(
                b11,
                c1,
            ) + mul_loss(b12, c2)) + a2 * (mul_loss(b21, c1) + mul_loss(b22, c2)) + SCALE * (
            mul_loss(a1, v1) + mul_loss(a2, v2)) - (mul_loss(a1, b11) + mul_loss(a2, b21)) * c1 - (
            mul_loss(a1, b12) + mul_loss(a2, b22)) * c2 - SCALE * (mul_loss(u1, c1) + mul_loss(
                u2,
                c2,
            ) + mul_loss(a1, bt1) + mul_loss(a2, bt2))
        }),
{
    let s = SCALE as int;
    let u1 = mul_raw(a1, b11) + mul_raw(a2, b21);
    let u2 = mul_raw(a1, b12) + mul_raw(a2, b22);
    let v1 = mul_raw(b11, c1) + mul_raw(b12, c2) + bt1;
    let v2 = mul_raw(b21, c1) + mul_raw(b22, c2) + bt2;
    lemma_mul_loss(a1, b11);
    lemma_mul_loss(a2, b21);
    lemma_mul_loss(a1, b12);
    lemma_mul_loss(a2, b22);
    lemma_mul_loss(a1, bt1);
    lemma_mul_loss(a2, bt2);
    lemma_mul_loss(b11, c1);
    lemma_mul_loss(b12, c2);
    lemma_mul_loss(b21, c1);
    lemma_mul_loss(b22, c2);
    lemma_mul_loss(u1, c1);
    lemma_mul_loss(u2, c2);
    lemma_mul_loss(a1, v1);
    lemma_mul_loss(a2, v2);
    let r1 = mul_loss(a1, b11) + mul_loss(a2, b21);
    let r2 = mul_loss(a1, b12) + mul_loss(a2, b22);
    let w1 = mul_loss(b11, c1) + mul_loss(b12, c2);
    let w2 = mul_loss(b21, c1) + mul_loss(b22, c2);
    // s * u1 * c1, expanded
    lemma_scaled_product(s, u1, c1, a1 * b11 + a2 * b21 - r1);
    lemma_expand_left(a1 * b11, a2 * b21, r1, c1);
    lemma_scaled_product(s, u2, c2, a1 * b12 + a2 * b22 - r2);
    lemma_expand_left(a1 * b12, a2 * b22, r2, c2);
    // a1 * (s * v1), expanded
    lemma_scaled_product(s, v1, a1, b11 * c1 + b12 * c2 - w1 + s * bt1);
    lemma_expand_right(a1, b11 * c1, b12 * c2, w1, s * bt1);
    lemma_scaled_product(s, v2, a2, b21 * c1 + b22 * c2 - w2 + s * bt2);
    lemma_expand_right(a2, b21 * c1, b22 * c2, w2, s * bt2);
    lemma_triple(a1, b11, c1);
    lemma_triple(a2, b21, c1);
    lemma_triple(a1, b12, c2);
    lemma_triple(a2, b22, c2);
    lemma_triple(a1, s, bt1);
    lemma_triple(a2, s, bt2);
    assert(a1 * s == s * a1) by (nonlinear_arith);
    assert(a2 * s == s * a2) by (nonlinear_arith);
    lemma_triple(s, a1, bt1);
    lemma_triple(s, a2, bt2);
    let left = left_nested(a1, a2, b11, b12, b21, b22, bt1, bt2, c1, c2);
    let right = right_nested(a1, a2, b11, b12, b21, b22, bt1, bt2, c1, c2);
    let x1 = s * mul_raw(u1, c1);
    let x2 = s * mul_raw(u2, c2);
    let x3 = s * mul_raw(a1, bt1);
    let x4 = s * mul_raw(a2, bt2);
    let y1 = s * mul_raw(a1, v1);
    let y2 = s * mul_raw(a2, v2);
    assert(s * (left - right) == x1 + x2 + x3 + x4 - y1 - y2) by (nonlinear_arith)
        requires
            left == mul_raw(u1, c1) + mul_raw(u2, c2) + mul_raw(a1, bt1) + mul_raw(a2, bt2),
            right == mul_raw(a1, v1) + mul_raw(a2, v2),
            x1 == s * mul_raw(u1, c1),
            x2 == s * mul_raw(u2, c2),
            x3 == s * mul_raw(a1, bt1),
            x4 == s * mul_raw(a2, bt2),
            y1 == s * mul_raw(a1, v1),
            y2 == s * mul_raw(a2, v2),
    ;
    let z = x1 + x2 + x3 + x4 - y1 - y2;
    assert(s * s * (left - right) == s * z) by (nonlinear_arith)
        requires
            s * (left - right) == z,
    ;
    assert(s * z == s * x1 + s * x2 + s * x3 + s * x4 - s * y1 - s * y2) by (nonlinear_arith)
        requires
            z == x1 + x2 + x3 + x4 - y1 - y2,
    ;
    assert(s * x1 == s * (u1 * c1) - s * mul_loss(u1, c1)) by (nonlinear_arith)
        requires
            x1 == u1 * c1 - mul_loss(u1, c1),
    ;
    assert(s * x2 == s * (u2 * c2) - s * mul_loss(u2, c2)) by (nonlinear_arith)
        requires
            x2 == u2 * c2 - mul_loss(u2, c2),
    ;
    assert(s * x3 == s * (a1 * bt1) - s * mul_loss(a1, bt1)) by (nonlinear_arith)
        requires
            x3 == a1 * bt1 - mul_loss(a1, bt1),
    ;
    assert(s * x4 == s * (a2 * bt2) - s * mul_loss(a2, bt2)) by (nonlinear_arith)
        requires
            x4 == a2 * bt2 - mul_loss(a2, bt2),
    ;
    assert(s * y1 == s * (a1 * v1) - s * mul_loss(a1, v1)) by (nonlinear_arith)
        requires
            y1 == a1 * v1 - mul_loss(a1, v1),
    ;
    assert(s * y2 == s * (a2 * v2) - s * mul_loss(a2, v2)) by (nonlinear_arith)
        requires
            y2 == a2 * v2 - mul_loss(a2, v2),
    ;
    assert(s * (mul_loss(a1, v1) + mul_loss(a2, v2)) == s * mul_loss(a1, v1) + s * mul_loss(
        a2,
        v2,
    )) by (nonlinear_arith);
    assert(s * (mul_loss(u1, c1) + mul_loss(u2, c2) + mul_loss(a1, bt1) + mul_loss(a2, bt2)) == s
        * mul_loss(u1, c1) + s * mul_loss(u2, c2) + s * mul_loss(a1, bt1) + s * mul_loss(a2, bt2))
        by (nonlinear_arith);
}

/// The two nestings of a triple product agree to within twice the sizes of
/// the outer factors, in millionths, plus four millionths.
proof fn lemma_nested_close(
    a1: int,
    a2: int,
    b11: int,
    b12: int,
    b21: int,
    b22: int,
    bt1: int,
    bt2: int,
    c1: int,
    c2: int,
)
    ensures
        ({
            let left = left_nested(a1, a2, b11, b12, b21, b22, bt1, bt2, c1, c2);
            let right = right_nested(a1, a2, b11, b12, b21, b22, bt1, bt2, c1, c2);
            let bound = 2 * (abs(a1) + abs(a2) + abs(c1) + abs(c2)) + 4 * SCALE;
            -bound <= SCALE * (left - right) <= bound
        }),
{
    let u1 = mul_raw(a1, b11) + mul_raw(a2, b21);
    let u2 = mul_raw(a1, b12) + mul_raw(a2, b22);
    let v1 = mul_raw(b11, c1) + mul_raw(b12, c2) + bt1;
    let v2 = mul_raw(b21, c1) + mul_raw(b22, c2) + bt2;
    lemma_nested_difference(a1, a2, b11, b12, b21, b22, bt1, bt2, c1, c2);
    lemma_mul_loss(a1, b11);
    lemma_mul_loss(a2, b21);
    lemma_mul_loss(a1, b12);
    lemma_mul_loss(a2, b22);
    lemma_mul_loss(a1, bt1);
    lemma_mul_loss(a2, bt2);
    lemma_mul_loss(b11, c1);
    lemma_mul_loss(b12, c2);
    lemma_mul_loss(b21, c1);
    lemma_mul_loss(b22, c2);
    lemma_mul_loss(u1, c1);
    lemma_mul_loss(u2, c2);
    lemma_mul_loss(a1, v1);
    lemma_mul_loss(a2, v2);
    let limit = 2 * SCALE as int;
    lemma_loss_bound(mul_loss(b11, c1) + mul_loss(b12, c2), a1, limit);
    lemma_loss_bound(mul_loss(b21, c1) + mul_loss(b22, c2), a2, limit);
    lemma_loss_bound(mul_loss(a1, b11) + mul_loss(a2, b21), c1, limit);
    lemma_loss_bound(mul_loss(a1, b12) + mul_loss(a2, b22), c2, limit);
    assert(limit * abs(a1) == 2_000_000 * abs(a1));
    assert(limit * abs(a2) == 2_000_000 * abs(a2));
    assert(limit * abs(c1) == 2_000_000 * abs(c1));
    assert(limit * abs(c2) == 2_000_000 * abs(c2));
    let left = left_nested(a1, a2, b11, b12, b21, b22, bt1, bt2, c1, c2);
    let right = right_nested(a1, a2, b11, b12, b21, b22, bt1, bt2, c1, c2);
    assert(SCALE * SCALE * (left - right) == 1_000_000 * (SCALE * (left - right))) by (nonlinear_arith);
    assert(SCALE * (mul_loss(a1, v1) + mul_loss(a2, v2)) == 1_000_000 * (mul_loss(a1, v1)
        + mul_loss(a2, v2)));
    assert(SCALE * (mul_loss(u1, c1) + mul_loss(u2, c2) + mul_loss(a1, bt1) + mul_loss(a2, bt2))
        == 1_000_000 * (mul_loss(u1, c1) + mul_loss(u2, c2) + mul_loss(a1, bt1) + mul_loss(
        a2,
        bt2,
    )));
}

proof fn lemma_whole_loss(x: int, y: int)
    requires
        x % (SCALE as int) == 0 || y % (SCALE as int) == 0,
    ensures
        mul_loss(x, y) == 0,
{
    if x % 1_000_000 == 0 {
        let k = x / 1_000_000;
        assert(x * y == (k * y) * 1_000_000) by (nonlinear_arith)
            requires
                x == 1_000_000 * k,
        ;
        lemma_mod_multiples_basic(k * y, 1_000_000);
    } else {
        let k = y / 1_000_000;
        assert(x * y == (x * k) * 1_000_000) by (nonlinear_arith)
            requires
                y == 1_000_000 * k,
        ;
        lemma_mod_multiples_basic(x * k, 1_000_000);
    }
}

proof fn lemma_zero_product(x: int, y: int)
    by (nonlinear_arith)
    requires
        x == 0 || y == 0,
    ensures
        x * y == 0,
{
}

/// Where the outer factors are whole numbers, no rounding loses anything and
/// the two nestings agree exactly.
proof fn lemma_nested_equal(
    a1: int,
    a2: int,
    b11: int,
    b12: int,
    b21: int,
    b22: int,
    bt1: int,
    bt2: int,
    c1: int,
    c2: int,
)
    requires
        a1 % (SCALE as int) == 0,
        a2 % (SCALE as int) == 0,
        c1 % (SCALE as int) == 0,
        c2 % (SCALE as int) == 0,
    ensures
        left_nested(a1, a2, b11, b12, b21, b22, bt1, bt2, c1, c2) == right_nested(
            a1,
            a2,
            b11,
            b12,
            b21,
            b22,
            bt1,
            bt2,
            c1,
            c2,
        ),
{
    let u1 = mul_raw(a1, b11) + mul_raw(a2, b21);
    let u2 = mul_raw(a1, b12) + mul_raw(a2, b22);
    let v1 = mul_raw(b11, c1) + mul_raw(b12, c2) + bt1;
    let v2 = mul_raw(b21, c1) + mul_raw(b22, c2) + bt2;
    lemma_nested_difference(a1, a2, b11, b12, b21, b22, bt1, bt2, c1, c2);
    lemma_whole_loss(a1, b11);
    lemma_whole_loss(a2, b21);
    lemma_whole_loss(a1, b12);
    lemma_whole_loss(a2, b22);
    lemma_whole_loss(a1, bt1);
    lemma_whole_loss(a2, bt2);
    lemma_whole_loss(b11, c1);
    lemma_whole_loss(b12, c2);
    lemma_whole_loss(b21, c1);
    lemma_whole_loss(b22, c2);
    lemma_whole_loss(u1, c1);
    lemma_whole_loss(u2, c2);
    lemma_whole_loss(a1, v1);
    lemma_whole_loss(a2, v2);
    let left = left_nested(a1, a2, b11, b12, b21, b22, bt1, bt2, c1, c2);
    let right = right_nested(a1, a2, b11, b12, b21, b22, bt1, bt2, c1, c2);
    lemma_zero_product(a1, mul_loss(b11, c1) + mul_loss(b12, c2));
    lemma_zero_product(a2, mul_loss(b21, c1) + mul_loss(b22, c2));
    lemma_zero_product(mul_loss(a1, b11) + mul_loss(a2, b21), c1);
    lemma_zero_product(mul_loss(a1, b12) + mul_loss(a2, b22), c2);
    lemma_zero_product(SCALE as int, mul_loss(a1, v1) + mul_loss(a2, v2));
    lemma_zero_product(
        SCALE as int,
        mul_loss(u1, c1) + mul_loss(u2, c2) + mul_loss(a1, bt1) + mul_loss(a2, bt2),
    );
    let d = left - right;
    assert(d == 0) by (nonlinear_arith)
        requires
            SCALE * SCALE * d == 0,
    ;
}

/// Sum of the magnitudes of the four entries of the linear part, raw.
pub open spec fn linear_size(t: Transform) -> int {
    abs(t.xx@) + abs(t.xy@) + abs(t.yx@) + abs(t.yy@)
}

/// Sum of the magnitudes of all six entries, raw.
pub open spec fn full_size(t: Transform) -> int {
    linear_size(t) + abs(t.tx@) + abs(t.ty@)
}

/// How far apart, in raw units, the entries of `(a * b) * c` and of
/// `a * (b * c)` can lie: four millionths plus two millionths for each unit
/// of magnitude in the outer factors.
pub open spec fn associativity_tolerance(a: Transform, c: Transform) -> int {
    2 * (linear_size(a) + full_size(c)) / (SCALE as int) + 4
}

/// Whether two numbers differ by at most `tolerance` raw units.
pub open spec fn close(x: Fixed, y: Fixed, tolerance: int) -> bool {
    -tolerance <= x@ - y@ <= tolerance
}

/// Whether two transforms differ by at most `tolerance` raw units in every
/// entry.
pub open spec fn transforms_close(l: Transform, r: Transform, tolerance: int) -> bool {
    &&& close(l.xx, r.xx, tolerance)
    &&& close(l.xy, r.xy, tolerance)
    &&& close(l.tx, r.tx, tolerance)
    &&& close(l.yx, r.yx, tolerance)
    &&& close(l.yy, r.yy, tolerance)
    &&& close(l.ty, r.ty, tolerance)
}

/// Whether neither nesting of the composition of three transforms saturates.
pub open spec fn nest_exactly(a: Transform, b: Transform, c: Transform) -> bool {
    &&& a.composes_exactly(b)
    &&& a.compose(b).composes_exactly(c)
    &&& b.composes_exactly(c)
    &&& a.composes_exactly(b.compose(c))
}

/// Composition is associative within rounding: as long as nothing
/// saturates, `(a * b) * c` and `a * (b * c)` agree in every entry to
/// within [`associativity_tolerance`].
pub proof fn lemma_compose_associative(a: Transform, b: Transform, c: Transform)
    requires
        nest_exactly(a, b, c),
    ensures
        transforms_close(
            a.compose(b).compose(c),
            a.compose(b.compose(c)),
            associativity_tolerance(a, c),
        ),
{
    lemma_mul_raw_unit(a.xx@);
    lemma_mul_raw_unit(a.xy@);
    lemma_mul_raw_unit(a.yx@);
    lemma_mul_raw_unit(a.yy@);
    lemma_nested_close(a.xx@, a.xy@, b.xx@, b.xy@, b.yx@, b.yy@, 0, 0, c.xx@, c.yx@);
    lemma_nested_close(a.xx@, a.xy@, b.xx@, b.xy@, b.yx@, b.yy@, 0, 0, c.xy@, c.yy@);
    lemma_nested_close(a.xx@, a.xy@, b.xx@, b.xy@, b.yx@, b.yy@, b.tx@, b.ty@, c.tx@, c.ty@);
    lemma_nested_close(a.yx@, a.yy@, b.xx@, b.xy@, b.yx@, b.yy@, 0, 0, c.xx@, c.yx@);
    lemma_nested_close(a.yx@, a.yy@, b.xx@, b.xy@, b.yx@, b.yy@, 0, 0, c.xy@, c.yy@);
    lemma_nested_close(a.yx@, a.yy@, b.xx@, b.xy@, b.yx@, b.yy@, b.tx@, b.ty@, c.tx@, c.ty@);
}

/// Composition is exactly associative where the outer factors have whole
/// entries and nothing saturates: then `(a * b) * c == a * (b * c)`.
pub proof fn lemma_compose_associative_whole(a: Transform, b: Transform, c: Transform)
    requires
        nest_exactly(a, b, c),
        a.is_whole(),
        c.is_whole(),
    ensures
        a.compose(b).compose(c) == a.compose(b.compose(c)),
{
    lemma_mul_raw_unit(a.xx@);
    lemma_mul_raw_unit(a.xy@);
    lemma_mul_raw_unit(a.yx@);
    lemma_mul_raw_unit(a.yy@);
    lemma_nested_equal(a.xx@, a.xy@, b.xx@, b.xy@, b.yx@, b.yy@, 0, 0, c.xx@, c.yx@);
    lemma_nested_equal(a.xx@, a.xy@, b.xx@, b.xy@, b.yx@, b.yy@, 0, 0, c.xy@, c.yy@);
    lemma_nested_equal(a.xx@, a.xy@, b.xx@, b.xy@, b.yx@, b.yy@, b.tx@, b.ty@, c.tx@, c.ty@);
    lemma_nested_equal(a.yx@, a.yy@, b.xx@, b.xy@, b.yx@, b.yy@, 0, 0, c.xx@, c.yx@);
    lemma_nested_equal(a.yx@, a.yy@, b.xx@, b.xy@, b.yx@, b.yy@, 0, 0, c.xy@, c.yy@);
    lemma_nested_equal(a.yx@, a.yy@, b.xx@, b.xy@, b.yx@, b.yy@, b.tx@, b.ty@, c.tx@, c.ty@);
}

} // verus!
