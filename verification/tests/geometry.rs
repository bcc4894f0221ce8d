use paddle::geometry::{Circle, Fixed, Line, Rectangle, Transform, Triangle, Vector};

fn fx(raw: i64) -> Fixed {
    Fixed::from_raw(raw)
}

fn v(x: i64, y: i64) -> Vector {
    Vector::from_ints(x, y)
}

#[test]
fn fixed_from_int_scales_by_a_million() {
    assert_eq!(Fixed::from_int(3).raw, 3_000_000);
    assert_eq!(Fixed::from_int(-2).raw, -2_000_000);
    assert_eq!(Fixed::one().raw, 1_000_000);
    assert_eq!(Fixed::zero().raw, 0);
}

#[test]
fn fixed_from_int_saturates() {
    assert_eq!(Fixed::from_int(i64::MAX).raw, i64::MAX);
    assert_eq!(Fixed::from_int(i64::MIN).raw, i64::MIN);
}

#[test]
fn fixed_sum_and_difference() {
    assert_eq!(fx(1_500_000).plus(fx(250_000)).raw, 1_750_000);
    assert_eq!(fx(1_500_000).minus(fx(2_000_000)).raw, -500_000);
    assert_eq!(fx(i64::MAX).plus(fx(1)).raw, i64::MAX);
    assert_eq!(fx(i64::MIN).minus(fx(1)).raw, i64::MIN);
}

#[test]
fn fixed_negation_saturates_at_the_lowest_value() {
    assert_eq!(fx(5).neg().raw, -5);
    assert_eq!(fx(i64::MIN).neg().raw, i64::MAX);
}

#[test]
fn fixed_product_rounds_down() {
    assert_eq!(fx(1_500_000).times(fx(333_333)).raw, 499_999);
    assert_eq!(fx(-1).times(fx(1)).raw, -1);
    assert_eq!(fx(2_000_000).times(fx(3_000_000)).raw, 6_000_000);
    assert_eq!(fx(-1_500_000).times(fx(1_000_001)).raw, -1_500_002);
}

#[test]
fn fixed_product_saturates() {
    assert_eq!(fx(i64::MAX).times(fx(2_000_000)).raw, i64::MAX);
    assert_eq!(fx(i64::MIN).times(fx(2_000_000)).raw, i64::MIN);
}

#[test]
fn fixed_quotient_rounds_down() {
    assert_eq!(Fixed::from_int(3).div(Fixed::from_int(2)).raw, 1_500_000);
    assert_eq!(Fixed::from_int(1).div(Fixed::from_int(3)).raw, 333_333);
    assert_eq!(Fixed::from_int(-1).div(Fixed::from_int(3)).raw, -333_334);
    assert_eq!(Fixed::from_int(1).div(Fixed::from_int(-3)).raw, -333_334);
    assert_eq!(Fixed::from_int(-1).div(Fixed::from_int(-3)).raw, 333_333);
}

#[test]
fn fixed_division_by_zero_yields_the_sentinel() {
    assert_eq!(Fixed::from_int(3).div(Fixed::zero()).raw, i64::MAX);
    assert_eq!(Fixed::from_int(-3).div(Fixed::zero()).raw, i64::MIN);
    assert_eq!(Fixed::zero().div(Fixed::zero()).raw, 0);
    assert_eq!(Fixed::zero().recip().raw, i64::MAX);
}

#[test]
fn fixed_reciprocal() {
    assert_eq!(Fixed::from_int(4).recip().raw, 250_000);
    assert_eq!(Fixed::from_int(4096).recip().raw, 244);
}

#[test]
fn fixed_square_root_rounds_down() {
    assert_eq!(Fixed::from_int(4).sqrt().raw, 2_000_000);
    assert_eq!(Fixed::from_int(2).sqrt().raw, 1_414_213);
    assert_eq!(Fixed::zero().sqrt().raw, 0);
    assert_eq!(Fixed::from_int(-4).sqrt().raw, 0);
    assert_eq!(fx(i64::MAX).sqrt().raw, 3_037_000_499_976);
}

#[test]
fn fixed_floor_min_max() {
    assert_eq!(fx(1_999_999).floor(), 1);
    assert_eq!(fx(-1).floor(), -1);
    assert_eq!(fx(-1_000_000).floor(), -1);
    assert_eq!(fx(3).min(fx(4)).raw, 3);
    assert_eq!(fx(3).max(fx(4)).raw, 4);
}

#[test]
fn vector_arithmetic() {
    let a = v(3, 4);
    let b = v(1, -2);
    assert_eq!(a.plus(b), v(4, 2));
    assert_eq!(a.minus(b), v(2, 6));
    assert_eq!(a.neg(), v(-3, -4));
    assert_eq!(a.scaled(Fixed::from_int(2)), v(6, 8));
    assert_eq!(a.divided(Fixed::from_int(2)), Vector::new(fx(1_500_000), fx(2_000_000)));
    assert_eq!(a.times(b), v(3, -8));
    assert_eq!(a.dot(b).raw, -5_000_000);
}

#[test]
fn vector_constants() {
    assert_eq!(Vector::zero(), v(0, 0));
    assert_eq!(Vector::one(), v(1, 1));
    assert_eq!(Vector::unit_x(), v(1, 0));
    assert_eq!(Vector::unit_y(), v(0, 1));
}

#[test]
fn vector_length_and_distance() {
    assert_eq!(v(3, 4).len().raw, 5_000_000);
    assert_eq!(v(0, 0).len().raw, 0);
    assert_eq!(v(1, 1).len().raw, 1_414_213);
    assert_eq!(v(1, 1).distance(v(4, 5)).raw, 5_000_000);
}

#[test]
fn vector_normalize() {
    assert_eq!(v(3, 4).normalize(), Vector::new(fx(600_000), fx(800_000)));
    assert_eq!(v(0, 0).normalize(), v(0, 0));
}

#[test]
fn vector_reciprocal_of_zero_component_is_the_sentinel() {
    let r = v(2, 0).recip();
    assert_eq!(r.x.raw, 500_000);
    assert_eq!(r.y.raw, i64::MAX);
}

#[test]
fn vector_rotation_by_a_quarter_turn() {
    let cos = Fixed::zero();
    let sin = Fixed::one();
    assert_eq!(v(1, 0).rotated(cos, sin), v(0, 1));
    assert_eq!(v(0, 1).rotated(cos, sin), v(-1, 0));
}

#[test]
fn rectangle_accessors() {
    let r = Rectangle::new(v(10, 20), v(30, 40));
    assert_eq!(r.x().raw, 10_000_000);
    assert_eq!(r.y().raw, 20_000_000);
    assert_eq!(r.width().raw, 30_000_000);
    assert_eq!(r.height().raw, 40_000_000);
    assert_eq!(r.top_left(), v(10, 20));
    assert_eq!(r.size(), v(30, 40));
    assert_eq!(r.bottom_right(), v(40, 60));
    assert_eq!(r.center(), v(25, 40));
    assert_eq!(Rectangle::new_sized(v(5, 6)), Rectangle::new(v(0, 0), v(5, 6)));
    assert_eq!(Rectangle::from_corners(v(1, 2), v(4, 6)), Rectangle::new(v(1, 2), v(3, 4)));
}

#[test]
fn rectangle_contains_lower_edges_but_not_upper_edges() {
    let r = Rectangle::new(v(10, 20), v(30, 40));
    assert!(r.contains(v(10, 20)));
    assert!(r.contains(v(39, 59)));
    assert!(r.contains(Vector::new(fx(39_999_999), fx(59_999_999))));
    assert!(!r.contains(v(40, 20)));
    assert!(!r.contains(v(10, 60)));
    assert!(!r.contains(Vector::new(fx(9_999_999), fx(20_000_000))));
    assert!(!r.contains(v(0, 0)));
}

#[test]
fn rectangle_contains_does_not_saturate_its_upper_bounds() {
    let r = Rectangle::new(Vector::new(fx(i64::MAX - 10), fx(0)), Vector::new(fx(100), fx(1)));
    assert!(r.contains(Vector::new(fx(i64::MAX), fx(0))));
}

#[test]
fn shapes_hold_what_they_are_given() {
    let c = Circle::new(v(1, 2), Fixed::from_int(3));
    assert_eq!(c.center(), v(1, 2));
    assert_eq!(c.radius.raw, 3_000_000);
    let t = Triangle::new(v(0, 0), v(3, 0), v(0, 3));
    assert_eq!(t.center(), v(1, 1));
    let l = Line::new(v(0, 0), v(1, 1));
    assert_eq!(l.t.raw, 1_000_000);
    assert_eq!(l.with_thickness(Fixed::from_int(2)).t.raw, 2_000_000);
}

#[test]
fn transform_constructors() {
    let id = Transform::identity();
    assert_eq!((id.xx.raw, id.xy.raw, id.tx.raw), (1_000_000, 0, 0));
    assert_eq!((id.yx.raw, id.yy.raw, id.ty.raw), (0, 1_000_000, 0));
    let t = Transform::translate(v(3, 4));
    assert_eq!((t.xx.raw, t.xy.raw, t.tx.raw), (1_000_000, 0, 3_000_000));
    assert_eq!((t.yx.raw, t.yy.raw, t.ty.raw), (0, 1_000_000, 4_000_000));
    let s = Transform::scale(v(2, 5));
    assert_eq!((s.xx.raw, s.xy.raw, s.tx.raw), (2_000_000, 0, 0));
    assert_eq!((s.yx.raw, s.yy.raw, s.ty.raw), (0, 5_000_000, 0));
    let r = Transform::rotate(fx(600_000), fx(800_000));
    assert_eq!((r.xx.raw, r.xy.raw, r.tx.raw), (600_000, -800_000, 0));
    assert_eq!((r.yx.raw, r.yy.raw, r.ty.raw), (800_000, 600_000, 0));
}

#[test]
fn translate_then_apply_moves_point() {
    let t = Transform::translate(v(100, 50));
    assert_eq!(t.apply(v(1, 2)), v(101, 52));
}

#[test]
fn composition_applies_the_right_factor_first() {
    let a = Transform::translate(v(10, 0));
    let b = Transform::scale(v(2, 2));
    let p = v(1, 1);
    assert_eq!(a.compose(b).apply(p), a.apply(b.apply(p)));
    assert_eq!(a.compose(b).apply(p), v(12, 2));
    assert_eq!(b.compose(a).apply(p), v(22, 2));
}

#[test]
fn identity_is_neutral() {
    let t = Transform {
        xx: fx(1_234_567),
        xy: fx(-7),
        tx: fx(i64::MAX),
        yx: fx(i64::MIN),
        yy: fx(3),
        ty: fx(-999_999),
    };
    assert_eq!(Transform::identity().compose(t), t);
    assert_eq!(t.compose(Transform::identity()), t);
}

#[test]
fn composition_is_associative_for_whole_outer_factors() {
    let a = Transform::translate(v(7, -3)).compose(Transform::scale(v(2, 3)));
    let b = Transform::rotate(fx(600_000), fx(800_000)).compose(Transform::translate(
        Vector::new(fx(1_234_567), fx(-333_333)),
    ));
    let c = Transform::scale(v(4, 5)).compose(Transform::translate(v(1, 1)));
    assert_eq!(a.compose(b).compose(c), a.compose(b.compose(c)));
}

#[test]
fn composition_is_associative_within_tolerance() {
    let a = Transform::scale(Vector::new(fx(500_000), fx(500_000)));
    let b = Transform::scale(Vector::new(fx(1), fx(1)));
    let c = Transform::scale(v(2, 2));
    let left = a.compose(b).compose(c);
    let right = a.compose(b.compose(c));
    assert_eq!(left.xx.raw, 0);
    assert_eq!(right.xx.raw, 1);
    // two half units and two double units of magnitude: 2 * 5 + 4 millionths
    assert!((left.xx.raw - right.xx.raw).abs() <= 2 * (1_000_000 + 4_000_000) / 1_000_000 + 4);
}

#[test]
fn inverse_of_a_translation_undoes_it() {
    let t = Transform::translate(Vector::new(fx(12_345_678), fx(-9_876_543)));
    assert_eq!(t.inverse(), Transform::translate(Vector::new(fx(-12_345_678), fx(9_876_543))));
    let round = t.inverse().compose(t);
    assert_eq!(round, Transform::identity());
    let p = Vector::new(fx(55_555_555), fx(-1));
    assert_eq!(round.apply(p), p);
}

#[test]
fn inverse_of_a_scale() {
    let s = Transform::scale(v(2, 4));
    let inv = s.inverse();
    assert_eq!((inv.xx.raw, inv.xy.raw, inv.tx.raw), (500_000, 0, 0));
    assert_eq!((inv.yx.raw, inv.yy.raw, inv.ty.raw), (0, 250_000, 0));
    assert!(s.is_invertible());
    let small = Transform::scale(Vector::new(fx(1_000), fx(1_000)));
    assert_eq!(small.inverse().xx.raw, 1_000_000_000);
}

#[test]
fn inverse_of_a_general_transform() {
    // x' = 2x + y + 3, y' = x + y - 1; determinant 1
    let t = Transform {
        xx: Fixed::from_int(2),
        xy: Fixed::from_int(1),
        tx: Fixed::from_int(3),
        yx: Fixed::from_int(1),
        yy: Fixed::from_int(1),
        ty: Fixed::from_int(-1),
    };
    let inv = t.inverse();
    assert_eq!((inv.xx.raw, inv.xy.raw, inv.tx.raw), (1_000_000, -1_000_000, -4_000_000));
    assert_eq!((inv.yx.raw, inv.yy.raw, inv.ty.raw), (-1_000_000, 2_000_000, 5_000_000));
    assert_eq!(inv.apply(t.apply(v(7, 9))), v(7, 9));
}

#[test]
fn singular_transform_is_not_invertible() {
    let s = Transform::scale(v(0, 1));
    assert!(!s.is_invertible());
    let inv = s.inverse();
    assert_eq!(inv.xx.raw, i64::MAX);
    assert_eq!(inv.yy.raw, 0);
}

#[test]
fn transformed_rectangle_is_the_bounding_box_of_its_corners() {
    let r = Rectangle::new(v(1, 2), v(3, 4));
    assert_eq!(Transform::translate(v(10, 10)).apply_rect(r), Rectangle::new(v(11, 12), v(3, 4)));
    assert_eq!(Transform::scale(v(2, 2)).apply_rect(r), Rectangle::new(v(2, 4), v(6, 8)));
    // a quarter turn maps (x, y) to (-y, x)
    let quarter = Transform::rotate(Fixed::zero(), Fixed::one());
    assert_eq!(quarter.apply_rect(r), Rectangle::new(v(-6, 1), v(4, 3)));
    assert_eq!(Transform::scale(v(-1, 1)).apply_rect(r), Rectangle::new(v(-4, 2), v(3, 4)));
}
