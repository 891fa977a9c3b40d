//! The saturating fixed-point scalar operations.

use trajgen::fx::{fx_abs, fx_add, fx_div, fx_mul, fx_neg, fx_sqrt, fx_sub, FX_ONE};
use trajgen::vec3::Coord3;

#[test]
fn multiplication_rescales() {
    assert_eq!(fx_mul(2_000_000, 3_000_000), 6_000_000);
    assert_eq!(fx_mul(-2_000_000, 3_000_000), -6_000_000);
    assert_eq!(fx_mul(1_500_000, 1_500_000), 2_250_000);
    assert_eq!(fx_mul(1, 1), 0);
}

#[test]
fn division_rescales_and_tolerates_zero() {
    assert_eq!(fx_div(6_000_000, 3_000_000), 2_000_000);
    assert_eq!(fx_div(-6_000_000, 3_000_000), -2_000_000);
    assert_eq!(fx_div(1_000_000, 3_000_000), 333_333);
    assert_eq!(fx_div(5, 0), 0);
}

#[test]
fn saturation_at_the_rails() {
    assert_eq!(fx_add(i64::MAX, 1), i64::MAX);
    assert_eq!(fx_sub(i64::MIN, 1), i64::MIN);
    assert_eq!(fx_mul(i64::MAX, i64::MAX), i64::MAX);
    assert_eq!(fx_mul(i64::MAX, -FX_ONE), -i64::MAX);
    assert_eq!(fx_neg(i64::MIN), i64::MAX);
    assert_eq!(fx_abs(i64::MIN), i64::MAX);
}

#[test]
fn square_roots_round_toward_zero() {
    assert_eq!(fx_sqrt(4_000_000), 2_000_000);
    assert_eq!(fx_sqrt(2_000_000), 1_414_213);
    assert_eq!(fx_sqrt(0), 0);
    assert_eq!(fx_sqrt(-5), 0);
    assert_eq!(fx_sqrt(314_500_000), 17_734_147);
}

#[test]
fn vector_operations() {
    let a = Coord3::new(3_000_000, 4_000_000, 0);
    assert_eq!(a.norm(), 5_000_000);
    let unit = a.normalize();
    assert_eq!(unit.x, 600_000);
    assert_eq!(unit.y, 800_000);
    let b = Coord3::new(1_000_000, 0, 0);
    assert_eq!(a.dot(&b), 3_000_000);
    let c = Coord3::new(0, 0, 1_000_000);
    let cross = b.cross(&c);
    assert_eq!(cross, Coord3::new(0, -1_000_000, 0));
    assert_eq!(Coord3::zeros().normalize(), Coord3::zeros());
    assert_eq!(a.minus(&a), Coord3::zeros());
    assert_eq!(a.plus(&a).scale(500_000), a);
}
