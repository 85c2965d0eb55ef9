use raytracer::fixed::{Fx, MAX_RAW, MIN_RAW, SCALE};

#[test]
fn add_and_sub_are_exact() {
    let a = Fx { raw: 3 * SCALE };
    let b = Fx { raw: 2 * SCALE };
    assert_eq!(a.add(b).raw, 5 * SCALE);
    assert_eq!(a.sub(b).raw, SCALE);
    assert_eq!(b.sub(a).raw, -SCALE);
}

#[test]
fn add_saturates_at_the_bounds() {
    let big = Fx { raw: MAX_RAW };
    assert_eq!(big.add(big).raw, MAX_RAW);
    let small = Fx { raw: MIN_RAW };
    assert_eq!(small.add(small).raw, MIN_RAW);
    assert_eq!(small.sub(big).raw, MIN_RAW);
}

#[test]
fn mul_rescales_exactly() {
    // 1.5 * 2.5 == 3.75
    let a = Fx { raw: 3 * SCALE / 2 };
    let b = Fx { raw: 5 * SCALE / 2 };
    assert_eq!(a.mul(b).raw, 15 * SCALE / 4);
    // multiplication truncates toward zero symmetrically
    let c = Fx { raw: 1 };
    assert_eq!(c.mul(c).raw, 0);
    assert_eq!(c.neg().mul(c).raw, 0);
}

#[test]
fn div_is_exact_on_exact_quotients() {
    let a = Fx { raw: 3 * SCALE };
    let b = Fx { raw: 2 * SCALE };
    assert_eq!(a.div(b).raw, 3 * SCALE / 2);
    assert_eq!(a.neg().div(b).raw, -(3 * SCALE / 2));
}

#[test]
fn div_by_zero_saturates_by_sign() {
    let z = Fx { raw: 0 };
    assert_eq!(Fx { raw: SCALE }.div(z).raw, MAX_RAW);
    assert_eq!(Fx { raw: -SCALE }.div(z).raw, MIN_RAW);
    assert_eq!(z.div(z).raw, 0);
}

#[test]
fn sqrt_of_perfect_squares() {
    assert_eq!(Fx::from_i32(4).sqrt().raw, 2 * SCALE);
    assert_eq!(Fx::from_i32(9).sqrt().raw, 3 * SCALE);
    // sqrt(0.25) == 0.5
    assert_eq!(Fx { raw: SCALE / 4 }.sqrt().raw, SCALE / 2);
}

#[test]
fn sqrt_rounds_down_and_zeroes_negatives() {
    // sqrt(2) == 1.41421..., mantissa floor(sqrt(2) * 65536) == 92681
    assert_eq!(Fx::from_i32(2).sqrt().raw, 92681);
    assert_eq!(Fx::from_i32(-4).sqrt().raw, 0);
    assert_eq!(Fx { raw: 0 }.sqrt().raw, 0);
}

#[test]
fn order_min_max_abs() {
    let a = Fx { raw: -5 };
    let b = Fx { raw: 7 };
    assert!(a.lt(b));
    assert!(a.le(b));
    assert!(!b.lt(a));
    assert_eq!(a.min(b).raw, -5);
    assert_eq!(a.max(b).raw, 7);
    assert_eq!(a.abs().raw, 5);
    assert_eq!(b.abs().raw, 7);
    assert_eq!(a.neg().raw, 5);
}

#[test]
fn conversions_are_exact() {
    assert_eq!(Fx::from_u32(400).raw, 400 * SCALE);
    assert_eq!(Fx::from_i32(-3).raw, -3 * SCALE);
    assert_eq!(Fx { raw: 5 * SCALE + 123 }.to_u32_floor(), 5);
    assert_eq!(Fx { raw: -SCALE }.to_u32_floor(), 0);
    assert_eq!(Fx::zero().raw, 0);
    assert_eq!(Fx::one().raw, SCALE);
    assert_eq!(Fx::from_raw(42).raw, 42);
}
