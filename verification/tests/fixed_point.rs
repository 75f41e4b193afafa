use raycaster::data::Vec2;
use raycaster::fixed::{abs_i128, saturate_i128, sqrt_floor, Fixed, FRAC_BITS, ONE};

fn raw(v: i64) -> Fixed {
    Fixed::from_raw(v)
}

#[test]
fn one_has_sixteen_fractional_bits() {
    assert_eq!(ONE, 1i64 << FRAC_BITS);
    assert_eq!(Fixed::from_int(1).raw, 65536);
    assert_eq!(Fixed::from_int(-3).raw, -196608);
    assert_eq!(Fixed::from_raw(7).raw, 7);
}

#[test]
fn floor_rounds_towards_negative_infinity() {
    assert_eq!(raw(98304).floor(), 1);
    assert_eq!(raw(65535).floor(), 0);
    assert_eq!(raw(0).floor(), 0);
    assert_eq!(raw(-1).floor(), -1);
    assert_eq!(raw(-65536).floor(), -1);
    assert_eq!(raw(-65537).floor(), -2);
    assert_eq!(raw(i64::MIN).floor(), -(1i64 << 47));
    assert_eq!(raw(i64::MAX).floor(), (1i64 << 47) - 1);
}

#[test]
fn fract_lies_in_unit_interval() {
    assert_eq!(raw(98304).fract().raw, 32768);
    assert_eq!(raw(-1).fract().raw, 65535);
    assert_eq!(raw(-98304).fract().raw, 32768);
    assert_eq!(raw(131072).fract().raw, 0);
    for v in [i64::MIN, -70000, -1, 0, 1, 65535, 65536, i64::MAX] {
        let f = raw(v).fract().raw;
        assert!(0 <= f && f < ONE);
        assert_eq!(raw(v).floor() as i128 * 65536 + f as i128, v as i128);
    }
}

#[test]
fn sum_and_difference_saturate() {
    assert_eq!((raw(98304) + raw(-32768)).raw, 65536);
    assert_eq!((raw(98304) - raw(131072)).raw, -32768);
    assert_eq!((raw(i64::MAX) + raw(1)).raw, i64::MAX);
    assert_eq!((raw(i64::MIN) + raw(-1)).raw, i64::MIN);
    assert_eq!((raw(i64::MIN) - raw(1)).raw, i64::MIN);
    assert_eq!((raw(0) - raw(i64::MIN)).raw, i64::MAX);
}

#[test]
fn product_rounds_down_and_saturates() {
    // 1.5 * 2.5 = 3.75
    assert_eq!((raw(98304) * raw(163840)).raw, 245760);
    // the smallest positive number squared is below the grid: it rounds to 0
    assert_eq!((raw(1) * raw(1)).raw, 0);
    // and a product just below zero rounds down to the first step below it
    assert_eq!((raw(-1) * raw(1)).raw, -1);
    assert_eq!((raw(-98304) * raw(32768)).raw, -49152);
    assert_eq!((raw(i64::MAX) * raw(i64::MAX)).raw, i64::MAX);
    assert_eq!((raw(i64::MIN) * raw(i64::MAX)).raw, i64::MIN);
    assert_eq!((raw(i64::MIN) * raw(i64::MIN)).raw, i64::MAX);
    assert_eq!((raw(12345) * Fixed::from_int(1)).raw, 12345);
}

#[test]
fn negation_saturates() {
    assert_eq!(raw(5).negate().raw, -5);
    assert_eq!(raw(-5).negate().raw, 5);
    assert_eq!(raw(i64::MIN).negate().raw, i64::MAX);
}

#[test]
fn wide_helpers() {
    assert_eq!(saturate_i128(1i128 << 70), i64::MAX);
    assert_eq!(saturate_i128(-(1i128 << 70)), i64::MIN);
    assert_eq!(saturate_i128(-42), -42);
    assert_eq!(abs_i128(i64::MIN), 1i128 << 63);
    assert_eq!(abs_i128(-7), 7);
    assert_eq!(abs_i128(7), 7);
}

#[test]
fn vector_new_and_set() {
    let mut v = Vec2::new(3, 4);
    assert_eq!((v.x, v.y), (3, 4));
    v.set(-1, 9);
    assert_eq!((v.x, v.y), (-1, 9));
}

#[test]
fn rotation_by_zero_is_identity() {
    let mut v = Vec2::new(raw(12345), raw(-67890));
    v.rotate(Fixed::from_int(1), Fixed::from_int(0));
    assert_eq!(v, Vec2::new(raw(12345), raw(-67890)));
}

#[test]
fn positive_quarter_turn_goes_left() {
    // cosine 0, sine 1: the x axis turns onto the y axis
    let mut v = Vec2::new(Fixed::from_int(1), Fixed::from_int(0));
    v.rotate(Fixed::from_int(0), Fixed::from_int(1));
    assert_eq!(v, Vec2::new(Fixed::from_int(0), Fixed::from_int(1)));
    v.rotate(Fixed::from_int(0), Fixed::from_int(1));
    assert_eq!(v, Vec2::new(Fixed::from_int(-1), Fixed::from_int(0)));
}

#[test]
fn rotation_formula_on_exact_values() {
    // cos = 0.5, sin = 0.25 (not a true rotation; the formula is what counts)
    let mut v = Vec2::new(Fixed::from_int(4), Fixed::from_int(8));
    v.rotate(raw(32768), raw(16384));
    // x' = 4 * 0.5 - 8 * 0.25 = 0,  y' = 4 * 0.25 + 8 * 0.5 = 5
    assert_eq!(v, Vec2::new(Fixed::from_int(0), Fixed::from_int(5)));
}

#[test]
fn heading_and_plane_turn_together() {
    let cos = raw(46341);
    let sin = raw(46341);
    let mut dir = Vec2::new(Fixed::from_int(-1), Fixed::from_int(0));
    let mut cam = Vec2::new(Fixed::from_int(0), raw(43253));
    dir.rotate(cos, sin);
    cam.rotate(cos, sin);
    // the two still stand at a right angle, up to rounding
    let dot = (dir.x * cam.x + dir.y * cam.y).raw;
    assert!(dot.abs() <= 2);
}

#[test]
fn scaling_and_adding_vectors() {
    let v = Vec2::new(raw(98304), raw(-65536));
    let half = raw(32768);
    assert_eq!(v * half, Vec2::new(raw(49152), raw(-32768)));
    let mut w = v;
    w.mul_assign(Fixed::from_int(2));
    assert_eq!(w, Vec2::new(raw(196608), raw(-131072)));
    assert_eq!(v.added(w), Vec2::new(raw(294912), raw(-196608)));
}

#[test]
fn square_roots_are_rounded_down() {
    assert_eq!(sqrt_floor(0), 0);
    assert_eq!(sqrt_floor(1), 1);
    assert_eq!(sqrt_floor(3), 1);
    assert_eq!(sqrt_floor(4), 2);
    assert_eq!(sqrt_floor(24), 4);
    assert_eq!(sqrt_floor(25), 5);
    assert_eq!(sqrt_floor(1 << 126), 1 << 63);
    assert_eq!(sqrt_floor(u128::MAX), u64::MAX);
    assert_eq!(sqrt_floor((u64::MAX as u128) * (u64::MAX as u128)), u64::MAX);
    assert_eq!(sqrt_floor((u64::MAX as u128) * (u64::MAX as u128) - 1), u64::MAX - 1);
    for n in 0u128..2000 {
        let s = sqrt_floor(n) as u128;
        assert!(s * s <= n && n < (s + 1) * (s + 1));
    }
}

#[test]
fn length_of_a_vector() {
    assert_eq!(Vec2::new(Fixed::from_int(3), Fixed::from_int(4)).length(), Fixed::from_int(5));
    assert_eq!(Vec2::new(Fixed::from_int(-3), Fixed::from_int(4)).length(), Fixed::from_int(5));
    assert_eq!(Vec2::new(Fixed::from_int(0), Fixed::from_int(0)).length(), Fixed::from_int(0));
    assert_eq!(Vec2::new(Fixed::from_int(0), raw(-7)).length(), raw(7));
    // the diagonal of the unit square: 1.41421...
    assert_eq!(Vec2::new(Fixed::from_int(1), Fixed::from_int(1)).length(), raw(92681));
    assert_eq!(Vec2::new(raw(1), raw(1)).length(), raw(1));
    // out of range: the largest number
    assert_eq!(Vec2::new(raw(i64::MIN), raw(i64::MIN)).length(), raw(i64::MAX));
    assert_eq!(Vec2::new(raw(i64::MAX), raw(1)).length(), raw(i64::MAX));
    assert_eq!(Vec2::new(raw(i64::MAX), raw(0)).length(), raw(i64::MAX));
    assert_eq!(Vec2::new(raw(i64::MAX - 1), raw(0)).length(), raw(i64::MAX - 1));
}
