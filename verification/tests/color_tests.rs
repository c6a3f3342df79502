use raytrace::color::Color;
use raytrace::fixed::Fixed;

fn c(a: i64, r: i64, g: i64, b: i64) -> Color {
    Color {
        a: Fixed::from_bits(a),
        r: Fixed::from_bits(r),
        g: Fixed::from_bits(g),
        b: Fixed::from_bits(b),
    }
}

fn transparent_black() -> Color {
    Color::from_argb(Fixed::zero(), Fixed::zero(), Fixed::zero(), Fixed::zero())
}

#[test]
fn constructors_set_channels() {
    let color = Color::new(
        Fixed::from_bits(1),
        Fixed::from_bits(2),
        Fixed::from_bits(3),
        Fixed::from_bits(4),
    );
    assert_eq!(color, c(1, 2, 3, 4));
    let opaque = Color::from_rgb(Fixed::from_bits(2), Fixed::from_bits(3), Fixed::from_bits(4));
    assert_eq!(opaque, c(65536, 2, 3, 4));
    assert_eq!(
        Color::from_argb(
            Fixed::from_bits(9),
            Fixed::from_bits(8),
            Fixed::from_bits(7),
            Fixed::from_bits(6),
        ),
        c(9, 8, 7, 6),
    );
}

#[test]
fn eight_bit_components_scale_into_unit_range() {
    assert_eq!(Color::from_rgb_u8s(255, 0, 128), c(65536, 65536, 0, 32897));
    assert_eq!(Color::from_argb_u8s(0, 1, 128, 255), c(0, 258, 32897, 65536));
}

#[test]
fn eight_bit_conversion_truncates_and_saturates() {
    assert_eq!(c(65536, 32768, 131072, -32768).as_argb_u8s(), (255, 127, 255, 0));
    assert_eq!(c(0, 65536, 32896, 257).as_rgb_u8s(), (255, 127, 0));
    assert_eq!(Color::from_rgb_u8s(10, 20, 30).as_rgb_u8s(), (10, 20, 30));
}

#[test]
fn eight_bit_components_round_trip_exactly() {
    for component in 0..=255u8 {
        let color = Color::from_argb_u8s(component, component, component, component);
        assert_eq!(color.as_argb_u8s(), (component, component, component, component));
    }
}

#[test]
fn componentwise_products_and_sums() {
    let c1 = c(65536, 32768, 16384, 8192);
    let c2 = c(65536, 32768, 32768, 65536);
    assert_eq!(c1.times(c2), c(65536, 16384, 8192, 8192));
    assert_eq!(Color::multiply_colors(&c1, &c2), c(65536, 16384, 8192, 8192));
    assert_eq!(c1.plus(c2), c(131072, 65536, 49152, 73728));
    assert_eq!(c1.scale(Fixed::from_int(2)), c(131072, 65536, 32768, 16384));
    assert_eq!(c1.divide_scalar(Fixed::from_int(2)), c(32768, 16384, 8192, 4096));
}

#[test]
fn multiply_many_folds_from_white() {
    let c1 = c(65536, 32768, 16384, 8192);
    let c2 = c(65536, 32768, 32768, 65536);
    assert_eq!(Color::multiply_many_colors(&vec![]), c(65536, 65536, 65536, 65536));
    assert_eq!(Color::multiply_many_colors(&vec![c1]), c1);
    assert_eq!(Color::multiply_many_colors(&vec![c1, c2]), c(65536, 16384, 8192, 8192));
}

#[test]
fn mix_weighs_each_color() {
    let c1 = c(65536, 32768, 16384, 8192);
    let c2 = c(65536, 32768, 32768, 65536);
    let colors = vec![c1, c2];
    let weights = vec![Fixed::from_bits(32768), Fixed::from_bits(16384)];
    assert_eq!(Color::mix_colors(&colors, &weights), c(49152, 24576, 16384, 20480));
    // Unpaired entries of the longer list are ignored.
    let short_weights = vec![Fixed::one()];
    assert_eq!(Color::mix_colors(&colors, &short_weights), c1);
}

#[test]
fn clamped_projects_channels_into_unit_range() {
    assert_eq!(c(131072, -5, 65537, 100).clamped(), c(65536, 0, 65536, 100));
    assert_eq!(c(0, 65536, 32768, 1).clamped(), c(0, 65536, 32768, 1));
}

#[test]
fn addition_is_commutative() {
    let c1 = c(5, -3, 70000, 123);
    let c2 = c(9, 44, -70000, 321);
    assert_eq!(c1.plus(c2), c2.plus(c1));
    let near_max = c(i64::MAX - 1, 0, 0, 0);
    assert_eq!(near_max.plus(c1), c1.plus(near_max));
}

#[test]
fn addition_is_associative_without_saturation() {
    let c1 = c(5, -3, 70000, 123);
    let c2 = c(9, 44, -70000, 321);
    let c3 = c(-14, 1, 2, 3);
    assert_eq!(c1.plus(c2).plus(c3), c1.plus(c2.plus(c3)));
}

#[test]
fn transparent_black_is_the_additive_identity() {
    let c1 = c(5, -3, 70000, 123);
    assert_eq!(c1.plus(transparent_black()), c1);
    assert_eq!(transparent_black().plus(c1), c1);
}

#[test]
fn summing_no_colors_yields_the_identity() {
    assert_eq!(Color::sum(&vec![]), transparent_black());
    let c1 = c(5, -3, 70000, 123);
    let c2 = c(9, 44, -70000, 321);
    assert_eq!(Color::sum(&vec![c1]), c1);
    assert_eq!(Color::sum(&vec![c1, c2]), c1.plus(c2));
}
