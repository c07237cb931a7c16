use svg_cascade::font::FontSizeSpec;
use svg_cascade::length::{Length, LengthUnit};
use svg_cascade::number::{Decimal, LIMIT, MICROS_PER_UNIT};
use svg_cascade::text::{eq_ignore_ascii_case, eq_str, rfind_char};
use svg_cascade::unit_interval::UnitInterval;

fn px(micros: i64) -> Length {
    Length::new(Decimal::from_micros(micros), LengthUnit::Px)
}

#[test]
fn whole_numbers_count_in_millionths() {
    assert_eq!(Decimal::from_int(42).micros, 42_000_000);
    assert_eq!(Decimal::from_int(-3).micros, -3_000_000);
    assert_eq!(Decimal::from_int(0).micros, 0);
    assert_eq!(Decimal::from_micros(7).micros, 7);
    assert_eq!(MICROS_PER_UNIT, 1_000_000);
}

#[test]
fn single_precision_values_are_read_exactly() {
    assert_eq!(Decimal::from_f32_bits(42.0f32.to_bits()).micros, 42_000_000);
    assert_eq!(Decimal::from_f32_bits(0.5f32.to_bits()).micros, 500_000);
    assert_eq!(Decimal::from_f32_bits(1.0f32.to_bits()).micros, 1_000_000);
    assert_eq!(Decimal::from_f32_bits(0.0f32.to_bits()).micros, 0);
    assert_eq!(Decimal::from_f32_bits((-1.5f32).to_bits()).micros, -1_500_000);
    assert_eq!(Decimal::from_f32_bits(0.25f32.to_bits()).micros, 250_000);
    assert_eq!(Decimal::from_f32_bits(8_388_608.0f32.to_bits()).micros, 8_388_608_000_000);
    assert_eq!(Decimal::from_f32_bits(16_777_216.0f32.to_bits()).micros, 16_777_216_000_000);
}

#[test]
fn single_precision_values_are_rounded_to_the_nearest_millionth() {
    // 0.1 is 0.100000001490116... in single precision
    assert_eq!(Decimal::from_f32_bits(0.1f32.to_bits()).micros, 100_000);
    // 0.7 is 0.699999988079071... in single precision
    assert_eq!(Decimal::from_f32_bits(0.7f32.to_bits()).micros, 700_000);
    assert_eq!(Decimal::from_f32_bits(1.000001f32.to_bits()).micros, 1_000_001);
    // 2^-21 is 0.000000476837...: below half a millionth
    assert_eq!(Decimal::from_f32_bits(0x3500_0000).micros, 0);
    // 2^-20 is 0.000000953674...: nearer to one millionth than to none
    assert_eq!(Decimal::from_f32_bits(0x3580_0000).micros, 1);
    assert_eq!(Decimal::from_f32_bits(1e-10f32.to_bits()).micros, 0);
    // the smallest positive value, which has no implicit leading bit
    assert_eq!(Decimal::from_f32_bits(1).micros, 0);
}

#[test]
fn large_single_precision_values_are_clamped() {
    assert_eq!(LIMIT, 1_000_000_000_000_000_000);
    assert_eq!(Decimal::from_f32_bits(1e30f32.to_bits()).micros, LIMIT);
    assert_eq!(Decimal::from_f32_bits((-1e30f32).to_bits()).micros, -LIMIT);
    assert_eq!(Decimal::from_f32_bits(f32::INFINITY.to_bits()).micros, LIMIT);
    assert_eq!(Decimal::from_f32_bits(f32::NEG_INFINITY.to_bits()).micros, -LIMIT);
    // 2^39 is below a million millions, 2^40 above
    assert_eq!(Decimal::from_f32_bits(549_755_813_888.0f32.to_bits()).micros, 549_755_813_888_000_000);
    assert_eq!(Decimal::from_f32_bits(1_099_511_627_776.0f32.to_bits()).micros, LIMIT);
}

#[test]
fn products_are_rounded_toward_zero_and_clamped() {
    let one_and_a_half = Decimal::from_micros(1_500_000);
    let two = Decimal::from_int(2);
    let third = Decimal::from_micros(333_333);
    assert_eq!(one_and_a_half.times(two).micros, 3_000_000);
    assert_eq!(one_and_a_half.times(third).micros, 499_999);
    assert_eq!(Decimal::from_micros(-1_500_000).times(third).micros, -499_999);
    assert_eq!(Decimal::from_micros(-1_500_000).times(Decimal::from_int(-2)).micros, 3_000_000);
    assert_eq!(two.times(Decimal::from_int(0)).micros, 0);
    assert_eq!(Decimal::from_micros(1).times(Decimal::from_micros(999_999)).micros, 0);
    assert_eq!(Decimal::from_micros(LIMIT).times(Decimal::from_micros(LIMIT)).micros, LIMIT);
    assert_eq!(Decimal::from_micros(LIMIT).times(Decimal::from_micros(-LIMIT)).micros, -LIMIT);
    assert_eq!(Decimal::from_micros(i64::MIN).times(Decimal::from_micros(i64::MIN)).micros, LIMIT);
    assert_eq!(Decimal::from_micros(i64::MIN).times(Decimal::from_micros(i64::MAX)).micros, -LIMIT);
}

#[test]
fn negative_numbers_are_told_apart() {
    assert!(Decimal::from_micros(-1).is_negative());
    assert!(!Decimal::from_micros(0).is_negative());
    assert!(!Decimal::from_micros(1).is_negative());
}

#[test]
fn unit_interval_takes_the_nearest_end() {
    assert_eq!(UnitInterval::clamp(Decimal::from_micros(500_000)), UnitInterval(Decimal::from_micros(500_000)));
    assert_eq!(UnitInterval::clamp(Decimal::from_micros(-1)), UnitInterval(Decimal::from_micros(0)));
    assert_eq!(UnitInterval::clamp(Decimal::from_micros(1_000_001)), UnitInterval(Decimal::from_micros(1_000_000)));
    assert_eq!(UnitInterval::clamp(Decimal::from_micros(0)), UnitInterval(Decimal::from_micros(0)));
    assert_eq!(UnitInterval::clamp(Decimal::from_micros(1_000_000)), UnitInterval(Decimal::from_micros(1_000_000)));
}

#[test]
fn relative_font_sizes_scale_the_parents() {
    assert_eq!(FontSizeSpec::Larger.resolve(px(10_000_000)), px(12_000_000));
    assert_eq!(FontSizeSpec::Smaller.resolve(px(12_000_000)), px(9_999_996));
    let pt = Length::new(Decimal::from_int(10), LengthUnit::Pt);
    assert_eq!(FontSizeSpec::Larger.resolve(pt), Length::new(Decimal::from_int(12), LengthUnit::Pt));
}

#[test]
fn named_font_sizes_are_fixed_lengths() {
    let inches = |micros: i64| Length::new(Decimal::from_micros(micros), LengthUnit::In);
    let parent = px(99_000_000);
    assert_eq!(FontSizeSpec::XXSmall.resolve(parent), inches(96_451));
    assert_eq!(FontSizeSpec::XSmall.resolve(parent), inches(115_741));
    assert_eq!(FontSizeSpec::Small.resolve(parent), inches(138_889));
    assert_eq!(FontSizeSpec::Medium.resolve(parent), inches(166_667));
    assert_eq!(FontSizeSpec::Large.resolve(parent), inches(200_000));
    assert_eq!(FontSizeSpec::XLarge.resolve(parent), inches(240_000));
    assert_eq!(FontSizeSpec::XXLarge.resolve(parent), inches(288_000));
}

#[test]
fn font_sizes_in_font_units_count_in_parent_font_sizes() {
    let parent = px(12_000_000);
    let em = Length::new(Decimal::from_int(2), LengthUnit::Em);
    let ex = Length::new(Decimal::from_int(2), LengthUnit::Ex);
    let percent = Length::new(Decimal::from_micros(1_500_000), LengthUnit::Percent);
    let cm = Length::new(Decimal::from_int(1), LengthUnit::Cm);
    assert_eq!(FontSizeSpec::Value(em).resolve(parent), px(24_000_000));
    assert_eq!(FontSizeSpec::Value(ex).resolve(parent), px(12_000_000));
    assert_eq!(FontSizeSpec::Value(percent).resolve(parent), px(18_000_000));
    assert_eq!(FontSizeSpec::Value(cm).resolve(parent), cm);
    assert_eq!(FontSizeSpec::Value(px(7_000_000)).resolve(parent), px(7_000_000));
}

#[test]
fn keywords_are_compared_without_regard_to_ascii_case() {
    assert!(eq_ignore_ascii_case("inherit", "INHERIT"));
    assert!(eq_ignore_ascii_case("linearRGB", "linearrgb"));
    assert!(eq_ignore_ascii_case("", ""));
    assert!(!eq_ignore_ascii_case("none", "non"));
    assert!(!eq_ignore_ascii_case("none", "nonf"));
    // `@` and `[` stand next to the letters, `k` and the Kelvin sign fold to
    // the same letter only outside of ASCII
    assert!(!eq_ignore_ascii_case("@", "`"));
    assert!(!eq_ignore_ascii_case("[", "{"));
    assert!(!eq_ignore_ascii_case("k", "\u{212a}"));
    assert!(eq_ignore_ascii_case("\u{e9}", "\u{e9}"));
    assert!(!eq_ignore_ascii_case("\u{e9}", "\u{c9}"));
}

#[test]
fn strings_are_compared_exactly() {
    assert!(eq_str("fill", "fill"));
    assert!(!eq_str("fill", "Fill"));
    assert!(!eq_str("fill", "fil"));
    assert!(!eq_str("", "a"));
    assert!(eq_str("", ""));
}

#[test]
fn last_occurrence_is_found_in_characters() {
    assert_eq!(rfind_char("a#b#c", '#'), Some(3));
    assert_eq!(rfind_char("#", '#'), Some(0));
    assert_eq!(rfind_char("abc", '#'), None);
    assert_eq!(rfind_char("", '#'), None);
    assert_eq!(rfind_char("\u{e9}\u{e9}#x", '#'), Some(2));
}

#[test]
fn written_numbers_are_read_exactly() {
    assert_eq!(Decimal::from_written("42").micros, 42_000_000);
    assert_eq!(Decimal::from_written("0.5").micros, 500_000);
    assert_eq!(Decimal::from_written("-1.5").micros, -1_500_000);
    assert_eq!(Decimal::from_written("+.25").micros, 250_000);
    assert_eq!(Decimal::from_written(".5").micros, 500_000);
    assert_eq!(Decimal::from_written("00012").micros, 12_000_000);
    assert_eq!(Decimal::from_written("0.1").micros, 100_000);
    assert_eq!(Decimal::from_written("0.7").micros, 700_000);
    assert_eq!(Decimal::from_written("123456789.123456789").micros, 123_456_789_123_456);
    assert_eq!(Decimal::from_written("-0").micros, 0);
}

#[test]
fn written_numbers_are_cut_off_after_the_sixth_decimal() {
    assert_eq!(Decimal::from_written("0.0000019").micros, 1);
    assert_eq!(Decimal::from_written("0.0000009").micros, 0);
    assert_eq!(Decimal::from_written("-0.0000019").micros, -1);
    assert_eq!(Decimal::from_written("1.9999999").micros, 1_999_999);
}

#[test]
fn written_numbers_may_have_an_exponent() {
    assert_eq!(Decimal::from_written("1e3").micros, 1_000_000_000);
    assert_eq!(Decimal::from_written("1E3").micros, 1_000_000_000);
    assert_eq!(Decimal::from_written("1e+3").micros, 1_000_000_000);
    assert_eq!(Decimal::from_written("1.5e-3").micros, 1_500);
    assert_eq!(Decimal::from_written("0.1e1").micros, 1_000_000);
    assert_eq!(Decimal::from_written("1e-6").micros, 1);
    assert_eq!(Decimal::from_written("1e-7").micros, 0);
    assert_eq!(Decimal::from_written("12345678e-8").micros, 123_456);
    assert_eq!(Decimal::from_written("1e12").micros, LIMIT);
    assert_eq!(Decimal::from_written("1e30").micros, LIMIT);
    assert_eq!(Decimal::from_written("-1e30").micros, -LIMIT);
    assert_eq!(Decimal::from_written("0e30").micros, 0);
    assert_eq!(Decimal::from_written("0.000e999999999999999999999999999999").micros, 0);
    assert_eq!(Decimal::from_written("1e999999999999999999999999999999").micros, LIMIT);
    assert_eq!(Decimal::from_written("1e-999999999999999999999999999999").micros, 0);
    assert_eq!(Decimal::from_written("5e18446744073709551616").micros, LIMIT);
    assert_eq!(Decimal::from_written("5e-18446744073709551616").micros, 0);
}

#[test]
fn written_numbers_are_clamped() {
    assert_eq!(Decimal::from_written("999999999999").micros, 999_999_999_999_000_000);
    assert_eq!(Decimal::from_written("1000000000000").micros, LIMIT);
    assert_eq!(Decimal::from_written("1000000000001").micros, LIMIT);
    assert_eq!(Decimal::from_written("99999999999999999999999999").micros, LIMIT);
    assert_eq!(Decimal::from_written("-99999999999999999999999999").micros, -LIMIT);
    assert_eq!(Decimal::from_written("99999999999999999999999999e-20").micros, 999_999_999_999);
    assert_eq!(Decimal::from_written("0.00000000000000000000000001e26").micros, 1_000_000);
}

#[test]
fn what_follows_a_written_number_is_of_no_account() {
    assert_eq!(Decimal::from_written("12px").micros, 12_000_000);
    assert_eq!(Decimal::from_written("1em").micros, 1_000_000);
    assert_eq!(Decimal::from_written("2ex").micros, 2_000_000);
    assert_eq!(Decimal::from_written("1e").micros, 1_000_000);
    assert_eq!(Decimal::from_written("1e+").micros, 1_000_000);
    assert_eq!(Decimal::from_written("1e+2x").micros, 100_000_000);
    assert_eq!(Decimal::from_written("1.").micros, 1_000_000);
    assert_eq!(Decimal::from_written("1.5.5").micros, 1_500_000);
    assert_eq!(Decimal::from_written("").micros, 0);
    assert_eq!(Decimal::from_written("-").micros, 0);
    assert_eq!(Decimal::from_written("abc").micros, 0);
    assert_eq!(Decimal::from_written("\u{663}").micros, 0);
}

#[test]
fn written_percentages_are_read_as_fractions() {
    assert_eq!(Decimal::from_written_percent("50%").micros, 500_000);
    assert_eq!(Decimal::from_written_percent("150%").micros, 1_500_000);
    assert_eq!(Decimal::from_written_percent("-20%").micros, -200_000);
    assert_eq!(Decimal::from_written_percent("0.001%").micros, 10);
    assert_eq!(Decimal::from_written_percent("33.3333%").micros, 333_333);
    assert_eq!(Decimal::from_written_percent("1e2%").micros, 1_000_000);
    assert_eq!(Decimal::from_written_percent("0.00009%").micros, 0);
}
