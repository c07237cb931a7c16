use svg_cascade::color::{CssColor, Rgba};
use svg_cascade::css::{Numeric, NumericKind};
use svg_cascade::dasharray::Dasharray;
use svg_cascade::error::ValueErrorKind;
use svg_cascade::font::{parse_family, FontSizeSpec, FontWeightSpec, LetterSpacingSpec};
use svg_cascade::iri::{Fragment, IRI};
use svg_cascade::length::{Length, LengthUnit};
use svg_cascade::number::Decimal;
use svg_cascade::paint_server::PaintServer;
use svg_cascade::parsers::{expect_word, parse_keyword, Keyword, Parse};
use svg_cascade::property_defs::{
    BaselineShift, ClipRule, ColorInterpolationFilters, Display, FontStretch, Overflow,
    StrokeMiterlimit, TextDecoration, UnicodeBidi, WritingMode, XmlLang, XmlSpace,
};
use svg_cascade::unit_interval::UnitInterval;

fn length(micros: i64, unit: LengthUnit) -> Length {
    Length::new(Decimal::from_micros(micros), unit)
}

fn resource(uri: Option<&str>, fragment: &str) -> Fragment {
    Fragment::new(uri.map(|u| u.to_string()), fragment.to_string())
}

#[test]
fn lengths_are_numbers_with_units() {
    assert_eq!(Length::parse_str("12px"), Ok(length(12_000_000, LengthUnit::Px)));
    assert_eq!(Length::parse_str("10"), Ok(length(10_000_000, LengthUnit::Px)));
    assert_eq!(Length::parse_str("1.5em"), Ok(length(1_500_000, LengthUnit::Em)));
    assert_eq!(Length::parse_str("2ex"), Ok(length(2_000_000, LengthUnit::Ex)));
    assert_eq!(Length::parse_str("1in"), Ok(length(1_000_000, LengthUnit::In)));
    assert_eq!(Length::parse_str("2.5cm"), Ok(length(2_500_000, LengthUnit::Cm)));
    assert_eq!(Length::parse_str("3mm"), Ok(length(3_000_000, LengthUnit::Mm)));
    assert_eq!(Length::parse_str("72pt"), Ok(length(72_000_000, LengthUnit::Pt)));
    assert_eq!(Length::parse_str("6pc"), Ok(length(6_000_000, LengthUnit::Pc)));
    assert_eq!(Length::parse_str("-4PX"), Ok(length(-4_000_000, LengthUnit::Px)));
    assert_eq!(Length::parse_str("  42px  "), Ok(length(42_000_000, LengthUnit::Px)));
    assert_eq!(Length::parse_str("/* a */ 1e1px"), Ok(length(10_000_000, LengthUnit::Px)));
}

#[test]
fn percentages_are_kept_as_fractions() {
    assert_eq!(Length::parse_str("50%"), Ok(length(500_000, LengthUnit::Percent)));
    assert_eq!(Length::parse_str("150%"), Ok(length(1_500_000, LengthUnit::Percent)));
}

#[test]
fn malformed_lengths_are_told_from_each_other() {
    assert_eq!(Length::parse_str(""), Err(ValueErrorKind::EndOfInput));
    assert_eq!(Length::parse_str("   "), Err(ValueErrorKind::EndOfInput));
    assert_eq!(Length::parse_str("10q"), Err(ValueErrorKind::UnexpectedToken));
    assert_eq!(Length::parse_str("px"), Err(ValueErrorKind::UnexpectedToken));
    assert_eq!(Length::parse_str("12px 5"), Err(ValueErrorKind::UnexpectedToken));
    assert_eq!(Length::parse_str("12 px"), Err(ValueErrorKind::UnexpectedToken));
}

#[test]
fn a_length_is_read_from_the_start_of_a_text() {
    assert_eq!(Length::parse("12px 5"), Ok((length(12_000_000, LengthUnit::Px), " 5")));
    assert_eq!(Length::parse(" 1mm,2mm"), Ok((length(1_000_000, LengthUnit::Mm), ",2mm")));
}

#[test]
fn numbers_take_no_unit() {
    assert_eq!(Decimal::parse_str("4.5"), Ok(Decimal::from_micros(4_500_000)));
    assert_eq!(Decimal::parse_str("-0.25"), Ok(Decimal::from_micros(-250_000)));
    assert_eq!(Decimal::parse_str("4px"), Err(ValueErrorKind::UnexpectedToken));
    assert_eq!(Decimal::parse_str("4%"), Err(ValueErrorKind::UnexpectedToken));
    assert_eq!(StrokeMiterlimit::parse_str("10"), Ok(StrokeMiterlimit(Decimal::from_int(10))));
}

#[test]
fn opacities_are_clamped() {
    assert_eq!(UnitInterval::parse_str("0.5"), Ok(UnitInterval(Decimal::from_micros(500_000))));
    assert_eq!(UnitInterval::parse_str("1.5"), Ok(UnitInterval(Decimal::from_int(1))));
    assert_eq!(UnitInterval::parse_str("-2"), Ok(UnitInterval(Decimal::from_int(0))));
    assert_eq!(UnitInterval::parse_str("50%"), Err(ValueErrorKind::UnexpectedToken));
    assert_eq!(UnitInterval::parse_str("half"), Err(ValueErrorKind::UnexpectedToken));
}

#[test]
fn references_need_a_fragment() {
    assert_eq!(IRI::parse_str("url(#foo)"), Ok(IRI::Resource(resource(None, "foo"))));
    assert_eq!(IRI::parse_str("url(doc.svg#bar)"), Ok(IRI::Resource(resource(Some("doc.svg"), "bar"))));
    assert_eq!(IRI::parse_str("url(\"a#b#c\")"), Ok(IRI::Resource(resource(Some("a#b"), "c"))));
    assert_eq!(IRI::parse_str("none"), Ok(IRI::NoResource));
    assert_eq!(IRI::parse_str("NONE"), Ok(IRI::NoResource));
    assert_eq!(IRI::parse_str("url(doc.svg)"), Err(ValueErrorKind::Value));
    assert_eq!(IRI::parse_str("url(#)"), Err(ValueErrorKind::Value));
    assert_eq!(IRI::parse_str("url()"), Err(ValueErrorKind::Value));
    assert_eq!(IRI::parse_str("foo"), Err(ValueErrorKind::UnexpectedToken));
    assert_eq!(IRI::parse_str(""), Err(ValueErrorKind::EndOfInput));
    assert_eq!(IRI::parse_str("url(#foo) bar"), Err(ValueErrorKind::UnexpectedToken));
}

#[test]
fn fragments_split_at_the_last_hash() {
    assert_eq!(Fragment::parse("#foo"), Some(resource(None, "foo")));
    assert_eq!(Fragment::parse("a.svg#foo"), Some(resource(Some("a.svg"), "foo")));
    assert_eq!(Fragment::parse("a#b#c"), Some(resource(Some("a#b"), "c")));
    assert_eq!(Fragment::parse("\u{e9}t\u{e9}#\u{e0}"), Some(resource(Some("\u{e9}t\u{e9}"), "\u{e0}")));
    assert_eq!(Fragment::parse("a.svg"), None);
    assert_eq!(Fragment::parse("a.svg#"), None);
    assert_eq!(Fragment::parse("#"), None);
    assert_eq!(Fragment::parse(""), None);
}

#[test]
fn colors_come_from_the_css_parser() {
    let red = CssColor::Rgba(Rgba::new(255, 0, 0, 255));
    assert_eq!(CssColor::parse_str("red"), Ok(red));
    assert_eq!(CssColor::parse_str("#f00"), Ok(red));
    assert_eq!(CssColor::parse_str("#ff0000"), Ok(red));
    assert_eq!(CssColor::parse_str("rgb(255, 0, 0)"), Ok(red));
    assert_eq!(CssColor::parse_str("rgba(0, 0, 255, 0.5)"), Ok(CssColor::Rgba(Rgba::new(0, 0, 255, 128))));
    assert_eq!(CssColor::parse_str("currentColor"), Ok(CssColor::CurrentColor));
    assert_eq!(CssColor::parse_str("transparent"), Ok(CssColor::Rgba(Rgba::new(0, 0, 0, 0))));
    assert_eq!(CssColor::parse_str("reddish"), Err(ValueErrorKind::UnexpectedToken));
    assert_eq!(CssColor::parse_str("#ff"), Err(ValueErrorKind::UnexpectedToken));
    assert_eq!(CssColor::parse_str(""), Err(ValueErrorKind::EndOfInput));
    assert_eq!(CssColor::parse("rgb(1, 2, 3) none"), Ok((CssColor::Rgba(Rgba::new(1, 2, 3, 255)), " none")));
}

#[test]
fn the_color_property_takes_no_current_color() {
    assert_eq!(Rgba::parse_str("lime"), Ok(Rgba::new(0, 255, 0, 255)));
    assert_eq!(Rgba::parse_str("currentColor"), Err(ValueErrorKind::Value));
    assert_eq!(Rgba::parse_str("12"), Err(ValueErrorKind::UnexpectedToken));
}

#[test]
fn paints_are_none_or_a_server_or_a_color() {
    let blue = CssColor::Rgba(Rgba::new(0, 0, 255, 255));
    assert_eq!(PaintServer::parse_str("none"), Ok(PaintServer::NoPaint));
    assert_eq!(PaintServer::parse_str("blue"), Ok(PaintServer::SolidColor(blue)));
    assert_eq!(PaintServer::parse_str("currentColor"), Ok(PaintServer::SolidColor(CssColor::CurrentColor)));
    assert_eq!(
        PaintServer::parse_str("url(#grad)"),
        Ok(PaintServer::Iri { iri: resource(None, "grad"), alternate: None })
    );
    assert_eq!(
        PaintServer::parse_str("url(#grad) blue"),
        Ok(PaintServer::Iri { iri: resource(None, "grad"), alternate: Some(blue) })
    );
    assert_eq!(
        PaintServer::parse_str("url(#grad) none"),
        Ok(PaintServer::Iri { iri: resource(None, "grad"), alternate: None })
    );
    assert_eq!(PaintServer::parse_str("url(grad)"), Err(ValueErrorKind::Value));
    assert_eq!(PaintServer::parse_str("url(#grad) 12"), Err(ValueErrorKind::UnexpectedToken));
    assert_eq!(PaintServer::parse_str("12"), Err(ValueErrorKind::UnexpectedToken));
    assert_eq!(PaintServer::parse_str(""), Err(ValueErrorKind::EndOfInput));
}

#[test]
fn dash_arrays_are_lists_of_lengths() {
    let px = |n: i32| Length::new(Decimal::from_int(n), LengthUnit::Px);
    assert_eq!(Dasharray::parse_str("none"), Ok(Dasharray::Solid));
    assert_eq!(Dasharray::parse_str("1"), Ok(Dasharray::Array(vec![px(1)])));
    assert_eq!(Dasharray::parse_str("1 2, 3"), Ok(Dasharray::Array(vec![px(1), px(2), px(3)])));
    assert_eq!(Dasharray::parse_str("1,2,3"), Ok(Dasharray::Array(vec![px(1), px(2), px(3)])));
    assert_eq!(
        Dasharray::parse_str("5mm 50%"),
        Ok(Dasharray::Array(vec![
            Length::new(Decimal::from_int(5), LengthUnit::Mm),
            length(500_000, LengthUnit::Percent)
        ]))
    );
    assert_eq!(Dasharray::parse_str("1 -2"), Err(ValueErrorKind::Value));
    assert_eq!(Dasharray::parse_str("1,,2"), Err(ValueErrorKind::UnexpectedToken));
    assert_eq!(Dasharray::parse_str("1,"), Err(ValueErrorKind::EndOfInput));
    assert_eq!(Dasharray::parse_str("1 solid"), Err(ValueErrorKind::UnexpectedToken));
    assert_eq!(Dasharray::parse_str(""), Err(ValueErrorKind::EndOfInput));
}

#[test]
fn duplicates_are_equal_to_what_they_duplicate() {
    let dashes = Dasharray::parse_str("1 2 3").unwrap();
    assert_eq!(dashes.duplicate(), dashes);
    assert_eq!(Dasharray::Solid.duplicate(), Dasharray::Solid);
    let iri = IRI::parse_str("url(a#b)").unwrap();
    assert_eq!(iri.duplicate(), iri);
    let paint = PaintServer::parse_str("url(a#b) red").unwrap();
    assert_eq!(paint.duplicate(), paint);
}

#[test]
fn font_families_are_quoted_or_made_of_words() {
    assert_eq!(parse_family("'Times New Roman'"), Ok(("Times New Roman".to_string(), "")));
    assert_eq!(parse_family("\"DejaVu  Sans\" x"), Ok(("DejaVu  Sans".to_string(), " x")));
    assert_eq!(parse_family("Times   New Roman"), Ok(("Times New Roman".to_string(), "")));
    assert_eq!(parse_family("serif"), Ok(("serif".to_string(), "")));
    assert_eq!(parse_family("serif, sans"), Ok(("serif".to_string(), ", sans")));
    assert_eq!(parse_family("12"), Err(ValueErrorKind::UnexpectedToken));
    assert_eq!(parse_family(""), Err(ValueErrorKind::EndOfInput));
}

#[test]
fn font_sizes_are_lengths_or_names() {
    assert_eq!(FontSizeSpec::parse_str("12pt"), Ok(FontSizeSpec::Value(length(12_000_000, LengthUnit::Pt))));
    assert_eq!(FontSizeSpec::parse_str("smaller"), Ok(FontSizeSpec::Smaller));
    assert_eq!(FontSizeSpec::parse_str("larger"), Ok(FontSizeSpec::Larger));
    assert_eq!(FontSizeSpec::parse_str("xx-small"), Ok(FontSizeSpec::XXSmall));
    assert_eq!(FontSizeSpec::parse_str("x-small"), Ok(FontSizeSpec::XSmall));
    assert_eq!(FontSizeSpec::parse_str("small"), Ok(FontSizeSpec::Small));
    assert_eq!(FontSizeSpec::parse_str("medium"), Ok(FontSizeSpec::Medium));
    assert_eq!(FontSizeSpec::parse_str("large"), Ok(FontSizeSpec::Large));
    assert_eq!(FontSizeSpec::parse_str("x-large"), Ok(FontSizeSpec::XLarge));
    assert_eq!(FontSizeSpec::parse_str("XX-Large"), Ok(FontSizeSpec::XXLarge));
    assert_eq!(FontSizeSpec::parse_str("huge"), Err(ValueErrorKind::UnexpectedToken));
}

#[test]
fn font_weights_are_names_or_hundreds() {
    assert_eq!(FontWeightSpec::parse_str("normal"), Ok(FontWeightSpec::Normal));
    assert_eq!(FontWeightSpec::parse_str("bold"), Ok(FontWeightSpec::Bold));
    assert_eq!(FontWeightSpec::parse_str("bolder"), Ok(FontWeightSpec::Bolder));
    assert_eq!(FontWeightSpec::parse_str("lighter"), Ok(FontWeightSpec::Lighter));
    assert_eq!(FontWeightSpec::parse_str("100"), Ok(FontWeightSpec::W100));
    assert_eq!(FontWeightSpec::parse_str("400"), Ok(FontWeightSpec::W400));
    assert_eq!(FontWeightSpec::parse_str("900"), Ok(FontWeightSpec::W900));
    assert_eq!(FontWeightSpec::parse_str("150"), Err(ValueErrorKind::Value));
    assert_eq!(FontWeightSpec::parse_str("1000"), Err(ValueErrorKind::Value));
    assert_eq!(FontWeightSpec::parse_str("700.0"), Err(ValueErrorKind::UnexpectedToken));
    assert_eq!(FontWeightSpec::parse_str("700px"), Err(ValueErrorKind::UnexpectedToken));
    assert_eq!(FontWeightSpec::parse_str("heavy"), Err(ValueErrorKind::UnexpectedToken));
    assert_eq!(FontWeightSpec::from_number(200), Some(FontWeightSpec::W200));
    assert_eq!(FontWeightSpec::from_number(300), Some(FontWeightSpec::W300));
    assert_eq!(FontWeightSpec::from_number(500), Some(FontWeightSpec::W500));
    assert_eq!(FontWeightSpec::from_number(600), Some(FontWeightSpec::W600));
    assert_eq!(FontWeightSpec::from_number(700), Some(FontWeightSpec::W700));
    assert_eq!(FontWeightSpec::from_number(800), Some(FontWeightSpec::W800));
    assert_eq!(FontWeightSpec::from_number(0), None);
}

#[test]
fn letter_spacing_is_normal_or_a_length() {
    assert_eq!(LetterSpacingSpec::parse_str("normal"), Ok(LetterSpacingSpec::Normal));
    assert_eq!(
        LetterSpacingSpec::parse_str("2px"),
        Ok(LetterSpacingSpec::Value(length(2_000_000, LengthUnit::Px)))
    );
    assert_eq!(LetterSpacingSpec::parse_str("wide"), Err(ValueErrorKind::UnexpectedToken));
}

#[test]
fn baseline_shift_has_three_names() {
    assert_eq!(BaselineShift::parse_str("baseline"), Ok(BaselineShift(length(0, LengthUnit::Percent))));
    assert_eq!(BaselineShift::parse_str("sub"), Ok(BaselineShift(length(-200_000, LengthUnit::Percent))));
    assert_eq!(BaselineShift::parse_str("super"), Ok(BaselineShift(length(400_000, LengthUnit::Percent))));
    assert_eq!(BaselineShift::parse_str("3px"), Ok(BaselineShift(length(3_000_000, LengthUnit::Px))));
    assert_eq!(BaselineShift::parse_str("up"), Err(ValueErrorKind::UnexpectedToken));
}

#[test]
fn text_decoration_is_a_set_of_lines() {
    let plain = TextDecoration { overline: false, underline: false, strike: false };
    assert_eq!(TextDecoration::parse_str("none"), Ok(plain));
    assert_eq!(
        TextDecoration::parse_str("underline"),
        Ok(TextDecoration { overline: false, underline: true, strike: false })
    );
    assert_eq!(
        TextDecoration::parse_str("overline line-through"),
        Ok(TextDecoration { overline: true, underline: false, strike: true })
    );
    assert_eq!(
        TextDecoration::parse_str("underline OVERLINE line-through underline"),
        Ok(TextDecoration { overline: true, underline: true, strike: true })
    );
    assert_eq!(TextDecoration::parse_str("blink"), Err(ValueErrorKind::UnexpectedToken));
    assert_eq!(TextDecoration::parse_str("underline 2"), Err(ValueErrorKind::UnexpectedToken));
    assert_eq!(TextDecoration::parse_str(""), Err(ValueErrorKind::EndOfInput));
    assert_eq!(plain.add_line("overline"), Some(TextDecoration { overline: true, underline: false, strike: false }));
    assert_eq!(plain.add_line("none"), None);
}

#[test]
fn keywords_name_the_values_of_their_kind() {
    assert_eq!(ClipRule::parse_str("nonzero"), Ok(ClipRule::NonZero));
    assert_eq!(ClipRule::parse_str("evenodd"), Ok(ClipRule::EvenOdd));
    assert_eq!(ClipRule::parse_str("EvenOdd"), Ok(ClipRule::EvenOdd));
    assert_eq!(ClipRule::parse_str("odd"), Err(ValueErrorKind::UnexpectedToken));
    assert_eq!(ClipRule::parse_str("12"), Err(ValueErrorKind::UnexpectedToken));
    assert_eq!(ClipRule::parse_str(""), Err(ValueErrorKind::EndOfInput));
    assert_eq!(ColorInterpolationFilters::parse_str("linearRGB"), Ok(ColorInterpolationFilters::LinearRgb));
    assert_eq!(ColorInterpolationFilters::parse_str("sRGB"), Ok(ColorInterpolationFilters::Srgb));
    assert_eq!(Display::parse_str("none"), Ok(Display::NoDisplay));
    assert_eq!(Display::parse_str("table-row-group"), Ok(Display::TableRowGroup));
    assert_eq!(Display::parse_str("table-row"), Ok(Display::TableRow));
    assert_eq!(FontStretch::parse_str("ultra-condensed"), Ok(FontStretch::UltraCondensed));
    assert_eq!(Overflow::parse_str("scroll"), Ok(Overflow::Scroll));
    assert_eq!(UnicodeBidi::parse_str("bidi-override"), Ok(UnicodeBidi::Override));
    assert_eq!(WritingMode::parse_str("tb-rl"), Ok(WritingMode::TbRl));
    assert_eq!(WritingMode::parse_str("tb"), Ok(WritingMode::Tb));
    assert_eq!(XmlSpace::parse_str("preserve"), Ok(XmlSpace::Preserve));
    assert_eq!(XmlSpace::parse_str("default"), Ok(XmlSpace::Default));
    assert_eq!(Overflow::from_ident("AUTO"), Some(Overflow::Auto));
    assert_eq!(Overflow::from_ident("automatic"), None);
    assert_eq!(parse_keyword::<Overflow>("hidden x"), Ok((Overflow::Hidden, " x")));
}

#[test]
fn a_word_is_matched_at_the_start_of_a_text() {
    assert_eq!(expect_word("none", "none"), Some(""));
    assert_eq!(expect_word("  None red", "none"), Some(" red"));
    assert_eq!(expect_word("nonesuch", "none"), None);
    assert_eq!(expect_word("12", "none"), None);
    assert_eq!(expect_word("", "none"), None);
}

#[test]
fn the_language_is_the_text_as_it_is() {
    assert_eq!(XmlLang::from_text("en-US"), XmlLang("en-US".to_string()));
    assert_eq!(XmlLang::from_text(""), XmlLang(String::new()));
    assert_eq!(XmlLang::from_text(" a b "), XmlLang(" a b ".to_string()));
}

#[test]
fn a_numeric_token_denotes_a_length_by_its_kind() {
    let token = |kind: NumericKind, written: &str| Numeric { kind, written: written.to_string() };
    assert_eq!(
        Length::from_numeric(&token(NumericKind::Number(Some(3)), "3")),
        Ok(length(3_000_000, LengthUnit::Px))
    );
    assert_eq!(
        Length::from_numeric(&token(NumericKind::Number(None), "-0.75")),
        Ok(length(-750_000, LengthUnit::Px))
    );
    assert_eq!(
        Length::from_numeric(&token(NumericKind::Percentage, "12.5%")),
        Ok(length(125_000, LengthUnit::Percent))
    );
    assert_eq!(
        Length::from_numeric(&token(NumericKind::Dimension("PT".to_string()), "3.25PT")),
        Ok(length(3_250_000, LengthUnit::Pt))
    );
    assert_eq!(
        Length::from_numeric(&token(NumericKind::Dimension("e".to_string()), "1e")),
        Err(ValueErrorKind::UnexpectedToken)
    );
    assert_eq!(
        Decimal::from_numeric(&token(NumericKind::Number(None), "2.5e1")),
        Ok(Decimal::from_int(25))
    );
    assert_eq!(
        Decimal::from_numeric(&token(NumericKind::Percentage, "2%")),
        Err(ValueErrorKind::UnexpectedToken)
    );
    assert_eq!(
        FontWeightSpec::from_numeric(&token(NumericKind::Number(Some(700)), "700")),
        Ok(FontWeightSpec::W700)
    );
    assert_eq!(
        FontWeightSpec::from_numeric(&token(NumericKind::Number(None), "7e2")),
        Err(ValueErrorKind::UnexpectedToken)
    );
    assert_eq!(
        FontWeightSpec::from_numeric(&token(NumericKind::Number(Some(701)), "701")),
        Err(ValueErrorKind::Value)
    );
    assert_eq!(
        FontWeightSpec::from_numeric(&token(NumericKind::Dimension("px".to_string()), "700px")),
        Err(ValueErrorKind::UnexpectedToken)
    );
}

#[test]
fn numbers_keep_every_digit_down_to_the_millionth() {
    assert_eq!(Length::parse_str("123456.789012px"), Ok(length(123_456_789_012, LengthUnit::Px)));
    assert_eq!(Length::parse_str("0.1"), Ok(length(100_000, LengthUnit::Px)));
    assert_eq!(Length::parse_str("+7e-1mm"), Ok(length(700_000, LengthUnit::Mm)));
    assert_eq!(Length::parse_str("33.3333%"), Ok(length(333_333, LengthUnit::Percent)));
    assert_eq!(Decimal::parse_str(" /* c */ -1.5e3 "), Ok(Decimal::from_int(-1500)));
}

#[test]
fn colors_in_functional_notation_take_no_exponents() {
    assert_eq!(CssColor::parse_str("rgb(1e2, 0, 0)"), Err(ValueErrorKind::Value));
    assert_eq!(CssColor::parse_str("rgba(0, 0, 0, 5E-1)"), Err(ValueErrorKind::Value));
    assert_eq!(CssColor::parse_str("hsl(1.2e+2, 50%, 50%)"), Err(ValueErrorKind::Value));
    assert_eq!(Rgba::parse_str("rgb(1e2, 0, 0)"), Err(ValueErrorKind::Value));
    assert_eq!(PaintServer::parse_str("url(#g) rgb(0, 1e1, 0)"), Err(ValueErrorKind::Value));
    // the digits of a color in hexadecimal notation are no number
    assert_eq!(CssColor::parse_str("#1e1e1e"), Ok(CssColor::Rgba(Rgba::new(30, 30, 30, 255))));
    assert_eq!(CssColor::parse_str("#2e3"), Ok(CssColor::Rgba(Rgba::new(34, 238, 51, 255))));
    assert_eq!(CssColor::parse_str("rgb(100, 0, 0)"), Ok(CssColor::Rgba(Rgba::new(100, 0, 0, 255))));
    assert_eq!(CssColor::parse_str("hsl(120, 100%, 50%)"), Ok(CssColor::Rgba(Rgba::new(0, 255, 0, 255))));
    assert_eq!(
        PaintServer::parse_str("url(#a1e5) #1e1e1e"),
        Ok(PaintServer::Iri {
            iri: resource(None, "a1e5"),
            alternate: Some(CssColor::Rgba(Rgba::new(30, 30, 30, 255)))
        })
    );
}

#[test]
fn exponents_are_looked_for_after_a_parenthesis() {
    assert!(svg_cascade::color::writes_exponent_in_function("f(1e1"));
    assert!(svg_cascade::color::writes_exponent_in_function("(1E5"));
    assert!(svg_cascade::color::writes_exponent_in_function("(1e+1"));
    assert!(svg_cascade::color::writes_exponent_in_function("(a 2e-3)"));
    assert!(svg_cascade::color::writes_exponent_in_function("rgb(0,0,.5e0)"));
    assert!(!svg_cascade::color::writes_exponent_in_function("1e1("));
    assert!(!svg_cascade::color::writes_exponent_in_function("#1e1e1e"));
    assert!(!svg_cascade::color::writes_exponent_in_function("(1e+"));
    assert!(!svg_cascade::color::writes_exponent_in_function("(1e"));
    assert!(!svg_cascade::color::writes_exponent_in_function("(e1"));
    assert!(!svg_cascade::color::writes_exponent_in_function("(1em 2ex)"));
    assert!(!svg_cascade::color::writes_exponent_in_function("(1.e5)"));
    assert!(!svg_cascade::color::writes_exponent_in_function(""));
    assert!(!svg_cascade::color::writes_exponent_in_function("("));
}
