use svg_cascade::color::{CssColor, Rgba};
use svg_cascade::computed::ComputedValues;
use svg_cascade::font::FontSizeSpec;
use svg_cascade::iri::{Fragment, IRI};
use svg_cascade::length::{Length, LengthUnit};
use svg_cascade::number::Decimal;
use svg_cascade::paint_server::PaintServer;
use svg_cascade::parsed::ParsedProperty;
use svg_cascade::property::{Property, SpecifiedValue};
use svg_cascade::property_defs::{
    BaselineShift, ClipPath, Display, Fill, FontFamily, FontSize, LetterSpacing, Marker, MarkerEnd,
    MarkerMid, MarkerStart, Opacity, Overflow, Stroke, StrokeWidth, TextDecoration, Visibility,
    XmlLang,
};
use svg_cascade::property_id::PropertyId;
use svg_cascade::specified::SpecifiedValues;
use svg_cascade::unit_interval::UnitInterval;

fn px(n: i32) -> Length {
    Length::new(Decimal::from_int(n), LengthUnit::Px)
}

fn reference(fragment: &str) -> IRI {
    IRI::Resource(Fragment::new(None, fragment.to_string()))
}

fn computed(specified: &SpecifiedValues, parent: &ComputedValues) -> ComputedValues {
    let mut values = parent.clone();
    specified.to_computed_values(&mut values);
    values
}

fn half() -> Opacity {
    Opacity(UnitInterval(Decimal::from_micros(500_000)))
}

#[test]
fn initial_values_are_those_of_the_kinds() {
    let initial = ComputedValues::default();
    assert_eq!(initial.stroke_width, StrokeWidth(px(1)));
    assert_eq!(initial.opacity, Opacity(UnitInterval(Decimal::from_int(1))));
    assert_eq!(initial.font_size, FontSize(FontSizeSpec::Value(px(12))));
    assert_eq!(initial.font_family, FontFamily("Times New Roman".to_string()));
    assert_eq!(initial.fill, Fill(PaintServer::SolidColor(CssColor::Rgba(Rgba::new(0, 0, 0, 255)))));
    assert_eq!(initial.stroke, Stroke(PaintServer::NoPaint));
    assert_eq!(initial.xml_lang, XmlLang(String::new()));
    assert_eq!(initial.display, Display::Inline);
    assert_eq!(initial.overflow, Overflow::Visible);
    assert_eq!(initial.clip_path, ClipPath(IRI::NoResource));
    assert_eq!(initial.baseline_shift, BaselineShift(px(0)));
    assert_eq!(initial.duplicate(), initial);
}

#[test]
fn an_element_that_declares_nothing_of_a_root_has_initial_values() {
    let values = computed(&SpecifiedValues::default(), &ComputedValues::default());
    assert_eq!(values, ComputedValues::default());
}

#[test]
fn properties_that_are_not_inherited_fall_back_to_initial_values() {
    let mut parent = ComputedValues::default();
    parent.opacity = half();
    parent.overflow = Overflow::Hidden;
    parent.clip_path = ClipPath(reference("clip"));
    parent.text_decoration = TextDecoration { overline: true, underline: true, strike: true };

    let values = computed(&SpecifiedValues::default(), &parent);

    assert_eq!(values.opacity, Opacity::default());
    assert_eq!(values.overflow, Overflow::Visible);
    assert_eq!(values.clip_path, ClipPath(IRI::NoResource));
    assert_eq!(values.text_decoration, TextDecoration::default());
}

#[test]
fn properties_that_are_inherited_take_the_value_of_the_parent() {
    let mut parent = ComputedValues::default();
    parent.stroke_width = StrokeWidth(px(7));
    parent.font_family = FontFamily("Helvetica".to_string());
    parent.visibility = Visibility::Hidden;
    parent.marker_mid = MarkerMid(reference("dot"));
    parent.font_size = FontSize(FontSizeSpec::Value(px(30)));

    let values = computed(&SpecifiedValues::default(), &parent);

    assert_eq!(values.stroke_width, StrokeWidth(px(7)));
    assert_eq!(values.font_family, FontFamily("Helvetica".to_string()));
    assert_eq!(values.visibility, Visibility::Hidden);
    assert_eq!(values.marker_mid, MarkerMid(reference("dot")));
    assert_eq!(values.font_size, FontSize(FontSizeSpec::Value(px(30))));
    assert_eq!(values, parent);
}

#[test]
fn explicit_inherit_takes_the_value_of_the_parent_for_every_kind() {
    let mut parent = ComputedValues::default();
    parent.opacity = half();
    parent.overflow = Overflow::Scroll;
    parent.stroke_width = StrokeWidth(px(3));
    parent.font_size = FontSize(FontSizeSpec::Value(px(20)));
    parent.baseline_shift = BaselineShift(px(4));

    let mut specified = SpecifiedValues::default();
    specified.set_parsed_property(&ParsedProperty::Opacity(SpecifiedValue::Inherit));
    specified.set_parsed_property(&ParsedProperty::Overflow(SpecifiedValue::Inherit));
    specified.set_parsed_property(&ParsedProperty::StrokeWidth(SpecifiedValue::Inherit));
    specified.set_parsed_property(&ParsedProperty::FontSize(SpecifiedValue::Inherit));
    specified.set_parsed_property(&ParsedProperty::BaselineShift(SpecifiedValue::Inherit));

    let values = computed(&specified, &parent);

    assert_eq!(values.opacity, half());
    assert_eq!(values.overflow, Overflow::Scroll);
    assert_eq!(values.stroke_width, StrokeWidth(px(3)));
    assert_eq!(values.font_size, FontSize(FontSizeSpec::Value(px(20))));
    assert_eq!(values.baseline_shift, BaselineShift(px(4)));
}

#[test]
fn a_stored_unspecified_value_counts_as_none() {
    let mut parent = ComputedValues::default();
    parent.opacity = half();
    parent.stroke_width = StrokeWidth(px(3));

    let mut specified = SpecifiedValues::default();
    specified.set_parsed_property(&ParsedProperty::Opacity(SpecifiedValue::Unspecified));
    specified.set_parsed_property(&ParsedProperty::StrokeWidth(SpecifiedValue::Unspecified));

    let values = computed(&specified, &parent);

    assert_eq!(values.opacity, Opacity::default());
    assert_eq!(values.stroke_width, StrokeWidth(px(3)));
}

#[test]
fn the_last_of_two_overriding_declarations_wins() {
    let mut specified = SpecifiedValues::default();
    specified.set_parsed_property(&ParsedProperty::StrokeWidth(SpecifiedValue::Specified(StrokeWidth(px(1)))));
    specified.set_parsed_property(&ParsedProperty::Overflow(SpecifiedValue::Specified(Overflow::Hidden)));
    specified.set_parsed_property(&ParsedProperty::StrokeWidth(SpecifiedValue::Specified(StrokeWidth(px(2)))));

    let values = computed(&specified, &ComputedValues::default());

    assert_eq!(values.stroke_width, StrokeWidth(px(2)));
    assert_eq!(values.overflow, Overflow::Hidden);
}

#[test]
fn a_declaration_of_the_user_agent_yields_to_an_earlier_one() {
    let mut specified = SpecifiedValues::default();
    specified.set_parsed_property(&ParsedProperty::StrokeWidth(SpecifiedValue::Specified(StrokeWidth(px(1)))));
    specified.set_parsed_property_user_agent(&ParsedProperty::StrokeWidth(SpecifiedValue::Specified(
        StrokeWidth(px(2)),
    )));
    specified.set_parsed_property_user_agent(&ParsedProperty::Opacity(SpecifiedValue::Specified(half())));

    let values = computed(&specified, &ComputedValues::default());

    assert_eq!(values.stroke_width, StrokeWidth(px(1)));
    assert_eq!(values.opacity, half());
}

#[test]
fn a_declaration_of_the_user_agent_is_overridden_by_a_later_one() {
    let mut specified = SpecifiedValues::default();
    specified.set_parsed_property_user_agent(&ParsedProperty::StrokeWidth(SpecifiedValue::Specified(
        StrokeWidth(px(2)),
    )));
    specified.set_parsed_property(&ParsedProperty::StrokeWidth(SpecifiedValue::Specified(StrokeWidth(px(1)))));

    let values = computed(&specified, &ComputedValues::default());

    assert_eq!(values.stroke_width, StrokeWidth(px(1)));
}

#[test]
fn the_shorthand_is_the_same_as_its_three_properties() {
    let iri = reference("arrow");

    let mut by_shorthand = SpecifiedValues::default();
    by_shorthand.set_parsed_property(&ParsedProperty::Marker(SpecifiedValue::Specified(Marker(iri.clone()))));

    let mut one_by_one = SpecifiedValues::default();
    one_by_one.set_parsed_property(&ParsedProperty::MarkerEnd(SpecifiedValue::Specified(MarkerEnd(iri.clone()))));
    one_by_one.set_parsed_property(&ParsedProperty::MarkerStart(SpecifiedValue::Specified(MarkerStart(
        iri.clone(),
    ))));
    one_by_one.set_parsed_property(&ParsedProperty::MarkerMid(SpecifiedValue::Specified(MarkerMid(iri.clone()))));

    let initial = ComputedValues::default();
    assert_eq!(computed(&by_shorthand, &initial), computed(&one_by_one, &initial));
    assert_eq!(computed(&by_shorthand, &initial).marker_start, MarkerStart(iri));
}

#[test]
fn the_shorthand_passes_on_inherit() {
    let mut parent = ComputedValues::default();
    parent.marker_start = MarkerStart(reference("a"));
    parent.marker_mid = MarkerMid(reference("b"));
    parent.marker_end = MarkerEnd(reference("c"));

    let mut specified = SpecifiedValues::default();
    specified.set_parsed_property(&ParsedProperty::MarkerMid(SpecifiedValue::Specified(MarkerMid(IRI::NoResource))));
    specified.set_parsed_property(&ParsedProperty::Marker(SpecifiedValue::Inherit));

    let values = computed(&specified, &parent);

    assert_eq!(values.marker_start, MarkerStart(reference("a")));
    assert_eq!(values.marker_mid, MarkerMid(reference("b")));
    assert_eq!(values.marker_end, MarkerEnd(reference("c")));
}

#[test]
fn the_shorthand_of_the_user_agent_fills_in_what_is_missing() {
    let mut specified = SpecifiedValues::default();
    specified.set_parsed_property(&ParsedProperty::MarkerMid(SpecifiedValue::Specified(MarkerMid(reference(
        "mine",
    )))));
    specified.set_parsed_property_user_agent(&ParsedProperty::Marker(SpecifiedValue::Specified(Marker(
        reference("theirs"),
    ))));

    let values = computed(&specified, &ComputedValues::default());

    assert_eq!(values.marker_start, MarkerStart(reference("theirs")));
    assert_eq!(values.marker_mid, MarkerMid(reference("mine")));
    assert_eq!(values.marker_end, MarkerEnd(reference("theirs")));
}

#[test]
fn the_font_size_is_resolved_against_that_of_the_parent() {
    let mut parent = ComputedValues::default();
    parent.font_size = FontSize(FontSizeSpec::Value(px(10)));

    let em = Length::new(Decimal::from_int(2), LengthUnit::Em);
    let mut specified = SpecifiedValues::default();
    specified.set_parsed_property(&ParsedProperty::FontSize(SpecifiedValue::Specified(FontSize(
        FontSizeSpec::Value(em),
    ))));
    assert_eq!(computed(&specified, &parent).font_size, FontSize(FontSizeSpec::Value(px(20))));

    let mut specified = SpecifiedValues::default();
    specified.set_parsed_property(&ParsedProperty::FontSize(SpecifiedValue::Specified(FontSize(
        FontSizeSpec::Larger,
    ))));
    assert_eq!(computed(&specified, &parent).font_size, FontSize(FontSizeSpec::Value(px(12))));

    let mut specified = SpecifiedValues::default();
    specified.set_parsed_property(&ParsedProperty::FontSize(SpecifiedValue::Specified(FontSize(
        FontSizeSpec::Large,
    ))));
    assert_eq!(
        computed(&specified, &parent).font_size,
        FontSize(FontSizeSpec::Value(Length::new(Decimal::from_micros(200_000), LengthUnit::In)))
    );
}

#[test]
fn a_baseline_shift_in_percent_counts_in_the_elements_own_font_size() {
    let mut parent = ComputedValues::default();
    parent.font_size = FontSize(FontSizeSpec::Value(px(12)));

    let percent = Length::new(Decimal::from_micros(500_000), LengthUnit::Percent);
    let mut specified = SpecifiedValues::default();
    // the baseline shift is set first and the font size second: the order of
    // the declarations does not matter
    specified.set_parsed_property(&ParsedProperty::BaselineShift(SpecifiedValue::Specified(BaselineShift(
        percent,
    ))));
    specified.set_parsed_property(&ParsedProperty::FontSize(SpecifiedValue::Specified(FontSize(
        FontSizeSpec::Value(px(20)),
    ))));

    let values = computed(&specified, &parent);

    assert_eq!(values.font_size, FontSize(FontSizeSpec::Value(px(20))));
    assert_eq!(values.baseline_shift, BaselineShift(px(10)));
}

#[test]
fn a_baseline_shift_in_percent_counts_in_an_inherited_font_size() {
    let mut parent = ComputedValues::default();
    parent.font_size = FontSize(FontSizeSpec::Value(Length::new(Decimal::from_int(10), LengthUnit::Pt)));

    let super_shift = Length::new(Decimal::from_micros(400_000), LengthUnit::Percent);
    let mut specified = SpecifiedValues::default();
    specified.set_parsed_property(&ParsedProperty::BaselineShift(SpecifiedValue::Specified(BaselineShift(
        super_shift,
    ))));

    let values = computed(&specified, &parent);

    assert_eq!(values.baseline_shift, BaselineShift(Length::new(Decimal::from_int(4), LengthUnit::Pt)));
}

#[test]
fn a_baseline_shift_that_is_no_percentage_stays() {
    let em = Length::new(Decimal::from_int(1), LengthUnit::Em);
    let mut specified = SpecifiedValues::default();
    specified.set_parsed_property(&ParsedProperty::BaselineShift(SpecifiedValue::Specified(BaselineShift(em))));

    let values = computed(&specified, &ComputedValues::default());

    assert_eq!(values.baseline_shift, BaselineShift(em));
}

#[test]
fn a_font_size_that_is_no_length_stands_for_the_initial_one() {
    let mut parent = ComputedValues::default();
    parent.font_size = FontSize(FontSizeSpec::Medium);
    assert_eq!(parent.font_size.value(), px(12));

    let mut specified = SpecifiedValues::default();
    specified.set_parsed_property(&ParsedProperty::FontSize(SpecifiedValue::Specified(FontSize(
        FontSizeSpec::Larger,
    ))));
    let values = computed(&specified, &parent);
    assert_eq!(values.font_size, FontSize(FontSizeSpec::Value(Length::new(
        Decimal::from_micros(14_400_000),
        LengthUnit::Px
    ))));
}

#[test]
fn specified_values_are_computed_as_they_are() {
    let mut specified = SpecifiedValues::default();
    specified.set_parsed_property(&ParsedProperty::LetterSpacing(SpecifiedValue::Specified(LetterSpacing(
        svg_cascade::font::LetterSpacingSpec::Value(px(2)),
    ))));
    specified.set_parsed_property(&ParsedProperty::XmlLang(SpecifiedValue::Specified(XmlLang("de".to_string()))));
    specified.set_parsed_property(&ParsedProperty::Display(SpecifiedValue::Specified(Display::NoDisplay)));

    let values = computed(&specified, &ComputedValues::default());

    assert_eq!(values.letter_spacing, LetterSpacing(svg_cascade::font::LetterSpacingSpec::Value(px(2))));
    assert_eq!(values.xml_lang, XmlLang("de".to_string()));
    assert_eq!(values.display, Display::NoDisplay);
}

#[test]
fn a_value_resolves_by_its_state() {
    let parent = ComputedValues::default();
    let src = half();
    assert_eq!(SpecifiedValue::<Opacity>::Unspecified.compute(&src, &parent), Opacity::default());
    assert_eq!(SpecifiedValue::<Opacity>::Inherit.compute(&src, &parent), src);
    let quarter = Opacity(UnitInterval(Decimal::from_micros(250_000)));
    assert_eq!(SpecifiedValue::Specified(quarter).compute(&src, &parent), quarter);
    let width = StrokeWidth(px(9));
    assert_eq!(SpecifiedValue::<StrokeWidth>::Unspecified.compute(&width, &parent), width);
    assert_eq!(SpecifiedValue::<StrokeWidth>::default(), SpecifiedValue::Unspecified);
    assert!(<StrokeWidth as Property>::inherits_automatically());
    assert!(!<Overflow as Property>::inherits_automatically());
}

#[test]
fn overflow_is_asked_of_declared_values() {
    let mut specified = SpecifiedValues::default();
    assert!(!specified.is_overflow());
    specified.set_parsed_property(&ParsedProperty::Overflow(SpecifiedValue::Specified(Overflow::Auto)));
    assert!(specified.is_overflow());
    specified.set_parsed_property(&ParsedProperty::Overflow(SpecifiedValue::Specified(Overflow::Visible)));
    assert!(specified.is_overflow());
    specified.set_parsed_property(&ParsedProperty::Overflow(SpecifiedValue::Specified(Overflow::Hidden)));
    assert!(!specified.is_overflow());
    specified.set_parsed_property(&ParsedProperty::Overflow(SpecifiedValue::Specified(Overflow::Scroll)));
    assert!(!specified.is_overflow());
    specified.set_parsed_property(&ParsedProperty::Overflow(SpecifiedValue::Inherit));
    assert!(!specified.is_overflow());
}

#[test]
fn overflow_and_visibility_are_asked_of_computed_values() {
    let mut values = ComputedValues::default();
    assert!(values.is_overflow());
    assert!(values.is_visible());
    values.overflow = Overflow::Auto;
    assert!(values.is_overflow());
    values.overflow = Overflow::Hidden;
    assert!(!values.is_overflow());
    values.overflow = Overflow::Scroll;
    assert!(!values.is_overflow());
    values.visibility = Visibility::Hidden;
    assert!(!values.is_visible());
    values.visibility = Visibility::Collapse;
    assert!(!values.is_visible());
    values.visibility = Visibility::Visible;
    values.display = Display::NoDisplay;
    assert!(!values.is_visible());
    values.display = Display::Block;
    assert!(values.is_visible());
}

#[test]
fn identities_are_numbered_densely() {
    assert_eq!(PropertyId::BaselineShift.as_u8(), 0);
    assert_eq!(PropertyId::FontSize.as_u8(), 15);
    assert_eq!(PropertyId::Marker.as_u8(), 22);
    assert_eq!(PropertyId::XmlSpace.as_u8(), 47);
    assert_eq!(PropertyId::UnsetProperty.as_u8(), 48);
    assert_eq!(PropertyId::UnsetProperty.as_usize(), svg_cascade::property_id::PROPERTY_COUNT);
    assert_eq!(ParsedProperty::Marker(SpecifiedValue::Inherit).get_property_id(), PropertyId::Marker);
    assert_eq!(
        ParsedProperty::Opacity(SpecifiedValue::Unspecified).get_property_id(),
        PropertyId::Opacity
    );
    assert_eq!(
        ParsedProperty::unspecified(PropertyId::Fill),
        ParsedProperty::Fill(SpecifiedValue::Unspecified)
    );
    assert_eq!(svg_cascade::cascade::CASCADE_ORDER[0], PropertyId::FontSize);
    assert_eq!(svg_cascade::cascade::CASCADE_ORDER.len(), 47);
}

#[test]
fn every_property_can_be_declared_at_once() {
    let mut specified = SpecifiedValues::default();
    let ids = svg_cascade::cascade::CASCADE_ORDER;
    for id in ids.iter() {
        specified.set_parsed_property(&ParsedProperty::unspecified(*id));
    }
    for id in ids.iter() {
        specified.set_parsed_property_user_agent(&ParsedProperty::unspecified(*id));
    }
    specified.set_parsed_property(&ParsedProperty::Opacity(SpecifiedValue::Specified(half())));
    let values = computed(&specified, &ComputedValues::default());
    assert_eq!(values.opacity, half());
    assert_eq!(values.stroke_width, StrokeWidth::default());
}

#[test]
fn declarations_keep_the_order_in_which_they_first_came() {
    let mut specified = SpecifiedValues::default();
    assert_eq!(specified.ids(), Vec::new());
    specified.set_parsed_property(&ParsedProperty::Overflow(SpecifiedValue::Specified(Overflow::Hidden)));
    specified.set_parsed_property(&ParsedProperty::Marker(SpecifiedValue::Inherit));
    specified.set_parsed_property(&ParsedProperty::Opacity(SpecifiedValue::Inherit));
    assert_eq!(
        specified.ids(),
        vec![
            PropertyId::Overflow,
            PropertyId::MarkerStart,
            PropertyId::MarkerMid,
            PropertyId::MarkerEnd,
            PropertyId::Opacity
        ]
    );
    // a declaration that overrides, or yields, keeps the place of the first
    specified.set_parsed_property(&ParsedProperty::Overflow(SpecifiedValue::Specified(Overflow::Auto)));
    specified.set_parsed_property_user_agent(&ParsedProperty::MarkerMid(SpecifiedValue::Unspecified));
    specified.set_parsed_property_user_agent(&ParsedProperty::StrokeWidth(SpecifiedValue::Inherit));
    assert_eq!(
        specified.ids(),
        vec![
            PropertyId::Overflow,
            PropertyId::MarkerStart,
            PropertyId::MarkerMid,
            PropertyId::MarkerEnd,
            PropertyId::Opacity,
            PropertyId::StrokeWidth
        ]
    );
    assert!(specified.is_overflow());
    let copy = specified.duplicate();
    assert_eq!(copy.ids(), specified.ids());
    assert!(copy.is_overflow());
}

#[test]
fn a_font_size_that_is_not_settled_is_computed_anew_when_inherited() {
    // such values are not what a cascade leaves behind
    let em = Length::new(Decimal::from_int(2), LengthUnit::Em);
    let mut parent = ComputedValues::default();
    parent.font_size = FontSize(FontSizeSpec::Value(em));

    let mut specified = SpecifiedValues::default();
    specified.set_parsed_property(&ParsedProperty::FontSize(SpecifiedValue::Inherit));

    let values = computed(&specified, &parent);
    assert_eq!(
        values.font_size,
        FontSize(FontSizeSpec::Value(Length::new(Decimal::from_int(4), LengthUnit::Em)))
    );
}

#[test]
fn a_baseline_shift_in_percent_is_computed_anew_when_inherited() {
    let mut parent = ComputedValues::default();
    parent.baseline_shift = BaselineShift(Length::new(Decimal::from_micros(500_000), LengthUnit::Percent));

    let mut specified = SpecifiedValues::default();
    specified.set_parsed_property(&ParsedProperty::BaselineShift(SpecifiedValue::Inherit));

    assert_eq!(computed(&specified, &parent).baseline_shift, BaselineShift(px(6)));
}

#[test]
fn one_declaration_is_set_in_its_place_or_at_the_end() {
    let width = |n: i32| ParsedProperty::StrokeWidth(SpecifiedValue::Specified(StrokeWidth(px(n))));
    let mut specified = SpecifiedValues::default();
    assert_eq!(specified.property_index(PropertyId::StrokeWidth), None);

    specified.set_property(&ParsedProperty::Overflow(SpecifiedValue::Inherit), true);
    specified.set_property(&width(1), false);
    specified.set_property(&ParsedProperty::Opacity(SpecifiedValue::Inherit), true);
    assert_eq!(specified.property_index(PropertyId::Overflow), Some(0));
    assert_eq!(specified.property_index(PropertyId::StrokeWidth), Some(1));
    assert_eq!(specified.property_index(PropertyId::Opacity), Some(2));
    assert_eq!(specified.property_index(PropertyId::Marker), None);

    // a declaration that yields changes nothing
    specified.set_property(&width(2), false);
    assert_eq!(specified.ids(), vec![PropertyId::Overflow, PropertyId::StrokeWidth, PropertyId::Opacity]);
    assert_eq!(computed(&specified, &ComputedValues::default()).stroke_width, StrokeWidth(px(1)));

    // a declaration that overrides takes the place of the old one
    specified.set_property(&width(3), true);
    assert_eq!(specified.ids(), vec![PropertyId::Overflow, PropertyId::StrokeWidth, PropertyId::Opacity]);
    assert_eq!(specified.property_index(PropertyId::StrokeWidth), Some(1));
    assert_eq!(computed(&specified, &ComputedValues::default()).stroke_width, StrokeWidth(px(3)));
}

#[test]
fn the_shorthand_is_expanded_into_three_declarations() {
    let iri = reference("arrow");
    let mut by_shorthand = SpecifiedValues::default();
    by_shorthand.set_property_expanding_shorthands(
        &ParsedProperty::Marker(SpecifiedValue::Specified(Marker(iri.clone()))),
        false,
    );
    let mut one_by_one = SpecifiedValues::default();
    one_by_one.set_property(&ParsedProperty::MarkerStart(SpecifiedValue::Specified(MarkerStart(iri.clone()))), false);
    one_by_one.set_property(&ParsedProperty::MarkerMid(SpecifiedValue::Specified(MarkerMid(iri.clone()))), false);
    one_by_one.set_property(&ParsedProperty::MarkerEnd(SpecifiedValue::Specified(MarkerEnd(iri.clone()))), false);

    assert_eq!(by_shorthand.ids(), vec![PropertyId::MarkerStart, PropertyId::MarkerMid, PropertyId::MarkerEnd]);
    assert_eq!(by_shorthand.ids(), one_by_one.ids());
    assert_eq!(by_shorthand.property_index(PropertyId::Marker), None);
    let initial = ComputedValues::default();
    assert_eq!(computed(&by_shorthand, &initial), computed(&one_by_one, &initial));
    assert_eq!(computed(&by_shorthand, &initial).marker_end, MarkerEnd(iri));

    by_shorthand.set_property_expanding_shorthands(&ParsedProperty::Opacity(SpecifiedValue::Inherit), true);
    assert_eq!(by_shorthand.property_index(PropertyId::Opacity), Some(3));
}
