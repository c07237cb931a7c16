use svg_cascade::computed::ComputedValues;
use svg_cascade::iri::IRI;
use svg_cascade::length::{Length, LengthUnit};
use svg_cascade::number::Decimal;
use svg_cascade::parsed::ParsedProperty;
use svg_cascade::parsers::Parse;
use svg_cascade::property::{Property, SpecifiedValue};
use svg_cascade::property_defs::{Marker, MarkerEnd, MarkerMid, MarkerStart, Opacity, StrokeWidth};
use svg_cascade::specified::SpecifiedValues;

#[test]
fn empty_values_computes_to_defaults() {
    let specified = SpecifiedValues::default();

    let mut computed = ComputedValues::default();
    specified.to_computed_values(&mut computed);

    assert_eq!(computed.stroke_width, StrokeWidth::default());
}

#[test]
fn set_one_property() {
    let length = Length::new(Decimal::from_f32_bits(42.0f32.to_bits()), LengthUnit::Px);

    let mut specified = SpecifiedValues::default();
    specified.set_parsed_property(&ParsedProperty::StrokeWidth(SpecifiedValue::Specified(
        StrokeWidth(length),
    )));

    let mut computed = ComputedValues::default();
    specified.to_computed_values(&mut computed);

    assert_eq!(computed.stroke_width, StrokeWidth(length));
}

#[test]
fn replace_existing_property() {
    let length1 = Length::new(Decimal::from_f32_bits(42.0f32.to_bits()), LengthUnit::Px);
    let length2 = Length::new(Decimal::from_f32_bits(42.0f32.to_bits()), LengthUnit::Px);

    let mut specified = SpecifiedValues::default();

    specified.set_parsed_property(&ParsedProperty::StrokeWidth(SpecifiedValue::Specified(
        StrokeWidth(length1),
    )));

    specified.set_parsed_property(&ParsedProperty::StrokeWidth(SpecifiedValue::Specified(
        StrokeWidth(length2),
    )));

    let mut computed = ComputedValues::default();
    specified.to_computed_values(&mut computed);

    assert_eq!(computed.stroke_width, StrokeWidth(length2));
}

#[test]
fn expands_marker_shorthand() {
    let mut specified = SpecifiedValues::default();
    let iri = IRI::parse_str("url(#foo)").unwrap();

    let marker = Marker(iri.clone());
    specified.set_parsed_property(&ParsedProperty::Marker(SpecifiedValue::Specified(marker)));

    let mut computed = ComputedValues::default();
    specified.to_computed_values(&mut computed);

    assert_eq!(computed.marker_start, MarkerStart(iri.clone()));
    assert_eq!(computed.marker_mid, MarkerMid(iri.clone()));
    assert_eq!(computed.marker_end, MarkerEnd(iri.clone()));
}

#[test]
fn replaces_marker_shorthand() {
    let mut specified = SpecifiedValues::default();
    let iri1 = IRI::parse_str("url(#foo)").unwrap();
    let iri2 = IRI::NoResource;

    let marker1 = Marker(iri1.clone());
    specified.set_parsed_property(&ParsedProperty::Marker(SpecifiedValue::Specified(marker1)));

    let marker2 = Marker(iri2.clone());
    specified.set_parsed_property(&ParsedProperty::Marker(SpecifiedValue::Specified(marker2)));

    let mut computed = ComputedValues::default();
    specified.to_computed_values(&mut computed);

    assert_eq!(computed.marker_start, MarkerStart(iri2.clone()));
    assert_eq!(computed.marker_mid, MarkerMid(iri2.clone()));
    assert_eq!(computed.marker_end, MarkerEnd(iri2.clone()));
}

#[test]
fn computes_property_that_does_not_inherit_automatically() {
    assert_eq!(<Opacity as Property>::inherits_automatically(), false);

    let half_opacity = Opacity::parse_str("0.5").unwrap();

    // first level, as specified with opacity

    let mut with_opacity = SpecifiedValues::default();
    with_opacity.set_parsed_property(&ParsedProperty::Opacity(SpecifiedValue::Specified(
        half_opacity.clone(),
    )));

    let mut computed_0_5 = ComputedValues::default();
    with_opacity.to_computed_values(&mut computed_0_5);

    assert_eq!(computed_0_5.opacity, half_opacity.clone());

    // second level, no opacity specified, and it doesn't inherit

    let without_opacity = SpecifiedValues::default();

    let mut computed = computed_0_5.clone();
    without_opacity.to_computed_values(&mut computed);

    assert_eq!(computed.opacity, Opacity::default());

    // another at second level, opacity set to explicitly inherit

    let mut with_inherit_opacity = SpecifiedValues::default();
    with_inherit_opacity.set_parsed_property(&ParsedProperty::Opacity(SpecifiedValue::Inherit));

    let mut computed = computed_0_5.clone();
    with_inherit_opacity.to_computed_values(&mut computed);

    assert_eq!(computed.opacity, half_opacity.clone());
}
