use svg_cascade::attributes::{read_attribute, read_presentation, Attribute, Ignored};
use svg_cascade::color::{CssColor, Rgba};
use svg_cascade::computed::ComputedValues;
use svg_cascade::error::ValueErrorKind;
use svg_cascade::iri::{Fragment, IRI};
use svg_cascade::length::{Length, LengthUnit};
use svg_cascade::names::{Namespace, QualName};
use svg_cascade::number::Decimal;
use svg_cascade::paint_server::PaintServer;
use svg_cascade::parse_property::{parse_property, parse_value, property_id_of};
use svg_cascade::parsed::ParsedProperty;
use svg_cascade::property::{parse_input, SpecifiedValue};
use svg_cascade::property_defs::{
    Color, Fill, FontFamily, Marker, Opacity, StrokeDasharray, StrokeWidth, XmlLang, XmlSpace,
};
use svg_cascade::property_id::PropertyId;
use svg_cascade::specified::SpecifiedValues;
use svg_cascade::unit_interval::UnitInterval;

fn name(local: &str) -> QualName {
    QualName::new(Namespace::Empty, local)
}

fn attribute(local: &str, value: &str) -> Attribute {
    Attribute::new(name(local), value)
}

fn xml(local: &str, value: &str) -> Attribute {
    Attribute::new(QualName::new(Namespace::Xml, local), value)
}

fn px(n: i32) -> Length {
    Length::new(Decimal::from_int(n), LengthUnit::Px)
}

fn red() -> CssColor {
    CssColor::Rgba(Rgba::new(255, 0, 0, 255))
}

#[test]
fn a_property_is_read_by_its_name() {
    assert_eq!(
        parse_property(&name("stroke-width"), "42px", false),
        Ok((ParsedProperty::StrokeWidth(SpecifiedValue::Specified(StrokeWidth(px(42)))), ""))
    );
    assert_eq!(
        parse_property(&name("fill"), "red !important", true),
        Ok((ParsedProperty::Fill(SpecifiedValue::Specified(Fill(PaintServer::SolidColor(red())))), " !important"))
    );
    assert_eq!(
        parse_property(&name("color"), "#ff0000", false),
        Ok((ParsedProperty::Color(SpecifiedValue::Specified(Color(Rgba::new(255, 0, 0, 255)))), ""))
    );
    assert_eq!(
        parse_property(&name("opacity"), " 0.5", false),
        Ok((ParsedProperty::Opacity(SpecifiedValue::Specified(Opacity(UnitInterval(Decimal::from_micros(500_000))))), ""))
    );
    assert_eq!(
        parse_property(&name("font-family"), "Deja Vu", false),
        Ok((ParsedProperty::FontFamily(SpecifiedValue::Specified(FontFamily("Deja Vu".to_string()))), ""))
    );
    assert_eq!(
        parse_property(&name("stroke-dasharray"), "1 2", false),
        Ok((
            ParsedProperty::StrokeDasharray(SpecifiedValue::Specified(StrokeDasharray(
                svg_cascade::dasharray::Dasharray::Array(vec![px(1), px(2)])
            ))),
            ""
        ))
    );
}

#[test]
fn inherit_is_a_value_of_every_property() {
    assert_eq!(
        parse_property(&name("fill"), "inherit", false),
        Ok((ParsedProperty::Fill(SpecifiedValue::Inherit), ""))
    );
    assert_eq!(
        parse_property(&name("opacity"), "INHERIT", false),
        Ok((ParsedProperty::Opacity(SpecifiedValue::Inherit), ""))
    );
    assert_eq!(
        parse_property(&name("marker"), "inherit", true),
        Ok((ParsedProperty::Marker(SpecifiedValue::Inherit), ""))
    );
    assert_eq!(parse_input::<StrokeWidth>("inherit 3"), Ok((SpecifiedValue::Inherit, " 3")));
    assert_eq!(
        parse_input::<StrokeWidth>("3"),
        Ok((SpecifiedValue::Specified(StrokeWidth(px(3))), ""))
    );
    assert_eq!(parse_input::<StrokeWidth>("inherited"), Err(ValueErrorKind::UnexpectedToken));
}

#[test]
fn names_that_are_no_properties_are_unknown() {
    assert_eq!(parse_property(&name("width"), "10", false), Err(ValueErrorKind::UnknownProperty));
    assert_eq!(parse_property(&name("Fill"), "red", false), Err(ValueErrorKind::UnknownProperty));
    assert_eq!(parse_property(&name(""), "red", false), Err(ValueErrorKind::UnknownProperty));
    assert_eq!(
        parse_property(&QualName::new(Namespace::Xml, "fill"), "red", false),
        Err(ValueErrorKind::UnknownProperty)
    );
    assert_eq!(
        parse_property(&QualName::new(Namespace::Other, "fill"), "red", false),
        Err(ValueErrorKind::UnknownProperty)
    );
    assert_eq!(parse_property(&name("lang"), "en", false), Err(ValueErrorKind::UnknownProperty));
    assert_eq!(parse_value(PropertyId::XmlLang, "en"), Err(ValueErrorKind::UnknownProperty));
    assert_eq!(parse_value(PropertyId::XmlSpace, "default"), Err(ValueErrorKind::UnknownProperty));
    assert_eq!(parse_value(PropertyId::UnsetProperty, "1"), Err(ValueErrorKind::UnknownProperty));
}

#[test]
fn the_shorthand_is_a_property_only_where_it_is_accepted() {
    let marker = IRI::Resource(Fragment::new(None, "m".to_string()));
    assert_eq!(
        parse_property(&name("marker"), "url(#m)", true),
        Ok((ParsedProperty::Marker(SpecifiedValue::Specified(Marker(marker))), ""))
    );
    assert_eq!(parse_property(&name("marker"), "url(#m)", false), Err(ValueErrorKind::UnknownProperty));
    assert_eq!(property_id_of(&name("marker")), Some(PropertyId::Marker));
    assert_eq!(property_id_of(&name("marker-mid")), Some(PropertyId::MarkerMid));
    assert_eq!(property_id_of(&name("stroke-miterlimit")), Some(PropertyId::StrokeMiterlimit));
    assert_eq!(property_id_of(&name("writing-mode")), Some(PropertyId::WritingMode));
    assert_eq!(property_id_of(&name("baseline-shift")), Some(PropertyId::BaselineShift));
    assert_eq!(property_id_of(&name("space")), None);
}

#[test]
fn malformed_values_are_told_from_unknown_names() {
    assert_eq!(parse_property(&name("stroke-width"), "wide", false), Err(ValueErrorKind::UnexpectedToken));
    assert_eq!(parse_property(&name("stroke-width"), "", false), Err(ValueErrorKind::EndOfInput));
    assert_eq!(parse_property(&name("clip-path"), "url(a.svg)", false), Err(ValueErrorKind::Value));
    assert_eq!(parse_property(&name("color"), "currentColor", false), Err(ValueErrorKind::Value));
}

#[test]
fn a_presentation_attribute_takes_up_its_whole_value() {
    assert_eq!(
        read_presentation(&name("stroke-width"), "2px"),
        Ok(ParsedProperty::StrokeWidth(SpecifiedValue::Specified(StrokeWidth(px(2)))))
    );
    assert_eq!(read_presentation(&name("stroke-width"), "2px 3px"), Err(ValueErrorKind::UnexpectedToken));
    assert_eq!(read_presentation(&name("fill"), "red !important"), Err(ValueErrorKind::UnexpectedToken));
    assert_eq!(read_presentation(&name("marker"), "url(#m)"), Err(ValueErrorKind::UnknownProperty));
    assert_eq!(read_presentation(&name("x"), "1"), Err(ValueErrorKind::UnknownProperty));
}

#[test]
fn one_presentation_attribute_is_set_or_passed_over() {
    let mut specified = SpecifiedValues::default();
    assert_eq!(specified.parse_one_presentation_attribute(&name("stroke-width"), "5"), (Ok(()), None));
    assert_eq!(specified.parse_one_presentation_attribute(&name("height"), "5"), (Ok(()), None));
    assert_eq!(specified.parse_one_presentation_attribute(&name("marker"), "url(#m)"), (Ok(()), None));
    assert_eq!(
        specified.parse_one_presentation_attribute(&QualName::new(Namespace::Xml, "fill"), "red"),
        (Ok(()), None)
    );

    let mut computed = ComputedValues::default();
    specified.to_computed_values(&mut computed);
    assert_eq!(computed.stroke_width, StrokeWidth(px(5)));
    assert_eq!(computed.opacity, Opacity::default());
    assert_eq!(computed.fill, Fill::default());
    assert_eq!(computed.marker_start, svg_cascade::property_defs::MarkerStart(IRI::NoResource));
}

#[test]
fn a_malformed_presentation_attribute_is_no_failure() {
    let mut specified = SpecifiedValues::default();
    assert_eq!(specified.parse_one_presentation_attribute(&name("stroke-width"), "5"), (Ok(()), None));
    assert_eq!(
        specified.parse_one_presentation_attribute(&name("opacity"), "opaque"),
        (Ok(()), Some(ValueErrorKind::UnexpectedToken))
    );
    assert_eq!(
        specified.parse_one_presentation_attribute(&name("stroke-width"), ""),
        (Ok(()), Some(ValueErrorKind::EndOfInput))
    );
    assert_eq!(
        specified.parse_one_presentation_attribute(&name("stroke-width"), "7 8"),
        (Ok(()), Some(ValueErrorKind::UnexpectedToken))
    );
    assert_eq!(
        specified.parse_one_presentation_attribute(&name("mask"), "url(nowhere)"),
        (Ok(()), Some(ValueErrorKind::Value))
    );
    assert_eq!(
        specified.parse_one_presentation_attribute(&name("color"), "currentColor"),
        (Ok(()), Some(ValueErrorKind::Value))
    );

    // the value that was there is kept, and nothing else is set
    assert_eq!(specified.ids(), vec![PropertyId::StrokeWidth]);
    let mut computed = ComputedValues::default();
    specified.to_computed_values(&mut computed);
    assert_eq!(computed.stroke_width, StrokeWidth(px(5)));
    assert_eq!(computed.opacity, Opacity::default());
}

#[test]
fn a_malformed_value_is_never_an_unknown_property() {
    let known = ["stroke-width", "fill", "opacity", "clip-path", "font-family", "display", "stroke-dasharray"];
    let values = ["", " ", "!", "@x", "{", ")", "1q", "url(", "'", "inherit 2", ";", "\u{0}", "rgb(1e1,0,0)"];
    for local in known.iter() {
        for value in values.iter() {
            match parse_property(&name(local), value, false) {
                Ok(_) => {}
                Err(e) => assert_ne!(e, ValueErrorKind::UnknownProperty),
            }
        }
    }
    for value in values.iter() {
        assert_eq!(parse_property(&name("marker"), value, false), Err(ValueErrorKind::UnknownProperty));
        assert_eq!(parse_property(&name("x"), value, true), Err(ValueErrorKind::UnknownProperty));
        assert_ne!(read_attribute(&xml("space", value)), Err(ValueErrorKind::UnknownProperty));
    }
}

#[test]
fn a_malformed_attribute_leaves_the_others_alone() {
    let pbag = vec![attribute("stroke-width", "not a length"), attribute("fill", "#ff0000")];

    let mut specified = SpecifiedValues::default();
    let ignored = specified.parse_presentation_attributes(&pbag);

    assert_eq!(ignored, vec![Ignored { index: 0, error: ValueErrorKind::UnexpectedToken }]);

    let mut computed = ComputedValues::default();
    specified.to_computed_values(&mut computed);
    assert_eq!(computed.stroke_width, StrokeWidth::default());
    assert_eq!(computed.fill, Fill(PaintServer::SolidColor(red())));
}

#[test]
fn attributes_are_taken_in_their_order() {
    let pbag = vec![
        attribute("width", "100"),
        attribute("stroke-width", "1"),
        attribute("opacity", "2 3"),
        xml("lang", "en"),
        xml("space", "preserve"),
        attribute("marker", "url(#m)"),
        attribute("stroke-width", "2"),
        attribute("clip-path", "url(x)"),
        xml("base", "http://example.org/"),
    ];

    let mut specified = SpecifiedValues::default();
    let ignored = specified.parse_presentation_attributes(&pbag);

    assert_eq!(
        ignored,
        vec![
            Ignored { index: 2, error: ValueErrorKind::UnexpectedToken },
            Ignored { index: 7, error: ValueErrorKind::Value },
        ]
    );

    let mut computed = ComputedValues::default();
    specified.to_computed_values(&mut computed);
    assert_eq!(computed.stroke_width, StrokeWidth(px(2)));
    assert_eq!(computed.xml_lang, XmlLang("en".to_string()));
    assert_eq!(computed.xml_space, XmlSpace::Preserve);
    assert_eq!(computed.marker_start, svg_cascade::property_defs::MarkerStart(IRI::NoResource));
    assert_eq!(computed.opacity, Opacity::default());
}

#[test]
fn no_attributes_change_nothing() {
    let mut specified = SpecifiedValues::default();
    assert_eq!(specified.parse_presentation_attributes(&Vec::new()), Vec::new());
    let mut computed = ComputedValues::default();
    specified.to_computed_values(&mut computed);
    assert_eq!(computed, ComputedValues::default());
}

#[test]
fn the_attributes_of_the_xml_namespace_are_no_properties() {
    assert_eq!(
        read_attribute(&xml("lang", "inherit")),
        Ok(ParsedProperty::XmlLang(SpecifiedValue::Specified(XmlLang("inherit".to_string()))))
    );
    assert_eq!(
        read_attribute(&xml("space", "default")),
        Ok(ParsedProperty::XmlSpace(SpecifiedValue::Specified(XmlSpace::Default)))
    );
    assert_eq!(read_attribute(&xml("space", "inherit")), Err(ValueErrorKind::UnexpectedToken));
    assert_eq!(read_attribute(&xml("space", "preserve all")), Err(ValueErrorKind::UnexpectedToken));
    assert_eq!(read_attribute(&xml("space", "")), Err(ValueErrorKind::EndOfInput));
    assert_eq!(read_attribute(&xml("fill", "red")), Err(ValueErrorKind::UnknownProperty));
    assert_eq!(read_attribute(&attribute("lang", "en")), Err(ValueErrorKind::UnknownProperty));
    assert_eq!(
        read_attribute(&attribute("fill", "red")),
        Ok(ParsedProperty::Fill(SpecifiedValue::Specified(Fill(PaintServer::SolidColor(red())))))
    );

    let mut specified = SpecifiedValues::default();
    let ignored = specified.parse_presentation_attributes(&vec![xml("space", "keep"), xml("lang", "fr")]);
    assert_eq!(ignored, vec![Ignored { index: 0, error: ValueErrorKind::UnexpectedToken }]);
    let mut computed = ComputedValues::default();
    specified.to_computed_values(&mut computed);
    assert_eq!(computed.xml_space, XmlSpace::Default);
    assert_eq!(computed.xml_lang, XmlLang("fr".to_string()));
}
