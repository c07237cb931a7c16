use svg_cascade::color::{CssColor, Rgba};
use svg_cascade::computed::ComputedValues;
use svg_cascade::declarations::{parse_declaration, Declaration, ImportantStyles, Origin};
use svg_cascade::error::ValueErrorKind;
use svg_cascade::iri::{Fragment, IRI};
use svg_cascade::length::{Length, LengthUnit};
use svg_cascade::number::Decimal;
use svg_cascade::paint_server::PaintServer;
use svg_cascade::parsed::ParsedProperty;
use svg_cascade::property::SpecifiedValue;
use svg_cascade::property_defs::{Fill, Marker, MarkerEnd, MarkerMid, MarkerStart, Opacity, StrokeWidth};
use svg_cascade::property_id::PropertyId;
use svg_cascade::specified::SpecifiedValues;
use svg_cascade::unit_interval::UnitInterval;

fn px(n: i32) -> Length {
    Length::new(Decimal::from_int(n), LengthUnit::Px)
}

fn solid(red: u8, green: u8, blue: u8) -> Fill {
    Fill(PaintServer::SolidColor(CssColor::Rgba(Rgba::new(red, green, blue, 255))))
}

fn fill(red: u8, green: u8, blue: u8, important: bool) -> Declaration {
    Declaration {
        property: ParsedProperty::Fill(SpecifiedValue::Specified(solid(red, green, blue))),
        important,
    }
}

fn computed(specified: &SpecifiedValues) -> ComputedValues {
    let mut values = ComputedValues::default();
    specified.to_computed_values(&mut values);
    values
}

#[test]
fn an_important_declaration_is_kept_against_a_later_plain_one() {
    let mut specified = SpecifiedValues::default();
    let mut important = ImportantStyles::new();

    specified.set_property_from_declaration(&fill(255, 0, 0, true), Origin::UserAgent, &mut important);
    assert!(important.contains(PropertyId::Fill));
    specified.set_property_from_declaration(&fill(0, 0, 255, false), Origin::Author, &mut important);

    assert_eq!(computed(&specified).fill, solid(255, 0, 0));
}

#[test]
fn a_plain_declaration_of_the_author_overrides_a_plain_one_of_the_user_agent() {
    let mut specified = SpecifiedValues::default();
    let mut important = ImportantStyles::new();

    specified.set_property_from_declaration(&fill(255, 0, 0, false), Origin::UserAgent, &mut important);
    assert!(!important.contains(PropertyId::Fill));
    specified.set_property_from_declaration(&fill(0, 0, 255, false), Origin::Author, &mut important);

    assert_eq!(computed(&specified).fill, solid(0, 0, 255));
}

#[test]
fn a_declaration_of_the_user_agent_never_overrides() {
    let mut specified = SpecifiedValues::default();
    let mut important = ImportantStyles::new();

    specified.set_property_from_declaration(&fill(0, 0, 255, false), Origin::Author, &mut important);
    specified.set_property_from_declaration(&fill(255, 0, 0, false), Origin::UserAgent, &mut important);
    assert_eq!(computed(&specified).fill, solid(0, 0, 255));

    // not even an important one, though it is recorded
    specified.set_property_from_declaration(&fill(0, 255, 0, true), Origin::UserAgent, &mut important);
    assert!(important.contains(PropertyId::Fill));
    assert_eq!(computed(&specified).fill, solid(0, 0, 255));

    // and a plain one of the author is dropped from then on
    specified.set_property_from_declaration(&fill(9, 9, 9, false), Origin::Author, &mut important);
    assert_eq!(computed(&specified).fill, solid(0, 0, 255));
}

#[test]
fn the_last_of_two_important_declarations_of_the_author_wins() {
    let mut specified = SpecifiedValues::default();
    let mut important = ImportantStyles::new();

    specified.set_property_from_declaration(&fill(255, 0, 0, true), Origin::Author, &mut important);
    specified.set_property_from_declaration(&fill(0, 0, 255, true), Origin::Author, &mut important);

    assert_eq!(computed(&specified).fill, solid(0, 0, 255));
}

#[test]
fn an_important_shorthand_pins_the_shorthand_only() {
    let arrow = IRI::Resource(Fragment::new(None, "arrow".to_string()));
    let dot = IRI::Resource(Fragment::new(None, "dot".to_string()));
    let mut specified = SpecifiedValues::default();
    let mut important = ImportantStyles::new();

    let shorthand = Declaration {
        property: ParsedProperty::Marker(SpecifiedValue::Specified(Marker(arrow.clone()))),
        important: true,
    };
    let again = Declaration {
        property: ParsedProperty::Marker(SpecifiedValue::Specified(Marker(dot.clone()))),
        important: false,
    };
    let mid = Declaration {
        property: ParsedProperty::MarkerMid(SpecifiedValue::Specified(MarkerMid(dot.clone()))),
        important: false,
    };
    specified.set_property_from_declaration(&shorthand, Origin::Author, &mut important);
    specified.set_property_from_declaration(&again, Origin::Author, &mut important);
    specified.set_property_from_declaration(&mid, Origin::Author, &mut important);

    assert!(important.contains(PropertyId::Marker));
    assert!(!important.contains(PropertyId::MarkerMid));
    let values = computed(&specified);
    assert_eq!(values.marker_start, MarkerStart(arrow.clone()));
    assert_eq!(values.marker_mid, MarkerMid(dot));
    assert_eq!(values.marker_end, MarkerEnd(arrow));
}

#[test]
fn important_styles_are_a_set_of_identities() {
    let mut important = ImportantStyles::new();
    assert!(!important.contains(PropertyId::Fill));
    important.insert(PropertyId::Fill);
    important.insert(PropertyId::Fill);
    important.insert(PropertyId::XmlSpace);
    assert!(important.contains(PropertyId::Fill));
    assert!(important.contains(PropertyId::XmlSpace));
    assert!(!important.contains(PropertyId::Stroke));
    assert!(!important.contains(PropertyId::UnsetProperty));
}

#[test]
fn one_declaration_is_a_name_a_colon_and_a_value() {
    assert_eq!(parse_declaration("fill: #f00"), Ok(fill(255, 0, 0, false)));
    assert_eq!(parse_declaration("fill:#f00!important"), Ok(fill(255, 0, 0, true)));
    assert_eq!(parse_declaration(" fill : red ! IMPORTANT "), Ok(fill(255, 0, 0, true)));
    assert_eq!(
        parse_declaration("marker: url(#m)"),
        Ok(Declaration {
            property: ParsedProperty::Marker(SpecifiedValue::Specified(Marker(IRI::Resource(Fragment::new(
                None,
                "m".to_string()
            ))))),
            important: false,
        })
    );
    assert_eq!(
        parse_declaration("opacity: inherit"),
        Ok(Declaration { property: ParsedProperty::Opacity(SpecifiedValue::Inherit), important: false })
    );
    assert_eq!(parse_declaration("fill red"), Err(ValueErrorKind::UnexpectedToken));
    assert_eq!(parse_declaration("fill"), Err(ValueErrorKind::EndOfInput));
    assert_eq!(parse_declaration("fill:"), Err(ValueErrorKind::EndOfInput));
    assert_eq!(parse_declaration(": red"), Err(ValueErrorKind::UnexpectedToken));
    assert_eq!(parse_declaration("colour: red"), Err(ValueErrorKind::UnknownProperty));
    assert_eq!(parse_declaration("fill: red blue"), Err(ValueErrorKind::UnexpectedToken));
    assert_eq!(parse_declaration("fill: red !important blue"), Err(ValueErrorKind::UnexpectedToken));
    assert_eq!(parse_declaration("fill: red !unimportant"), Err(ValueErrorKind::UnexpectedToken));
    assert_eq!(parse_declaration("clip-path: url(x)"), Err(ValueErrorKind::Value));
    assert_eq!(parse_declaration(""), Err(ValueErrorKind::EndOfInput));
}

#[test]
fn a_malformed_declaration_leaves_the_others_alone() {
    let mut specified = SpecifiedValues::default();
    let mut important = ImportantStyles::new();

    let errors =
        specified.parse_style_declarations("stroke-width: 1furlong; fill: #00ff00", Origin::Author, &mut important);

    assert_eq!(errors, vec![ValueErrorKind::UnexpectedToken]);
    let values = computed(&specified);
    assert_eq!(values.stroke_width, StrokeWidth::default());
    assert_eq!(values.fill, solid(0, 255, 0));
}

#[test]
fn declarations_are_merged_in_their_order() {
    let mut specified = SpecifiedValues::default();
    let mut important = ImportantStyles::new();

    let errors = specified.parse_style_declarations(
        "fill: red; stroke-width: 2px !important; bogus: 1; opacity: x;; \
         stroke-width: 3px; marker: url(#m); fill: blue; /* done */ ;",
        Origin::Author,
        &mut important,
    );

    assert_eq!(errors, vec![ValueErrorKind::UnknownProperty, ValueErrorKind::UnexpectedToken]);
    assert!(important.contains(PropertyId::StrokeWidth));
    assert!(!important.contains(PropertyId::Fill));
    let values = computed(&specified);
    assert_eq!(values.fill, solid(0, 0, 255));
    assert_eq!(values.stroke_width, StrokeWidth(px(2)));
    assert_eq!(values.opacity, Opacity(UnitInterval(Decimal::from_int(1))));
    let m = IRI::Resource(Fragment::new(None, "m".to_string()));
    assert_eq!(values.marker_start, MarkerStart(m.clone()));
    assert_eq!(values.marker_mid, MarkerMid(m.clone()));
    assert_eq!(values.marker_end, MarkerEnd(m));
}

#[test]
fn a_semicolon_inside_a_block_or_a_string_ends_no_declaration() {
    let mut specified = SpecifiedValues::default();
    let mut important = ImportantStyles::new();

    let errors = specified.parse_style_declarations(
        "font-family: 'a;b'; fill: {red; blue}; stroke-width: 4",
        Origin::Author,
        &mut important,
    );

    assert_eq!(errors, vec![ValueErrorKind::UnexpectedToken]);
    let values = computed(&specified);
    assert_eq!(values.font_family, svg_cascade::property_defs::FontFamily("a;b".to_string()));
    assert_eq!(values.fill, Fill::default());
    assert_eq!(values.stroke_width, StrokeWidth(px(4)));
}

#[test]
fn declarations_of_the_user_agent_are_defaults() {
    let mut specified = SpecifiedValues::default();
    let mut important = ImportantStyles::new();

    assert_eq!(
        specified.parse_style_declarations("stroke-width: 5", Origin::Author, &mut important),
        Vec::new()
    );
    assert_eq!(
        specified.parse_style_declarations("stroke-width: 1; opacity: 0.5", Origin::UserAgent, &mut important),
        Vec::new()
    );

    let values = computed(&specified);
    assert_eq!(values.stroke_width, StrokeWidth(px(5)));
    assert_eq!(values.opacity, Opacity(UnitInterval(Decimal::from_micros(500_000))));
}

#[test]
fn an_empty_list_of_declarations_changes_nothing() {
    let mut specified = SpecifiedValues::default();
    let mut important = ImportantStyles::new();
    assert_eq!(specified.parse_style_declarations("", Origin::Author, &mut important), Vec::new());
    assert_eq!(specified.parse_style_declarations(" ; ;; /* x */ ", Origin::Author, &mut important), Vec::new());
    assert_eq!(computed(&specified), ComputedValues::default());
}

#[test]
fn an_at_rule_ends_with_its_block_or_with_a_semicolon() {
    let mut specified = SpecifiedValues::default();
    let mut important = ImportantStyles::new();

    let errors = specified.parse_style_declarations(
        "@media print { fill: blue; } fill: red; @import 'x'; stroke-width: 2",
        Origin::Author,
        &mut important,
    );

    assert_eq!(errors, vec![ValueErrorKind::UnexpectedToken, ValueErrorKind::UnexpectedToken]);
    let values = computed(&specified);
    assert_eq!(values.fill, solid(255, 0, 0));
    assert_eq!(values.stroke_width, StrokeWidth(px(2)));
}

#[test]
fn an_at_rule_without_an_end_takes_the_rest_of_the_list() {
    let mut specified = SpecifiedValues::default();
    let mut important = ImportantStyles::new();
    assert_eq!(
        specified.parse_style_declarations("fill: red; @page", Origin::Author, &mut important),
        vec![ValueErrorKind::UnexpectedToken]
    );
    assert_eq!(
        specified.parse_style_declarations(" /* c */ @x (a;b) [;] { {;} } opacity: 0.5", Origin::Author, &mut important),
        vec![ValueErrorKind::UnexpectedToken]
    );
    assert_eq!(
        specified.parse_style_declarations("@x { stroke-width: 9", Origin::Author, &mut important),
        vec![ValueErrorKind::UnexpectedToken]
    );
    let values = computed(&specified);
    assert_eq!(values.fill, solid(255, 0, 0));
    assert_eq!(values.opacity, Opacity(UnitInterval(Decimal::from_micros(500_000))));
    assert_eq!(values.stroke_width, StrokeWidth::default());
}

#[test]
fn an_at_keyword_inside_a_declaration_is_part_of_it() {
    let mut specified = SpecifiedValues::default();
    let mut important = ImportantStyles::new();
    let errors = specified.parse_style_declarations(
        "fill: @x {} red; opacity: 0.5",
        Origin::Author,
        &mut important,
    );
    assert_eq!(errors, vec![ValueErrorKind::UnexpectedToken]);
    let values = computed(&specified);
    assert_eq!(values.fill, Fill::default());
    assert_eq!(values.opacity, Opacity(UnitInterval(Decimal::from_micros(500_000))));
}

#[test]
fn a_declaration_of_an_unknown_property_is_told_from_a_malformed_one() {
    assert_eq!(parse_declaration("colour: red"), Err(ValueErrorKind::UnknownProperty));
    assert_eq!(parse_declaration("colour:"), Err(ValueErrorKind::UnknownProperty));
    assert_eq!(parse_declaration("color:"), Err(ValueErrorKind::EndOfInput));
    assert_eq!(parse_declaration("color: colour"), Err(ValueErrorKind::UnexpectedToken));
    assert_eq!(parse_declaration("colour red"), Err(ValueErrorKind::UnexpectedToken));
    assert_eq!(parse_declaration("@colour: red"), Err(ValueErrorKind::UnexpectedToken));
}
