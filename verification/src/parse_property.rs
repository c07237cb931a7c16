//! Reading the declaration of a property from its name and the text of its
//! value.

use crate::css::read_view;
use crate::error::ValueErrorKind;
use crate::names::{Namespace, QualName, QualNameView};
use crate::parsed::{ParsedProperty, ParsedPropertyView};
use crate::property::{parse_input, parsed_input};
use crate::property_defs::{
    BaselineShift, ClipPath, ClipRule, Color, ColorInterpolationFilters, Direction, Display,
    EnableBackground, Fill, FillOpacity, FillRule, Filter, FloodColor, FloodOpacity, FontFamily,
    FontSize, FontStretch, FontStyle, FontVariant, FontWeight, LetterSpacing, LightingColor, Marker,
    MarkerEnd, MarkerMid, MarkerStart, Mask, Opacity, Overflow, ShapeRendering, StopColor,
    StopOpacity, Stroke, StrokeDasharray, StrokeDashoffset, StrokeLinecap, StrokeLinejoin,
    StrokeMiterlimit, StrokeOpacity, StrokeWidth, TextAnchor, TextDecoration, TextRendering,
    UnicodeBidi, Visibility, WritingMode,
};
use crate::property_id::PropertyId;
use crate::text::eq_str;
use vstd::prelude::*;

verus! {

/// The property that `name` names: one of the empty namespace, with its name
/// as it is written.
pub open spec fn property_named(name: QualNameView) -> Option<PropertyId> {
    if !(name.ns is Empty) {
        None
    } else if name.local == "baseline-shift"@ {
        Some(PropertyId::BaselineShift)
    } else if name.local == "clip-path"@ {
        Some(PropertyId::ClipPath)
    } else if name.local == "clip-rule"@ {
        Some(PropertyId::ClipRule)
    } else if name.local == "color"@ {
        Some(PropertyId::Color)
    } else if name.local == "color-interpolation-filters"@ {
        Some(PropertyId::ColorInterpolationFilters)
    } else if name.local == "direction"@ {
        Some(PropertyId::Direction)
    } else if name.local == "display"@ {
        Some(PropertyId::Display)
    } else if name.local == "enable-background"@ {
        Some(PropertyId::EnableBackground)
    } else if name.local == "fill"@ {
        Some(PropertyId::Fill)
    } else if name.local == "fill-opacity"@ {
        Some(PropertyId::FillOpacity)
    } else if name.local == "fill-rule"@ {
        Some(PropertyId::FillRule)
    } else if name.local == "filter"@ {
        Some(PropertyId::Filter)
    } else if name.local == "flood-color"@ {
        Some(PropertyId::FloodColor)
    } else if name.local == "flood-opacity"@ {
        Some(PropertyId::FloodOpacity)
    } else if name.local == "font-family"@ {
        Some(PropertyId::FontFamily)
    } else if name.local == "font-size"@ {
        Some(PropertyId::FontSize)
    } else if name.local == "font-stretch"@ {
        Some(PropertyId::FontStretch)
    } else if name.local == "font-style"@ {
        Some(PropertyId::FontStyle)
    } else if name.local == "font-variant"@ {
        Some(PropertyId::FontVariant)
    } else if name.local == "font-weight"@ {
        Some(PropertyId::FontWeight)
    } else if name.local == "letter-spacing"@ {
        Some(PropertyId::LetterSpacing)
    } else if name.local == "lighting-color"@ {
        Some(PropertyId::LightingColor)
    } else if name.local == "marker"@ {
        Some(PropertyId::Marker)
    } else if name.local == "marker-end"@ {
        Some(PropertyId::MarkerEnd)
    } else if name.local == "marker-mid"@ {
        Some(PropertyId::MarkerMid)
    } else if name.local == "marker-start"@ {
        Some(PropertyId::MarkerStart)
    } else if name.local == "mask"@ {
        Some(PropertyId::Mask)
    } else if name.local == "opacity"@ {
        Some(PropertyId::Opacity)
    } else if name.local == "overflow"@ {
        Some(PropertyId::Overflow)
    } else if name.local == "shape-rendering"@ {
        Some(PropertyId::ShapeRendering)
    } else if name.local == "stop-color"@ {
        Some(PropertyId::StopColor)
    } else if name.local == "stop-opacity"@ {
        Some(PropertyId::StopOpacity)
    } else if name.local == "stroke"@ {
        Some(PropertyId::Stroke)
    } else if name.local == "stroke-dasharray"@ {
        Some(PropertyId::StrokeDasharray)
    } else if name.local == "stroke-dashoffset"@ {
        Some(PropertyId::StrokeDashoffset)
    } else if name.local == "stroke-linecap"@ {
        Some(PropertyId::StrokeLinecap)
    } else if name.local == "stroke-linejoin"@ {
        Some(PropertyId::StrokeLinejoin)
    } else if name.local == "stroke-miterlimit"@ {
        Some(PropertyId::StrokeMiterlimit)
    } else if name.local == "stroke-opacity"@ {
        Some(PropertyId::StrokeOpacity)
    } else if name.local == "stroke-width"@ {
        Some(PropertyId::StrokeWidth)
    } else if name.local == "text-anchor"@ {
        Some(PropertyId::TextAnchor)
    } else if name.local == "text-decoration"@ {
        Some(PropertyId::TextDecoration)
    } else if name.local == "text-rendering"@ {
        Some(PropertyId::TextRendering)
    } else if name.local == "unicode-bidi"@ {
        Some(PropertyId::UnicodeBidi)
    } else if name.local == "visibility"@ {
        Some(PropertyId::Visibility)
    } else if name.local == "writing-mode"@ {
        Some(PropertyId::WritingMode)
    } else {
        None
    }
}

/// Looks up the property that `name` names.
pub fn property_id_of(name: &QualName) -> (r: Option<PropertyId>)
    ensures
        r == property_named(name@),
{
    match name.ns {
        Namespace::Empty => {},
        _ => {
            return None;
        },
    }
    let local: &str = name.local.as_str();
    if eq_str(local, "baseline-shift") {
        Some(PropertyId::BaselineShift)
    } else if eq_str(local, "clip-path") {
        Some(PropertyId::ClipPath)
    } else if eq_str(local, "clip-rule") {
        Some(PropertyId::ClipRule)
    } else if eq_str(local, "color") {
        Some(PropertyId::Color)
    } else if eq_str(local, "color-interpolation-filters") {
        Some(PropertyId::ColorInterpolationFilters)
    } else if eq_str(local, "direction") {
        Some(PropertyId::Direction)
    } else if eq_str(local, "display") {
        Some(PropertyId::Display)
    } else if eq_str(local, "enable-background") {
        Some(PropertyId::EnableBackground)
    } else if eq_str(local, "fill") {
        Some(PropertyId::Fill)
    } else if eq_str(local, "fill-opacity") {
        Some(PropertyId::FillOpacity)
    } else if eq_str(local, "fill-rule") {
        Some(PropertyId::FillRule)
    } else if eq_str(local, "filter") {
        Some(PropertyId::Filter)
    } else if eq_str(local, "flood-color") {
        Some(PropertyId::FloodColor)
    } else if eq_str(local, "flood-opacity") {
        Some(PropertyId::FloodOpacity)
    } else if eq_str(local, "font-family") {
        Some(PropertyId::FontFamily)
    } else if eq_str(local, "font-size") {
        Some(PropertyId::FontSize)
    } else if eq_str(local, "font-stretch") {
        Some(PropertyId::FontStretch)
    } else if eq_str(local, "font-style") {
        Some(PropertyId::FontStyle)
    } else if eq_str(local, "font-variant") {
        Some(PropertyId::FontVariant)
    } else if eq_str(local, "font-weight") {
        Some(PropertyId::FontWeight)
    } else if eq_str(local, "letter-spacing") {
        Some(PropertyId::LetterSpacing)
    } else if eq_str(local, "lighting-color") {
        Some(PropertyId::LightingColor)
    } else if eq_str(local, "marker") {
        Some(PropertyId::Marker)
    } else if eq_str(local, "marker-end") {
        Some(PropertyId::MarkerEnd)
    } else if eq_str(local, "marker-mid") {
        Some(PropertyId::MarkerMid)
    } else if eq_str(local, "marker-start") {
        Some(PropertyId::MarkerStart)
    } else if eq_str(local, "mask") {
        Some(PropertyId::Mask)
    } else if eq_str(local, "opacity") {
        Some(PropertyId::Opacity)
    } else if eq_str(local, "overflow") {
        Some(PropertyId::Overflow)
    } else if eq_str(local, "shape-rendering") {
        Some(PropertyId::ShapeRendering)
    } else if eq_str(local, "stop-color") {
        Some(PropertyId::StopColor)
    } else if eq_str(local, "stop-opacity") {
        Some(PropertyId::StopOpacity)
    } else if eq_str(local, "stroke") {
        Some(PropertyId::Stroke)
    } else if eq_str(local, "stroke-dasharray") {
        Some(PropertyId::StrokeDasharray)
    } else if eq_str(local, "stroke-dashoffset") {
        Some(PropertyId::StrokeDashoffset)
    } else if eq_str(local, "stroke-linecap") {
        Some(PropertyId::StrokeLinecap)
    } else if eq_str(local, "stroke-linejoin") {
        Some(PropertyId::StrokeLinejoin)
    } else if eq_str(local, "stroke-miterlimit") {
        Some(PropertyId::StrokeMiterlimit)
    } else if eq_str(local, "stroke-opacity") {
        Some(PropertyId::StrokeOpacity)
    } else if eq_str(local, "stroke-width") {
        Some(PropertyId::StrokeWidth)
    } else if eq_str(local, "text-anchor") {
        Some(PropertyId::TextAnchor)
    } else if eq_str(local, "text-decoration") {
        Some(PropertyId::TextDecoration)
    } else if eq_str(local, "text-rendering") {
        Some(PropertyId::TextRendering)
    } else if eq_str(local, "unicode-bidi") {
        Some(PropertyId::UnicodeBidi)
    } else if eq_str(local, "visibility") {
        Some(PropertyId::Visibility)
    } else if eq_str(local, "writing-mode") {
        Some(PropertyId::WritingMode)
    } else {
        None
    }
}

/// The declaration of the property `id` that the start of `text` gives, with
/// the text after the value. The two attributes of the `xml` namespace are
/// not written as properties are.
#[verifier::opaque]
pub open spec fn parsed_value(id: PropertyId, text: Seq<char>) -> Result<
    (ParsedPropertyView, Seq<char>),
    ValueErrorKind,
> {
    match id {
        PropertyId::BaselineShift => match parsed_input::<BaselineShift>(text) {
            Ok((v, rest)) => Ok((ParsedPropertyView::BaselineShift(v), rest)),
            Err(e) => Err(e),
        },
        PropertyId::ClipPath => match parsed_input::<ClipPath>(text) {
            Ok((v, rest)) => Ok((ParsedPropertyView::ClipPath(v), rest)),
            Err(e) => Err(e),
        },
        PropertyId::ClipRule => match parsed_input::<ClipRule>(text) {
            Ok((v, rest)) => Ok((ParsedPropertyView::ClipRule(v), rest)),
            Err(e) => Err(e),
        },
        PropertyId::Color => match parsed_input::<Color>(text) {
            Ok((v, rest)) => Ok((ParsedPropertyView::Color(v), rest)),
            Err(e) => Err(e),
        },
        PropertyId::ColorInterpolationFilters => match parsed_input::<ColorInterpolationFilters>(text) {
            Ok((v, rest)) => Ok((ParsedPropertyView::ColorInterpolationFilters(v), rest)),
            Err(e) => Err(e),
        },
        PropertyId::Direction => match parsed_input::<Direction>(text) {
            Ok((v, rest)) => Ok((ParsedPropertyView::Direction(v), rest)),
            Err(e) => Err(e),
        },
        PropertyId::Display => match parsed_input::<Display>(text) {
            Ok((v, rest)) => Ok((ParsedPropertyView::Display(v), rest)),
            Err(e) => Err(e),
        },
        PropertyId::EnableBackground => match parsed_input::<EnableBackground>(text) {
            Ok((v, rest)) => Ok((ParsedPropertyView::EnableBackground(v), rest)),
            Err(e) => Err(e),
        },
        PropertyId::Fill => match parsed_input::<Fill>(text) {
            Ok((v, rest)) => Ok((ParsedPropertyView::Fill(v), rest)),
            Err(e) => Err(e),
        },
        PropertyId::FillOpacity => match parsed_input::<FillOpacity>(text) {
            Ok((v, rest)) => Ok((ParsedPropertyView::FillOpacity(v), rest)),
            Err(e) => Err(e),
        },
        PropertyId::FillRule => match parsed_input::<FillRule>(text) {
            Ok((v, rest)) => Ok((ParsedPropertyView::FillRule(v), rest)),
            Err(e) => Err(e),
        },
        PropertyId::Filter => match parsed_input::<Filter>(text) {
            Ok((v, rest)) => Ok((ParsedPropertyView::Filter(v), rest)),
            Err(e) => Err(e),
        },
        PropertyId::FloodColor => match parsed_input::<FloodColor>(text) {
            Ok((v, rest)) => Ok((ParsedPropertyView::FloodColor(v), rest)),
            Err(e) => Err(e),
        },
        PropertyId::FloodOpacity => match parsed_input::<FloodOpacity>(text) {
            Ok((v, rest)) => Ok((ParsedPropertyView::FloodOpacity(v), rest)),
            Err(e) => Err(e),
        },
        PropertyId::FontFamily => match parsed_input::<FontFamily>(text) {
            Ok((v, rest)) => Ok((ParsedPropertyView::FontFamily(v), rest)),
            Err(e) => Err(e),
        },
        PropertyId::FontSize => match parsed_input::<FontSize>(text) {
            Ok((v, rest)) => Ok((ParsedPropertyView::FontSize(v), rest)),
            Err(e) => Err(e),
        },
        PropertyId::FontStretch => match parsed_input::<FontStretch>(text) {
            Ok((v, rest)) => Ok((ParsedPropertyView::FontStretch(v), rest)),
            Err(e) => Err(e),
        },
        PropertyId::FontStyle => match parsed_input::<FontStyle>(text) {
            Ok((v, rest)) => Ok((ParsedPropertyView::FontStyle(v), rest)),
            Err(e) => Err(e),
        },
        PropertyId::FontVariant => match parsed_input::<FontVariant>(text) {
            Ok((v, rest)) => Ok((ParsedPropertyView::FontVariant(v), rest)),
            Err(e) => Err(e),
        },
        PropertyId::FontWeight => match parsed_input::<FontWeight>(text) {
            Ok((v, rest)) => Ok((ParsedPropertyView::FontWeight(v), rest)),
            Err(e) => Err(e),
        },
        PropertyId::LetterSpacing => match parsed_input::<LetterSpacing>(text) {
            Ok((v, rest)) => Ok((ParsedPropertyView::LetterSpacing(v), rest)),
            Err(e) => Err(e),
        },
        PropertyId::LightingColor => match parsed_input::<LightingColor>(text) {
            Ok((v, rest)) => Ok((ParsedPropertyView::LightingColor(v), rest)),
            Err(e) => Err(e),
        },
        PropertyId::Marker => match parsed_input::<Marker>(text) {
            Ok((v, rest)) => Ok((ParsedPropertyView::Marker(v), rest)),
            Err(e) => Err(e),
        },
        PropertyId::MarkerEnd => match parsed_input::<MarkerEnd>(text) {
            Ok((v, rest)) => Ok((ParsedPropertyView::MarkerEnd(v), rest)),
            Err(e) => Err(e),
        },
        PropertyId::MarkerMid => match parsed_input::<MarkerMid>(text) {
            Ok((v, rest)) => Ok((ParsedPropertyView::MarkerMid(v), rest)),
            Err(e) => Err(e),
        },
        PropertyId::MarkerStart => match parsed_input::<MarkerStart>(text) {
            Ok((v, rest)) => Ok((ParsedPropertyView::MarkerStart(v), rest)),
            Err(e) => Err(e),
        },
        PropertyId::Mask => match parsed_input::<Mask>(text) {
            Ok((v, rest)) => Ok((ParsedPropertyView::Mask(v), rest)),
            Err(e) => Err(e),
        },
        PropertyId::Opacity => match parsed_input::<Opacity>(text) {
            Ok((v, rest)) => Ok((ParsedPropertyView::Opacity(v), rest)),
            Err(e) => Err(e),
        },
        PropertyId::Overflow => match parsed_input::<Overflow>(text) {
            Ok((v, rest)) => Ok((ParsedPropertyView::Overflow(v), rest)),
            Err(e) => Err(e),
        },
        PropertyId::ShapeRendering => match parsed_input::<ShapeRendering>(text) {
            Ok((v, rest)) => Ok((ParsedPropertyView::ShapeRendering(v), rest)),
            Err(e) => Err(e),
        },
        PropertyId::StopColor => match parsed_input::<StopColor>(text) {
            Ok((v, rest)) => Ok((ParsedPropertyView::StopColor(v), rest)),
            Err(e) => Err(e),
        },
        PropertyId::StopOpacity => match parsed_input::<StopOpacity>(text) {
            Ok((v, rest)) => Ok((ParsedPropertyView::StopOpacity(v), rest)),
            Err(e) => Err(e),
        },
        PropertyId::Stroke => match parsed_input::<Stroke>(text) {
            Ok((v, rest)) => Ok((ParsedPropertyView::Stroke(v), rest)),
            Err(e) => Err(e),
        },
        PropertyId::StrokeDasharray => match parsed_input::<StrokeDasharray>(text) {
            Ok((v, rest)) => Ok((ParsedPropertyView::StrokeDasharray(v), rest)),
            Err(e) => Err(e),
        },
        PropertyId::StrokeDashoffset => match parsed_input::<StrokeDashoffset>(text) {
            Ok((v, rest)) => Ok((ParsedPropertyView::StrokeDashoffset(v), rest)),
            Err(e) => Err(e),
        },
        PropertyId::StrokeLinecap => match parsed_input::<StrokeLinecap>(text) {
            Ok((v, rest)) => Ok((ParsedPropertyView::StrokeLinecap(v), rest)),
            Err(e) => Err(e),
        },
        PropertyId::StrokeLinejoin => match parsed_input::<StrokeLinejoin>(text) {
            Ok((v, rest)) => Ok((ParsedPropertyView::StrokeLinejoin(v), rest)),
            Err(e) => Err(e),
        },
        PropertyId::StrokeMiterlimit => match parsed_input::<StrokeMiterlimit>(text) {
            Ok((v, rest)) => Ok((ParsedPropertyView::StrokeMiterlimit(v), rest)),
            Err(e) => Err(e),
        },
        PropertyId::StrokeOpacity => match parsed_input::<StrokeOpacity>(text) {
            Ok((v, rest)) => Ok((ParsedPropertyView::StrokeOpacity(v), rest)),
            Err(e) => Err(e),
        },
        PropertyId::StrokeWidth => match parsed_input::<StrokeWidth>(text) {
            Ok((v, rest)) => Ok((ParsedPropertyView::StrokeWidth(v), rest)),
            Err(e) => Err(e),
        },
        PropertyId::TextAnchor => match parsed_input::<TextAnchor>(text) {
            Ok((v, rest)) => Ok((ParsedPropertyView::TextAnchor(v), rest)),
            Err(e) => Err(e),
        },
        PropertyId::TextDecoration => match parsed_input::<TextDecoration>(text) {
            Ok((v, rest)) => Ok((ParsedPropertyView::TextDecoration(v), rest)),
            Err(e) => Err(e),
        },
        PropertyId::TextRendering => match parsed_input::<TextRendering>(text) {
            Ok((v, rest)) => Ok((ParsedPropertyView::TextRendering(v), rest)),
            Err(e) => Err(e),
        },
        PropertyId::UnicodeBidi => match parsed_input::<UnicodeBidi>(text) {
            Ok((v, rest)) => Ok((ParsedPropertyView::UnicodeBidi(v), rest)),
            Err(e) => Err(e),
        },
        PropertyId::Visibility => match parsed_input::<Visibility>(text) {
            Ok((v, rest)) => Ok((ParsedPropertyView::Visibility(v), rest)),
            Err(e) => Err(e),
        },
        PropertyId::WritingMode => match parsed_input::<WritingMode>(text) {
            Ok((v, rest)) => Ok((ParsedPropertyView::WritingMode(v), rest)),
            Err(e) => Err(e),
        },
        PropertyId::XmlLang | PropertyId::XmlSpace | PropertyId::UnsetProperty => Err(
            ValueErrorKind::UnknownProperty,
        ),
    }
}

fn declare_baseline_shift<'a>(input: &'a str) -> (r: Result<(ParsedProperty, &'a str), ValueErrorKind>)
    ensures
        read_view(r) == parsed_value(PropertyId::BaselineShift, input@),
        r matches Ok((_, rest)) ==> rest@.len() < input@.len(),
        r matches Err(e) ==> !(e is UnknownProperty),
{
    reveal(parsed_value);
    match parse_input::<BaselineShift>(input) {
        Ok((v, rest)) => Ok((ParsedProperty::BaselineShift(v), rest)),
        Err(e) => Err(e),
    }
}

fn declare_clip_path<'a>(input: &'a str) -> (r: Result<(ParsedProperty, &'a str), ValueErrorKind>)
    ensures
        read_view(r) == parsed_value(PropertyId::ClipPath, input@),
        r matches Ok((_, rest)) ==> rest@.len() < input@.len(),
        r matches Err(e) ==> !(e is UnknownProperty),
{
    reveal(parsed_value);
    match parse_input::<ClipPath>(input) {
        Ok((v, rest)) => Ok((ParsedProperty::ClipPath(v), rest)),
        Err(e) => Err(e),
    }
}

fn declare_clip_rule<'a>(input: &'a str) -> (r: Result<(ParsedProperty, &'a str), ValueErrorKind>)
    ensures
        read_view(r) == parsed_value(PropertyId::ClipRule, input@),
        r matches Ok((_, rest)) ==> rest@.len() < input@.len(),
        r matches Err(e) ==> !(e is UnknownProperty),
{
    reveal(parsed_value);
    match parse_input::<ClipRule>(input) {
        Ok((v, rest)) => Ok((ParsedProperty::ClipRule(v), rest)),
        Err(e) => Err(e),
    }
}

fn declare_color<'a>(input: &'a str) -> (r: Result<(ParsedProperty, &'a str), ValueErrorKind>)
    ensures
        read_view(r) == parsed_value(PropertyId::Color, input@),
        r matches Ok((_, rest)) ==> rest@.len() < input@.len(),
        r matches Err(e) ==> !(e is UnknownProperty),
{
    reveal(parsed_value);
    match parse_input::<Color>(input) {
        Ok((v, rest)) => Ok((ParsedProperty::Color(v), rest)),
        Err(e) => Err(e),
    }
}

fn declare_color_interpolation_filters<'a>(input: &'a str) -> (r: Result<(ParsedProperty, &'a str), ValueErrorKind>)
    ensures
        read_view(r) == parsed_value(PropertyId::ColorInterpolationFilters, input@),
        r matches Ok((_, rest)) ==> rest@.len() < input@.len(),
        r matches Err(e) ==> !(e is UnknownProperty),
{
    reveal(parsed_value);
    match parse_input::<ColorInterpolationFilters>(input) {
        Ok((v, rest)) => Ok((ParsedProperty::ColorInterpolationFilters(v), rest)),
        Err(e) => Err(e),
    }
}

fn declare_direction<'a>(input: &'a str) -> (r: Result<(ParsedProperty, &'a str), ValueErrorKind>)
    ensures
        read_view(r) == parsed_value(PropertyId::Direction, input@),
        r matches Ok((_, rest)) ==> rest@.len() < input@.len(),
        r matches Err(e) ==> !(e is UnknownProperty),
{
    reveal(parsed_value);
    match parse_input::<Direction>(input) {
        Ok((v, rest)) => Ok((ParsedProperty::Direction(v), rest)),
        Err(e) => Err(e),
    }
}

fn declare_display<'a>(input: &'a str) -> (r: Result<(ParsedProperty, &'a str), ValueErrorKind>)
    ensures
        read_view(r) == parsed_value(PropertyId::Display, input@),
        r matches Ok((_, rest)) ==> rest@.len() < input@.len(),
        r matches Err(e) ==> !(e is UnknownProperty),
{
    reveal(parsed_value);
    match parse_input::<Display>(input) {
        Ok((v, rest)) => Ok((ParsedProperty::Display(v), rest)),
        Err(e) => Err(e),
    }
}

fn declare_enable_background<'a>(input: &'a str) -> (r: Result<(ParsedProperty, &'a str), ValueErrorKind>)
    ensures
        read_view(r) == parsed_value(PropertyId::EnableBackground, input@),
        r matches Ok((_, rest)) ==> rest@.len() < input@.len(),
        r matches Err(e) ==> !(e is UnknownProperty),
{
    reveal(parsed_value);
    match parse_input::<EnableBackground>(input) {
        Ok((v, rest)) => Ok((ParsedProperty::EnableBackground(v), rest)),
        Err(e) => Err(e),
    }
}

fn declare_fill<'a>(input: &'a str) -> (r: Result<(ParsedProperty, &'a str), ValueErrorKind>)
    ensures
        read_view(r) == parsed_value(PropertyId::Fill, input@),
        r matches Ok((_, rest)) ==> rest@.len() < input@.len(),
        r matches Err(e) ==> !(e is UnknownProperty),
{
    reveal(parsed_value);
    match parse_input::<Fill>(input) {
        Ok((v, rest)) => Ok((ParsedProperty::Fill(v), rest)),
        Err(e) => Err(e),
    }
}

fn declare_fill_opacity<'a>(input: &'a str) -> (r: Result<(ParsedProperty, &'a str), ValueErrorKind>)
    ensures
        read_view(r) == parsed_value(PropertyId::FillOpacity, input@),
        r matches Ok((_, rest)) ==> rest@.len() < input@.len(),
        r matches Err(e) ==> !(e is UnknownProperty),
{
    reveal(parsed_value);
    match parse_input::<FillOpacity>(input) {
        Ok((v, rest)) => Ok((ParsedProperty::FillOpacity(v), rest)),
        Err(e) => Err(e),
    }
}

fn declare_fill_rule<'a>(input: &'a str) -> (r: Result<(ParsedProperty, &'a str), ValueErrorKind>)
    ensures
        read_view(r) == parsed_value(PropertyId::FillRule, input@),
        r matches Ok((_, rest)) ==> rest@.len() < input@.len(),
        r matches Err(e) ==> !(e is UnknownProperty),
{
    reveal(parsed_value);
    match parse_input::<FillRule>(input) {
        Ok((v, rest)) => Ok((ParsedProperty::FillRule(v), rest)),
        Err(e) => Err(e),
    }
}

fn declare_filter<'a>(input: &'a str) -> (r: Result<(ParsedProperty, &'a str), ValueErrorKind>)
    ensures
        read_view(r) == parsed_value(PropertyId::Filter, input@),
        r matches Ok((_, rest)) ==> rest@.len() < input@.len(),
        r matches Err(e) ==> !(e is UnknownProperty),
{
    reveal(parsed_value);
    match parse_input::<Filter>(input) {
        Ok((v, rest)) => Ok((ParsedProperty::Filter(v), rest)),
        Err(e) => Err(e),
    }
}

fn declare_flood_color<'a>(input: &'a str) -> (r: Result<(ParsedProperty, &'a str), ValueErrorKind>)
    ensures
        read_view(r) == parsed_value(PropertyId::FloodColor, input@),
        r matches Ok((_, rest)) ==> rest@.len() < input@.len(),
        r matches Err(e) ==> !(e is UnknownProperty),
{
    reveal(parsed_value);
    match parse_input::<FloodColor>(input) {
        Ok((v, rest)) => Ok((ParsedProperty::FloodColor(v), rest)),
        Err(e) => Err(e),
    }
}

fn declare_flood_opacity<'a>(input: &'a str) -> (r: Result<(ParsedProperty, &'a str), ValueErrorKind>)
    ensures
        read_view(r) == parsed_value(PropertyId::FloodOpacity, input@),
        r matches Ok((_, rest)) ==> rest@.len() < input@.len(),
        r matches Err(e) ==> !(e is UnknownProperty),
{
    reveal(parsed_value);
    match parse_input::<FloodOpacity>(input) {
        Ok((v, rest)) => Ok((ParsedProperty::FloodOpacity(v), rest)),
        Err(e) => Err(e),
    }
}

fn declare_font_family<'a>(input: &'a str) -> (r: Result<(ParsedProperty, &'a str), ValueErrorKind>)
    ensures
        read_view(r) == parsed_value(PropertyId::FontFamily, input@),
        r matches Ok((_, rest)) ==> rest@.len() < input@.len(),
        r matches Err(e) ==> !(e is UnknownProperty),
{
    reveal(parsed_value);
    match parse_input::<FontFamily>(input) {
        Ok((v, rest)) => Ok((ParsedProperty::FontFamily(v), rest)),
        Err(e) => Err(e),
    }
}

fn declare_font_size<'a>(input: &'a str) -> (r: Result<(ParsedProperty, &'a str), ValueErrorKind>)
    ensures
        read_view(r) == parsed_value(PropertyId::FontSize, input@),
        r matches Ok((_, rest)) ==> rest@.len() < input@.len(),
        r matches Err(e) ==> !(e is UnknownProperty),
{
    reveal(parsed_value);
    match parse_input::<FontSize>(input) {
        Ok((v, rest)) => Ok((ParsedProperty::FontSize(v), rest)),
        Err(e) => Err(e),
    }
}

fn declare_font_stretch<'a>(input: &'a str) -> (r: Result<(ParsedProperty, &'a str), ValueErrorKind>)
    ensures
        read_view(r) == parsed_value(PropertyId::FontStretch, input@),
        r matches Ok((_, rest)) ==> rest@.len() < input@.len(),
        r matches Err(e) ==> !(e is UnknownProperty),
{
    reveal(parsed_value);
    match parse_input::<FontStretch>(input) {
        Ok((v, rest)) => Ok((ParsedProperty::FontStretch(v), rest)),
        Err(e) => Err(e),
    }
}

fn declare_font_style<'a>(input: &'a str) -> (r: Result<(ParsedProperty, &'a str), ValueErrorKind>)
    ensures
        read_view(r) == parsed_value(PropertyId::FontStyle, input@),
        r matches Ok((_, rest)) ==> rest@.len() < input@.len(),
        r matches Err(e) ==> !(e is UnknownProperty),
{
    reveal(parsed_value);
    match parse_input::<FontStyle>(input) {
        Ok((v, rest)) => Ok((ParsedProperty::FontStyle(v), rest)),
        Err(e) => Err(e),
    }
}

fn declare_font_variant<'a>(input: &'a str) -> (r: Result<(ParsedProperty, &'a str), ValueErrorKind>)
    ensures
        read_view(r) == parsed_value(PropertyId::FontVariant, input@),
        r matches Ok((_, rest)) ==> rest@.len() < input@.len(),
        r matches Err(e) ==> !(e is UnknownProperty),
{
    reveal(parsed_value);
    match parse_input::<FontVariant>(input) {
        Ok((v, rest)) => Ok((ParsedProperty::FontVariant(v), rest)),
        Err(e) => Err(e),
    }
}

fn declare_font_weight<'a>(input: &'a str) -> (r: Result<(ParsedProperty, &'a str), ValueErrorKind>)
    ensures
        read_view(r) == parsed_value(PropertyId::FontWeight, input@),
        r matches Ok((_, rest)) ==> rest@.len() < input@.len(),
        r matches Err(e) ==> !(e is UnknownProperty),
{
    reveal(parsed_value);
    match parse_input::<FontWeight>(input) {
        Ok((v, rest)) => Ok((ParsedProperty::FontWeight(v), rest)),
        Err(e) => Err(e),
    }
}

fn declare_letter_spacing<'a>(input: &'a str) -> (r: Result<(ParsedProperty, &'a str), ValueErrorKind>)
    ensures
        read_view(r) == parsed_value(PropertyId::LetterSpacing, input@),
        r matches Ok((_, rest)) ==> rest@.len() < input@.len(),
        r matches Err(e) ==> !(e is UnknownProperty),
{
    reveal(parsed_value);
    match parse_input::<LetterSpacing>(input) {
        Ok((v, rest)) => Ok((ParsedProperty::LetterSpacing(v), rest)),
        Err(e) => Err(e),
    }
}

fn declare_lighting_color<'a>(input: &'a str) -> (r: Result<(ParsedProperty, &'a str), ValueErrorKind>)
    ensures
        read_view(r) == parsed_value(PropertyId::LightingColor, input@),
        r matches Ok((_, rest)) ==> rest@.len() < input@.len(),
        r matches Err(e) ==> !(e is UnknownProperty),
{
    reveal(parsed_value);
    match parse_input::<LightingColor>(input) {
        Ok((v, rest)) => Ok((ParsedProperty::LightingColor(v), rest)),
        Err(e) => Err(e),
    }
}

fn declare_marker<'a>(input: &'a str) -> (r: Result<(ParsedProperty, &'a str), ValueErrorKind>)
    ensures
        read_view(r) == parsed_value(PropertyId::Marker, input@),
        r matches Ok((_, rest)) ==> rest@.len() < input@.len(),
        r matches Err(e) ==> !(e is UnknownProperty),
{
    reveal(parsed_value);
    match parse_input::<Marker>(input) {
        Ok((v, rest)) => Ok((ParsedProperty::Marker(v), rest)),
        Err(e) => Err(e),
    }
}

fn declare_marker_end<'a>(input: &'a str) -> (r: Result<(ParsedProperty, &'a str), ValueErrorKind>)
    ensures
        read_view(r) == parsed_value(PropertyId::MarkerEnd, input@),
        r matches Ok((_, rest)) ==> rest@.len() < input@.len(),
        r matches Err(e) ==> !(e is UnknownProperty),
{
    reveal(parsed_value);
    match parse_input::<MarkerEnd>(input) {
        Ok((v, rest)) => Ok((ParsedProperty::MarkerEnd(v), rest)),
        Err(e) => Err(e),
    }
}

fn declare_marker_mid<'a>(input: &'a str) -> (r: Result<(ParsedProperty, &'a str), ValueErrorKind>)
    ensures
        read_view(r) == parsed_value(PropertyId::MarkerMid, input@),
        r matches Ok((_, rest)) ==> rest@.len() < input@.len(),
        r matches Err(e) ==> !(e is UnknownProperty),
{
    reveal(parsed_value);
    match parse_input::<MarkerMid>(input) {
        Ok((v, rest)) => Ok((ParsedProperty::MarkerMid(v), rest)),
        Err(e) => Err(e),
    }
}

fn declare_marker_start<'a>(input: &'a str) -> (r: Result<(ParsedProperty, &'a str), ValueErrorKind>)
    ensures
        read_view(r) == parsed_value(PropertyId::MarkerStart, input@),
        r matches Ok((_, rest)) ==> rest@.len() < input@.len(),
        r matches Err(e) ==> !(e is UnknownProperty),
{
    reveal(parsed_value);
    match parse_input::<MarkerStart>(input) {
        Ok((v, rest)) => Ok((ParsedProperty::MarkerStart(v), rest)),
        Err(e) => Err(e),
    }
}

fn declare_mask<'a>(input: &'a str) -> (r: Result<(ParsedProperty, &'a str), ValueErrorKind>)
    ensures
        read_view(r) == parsed_value(PropertyId::Mask, input@),
        r matches Ok((_, rest)) ==> rest@.len() < input@.len(),
        r matches Err(e) ==> !(e is UnknownProperty),
{
    reveal(parsed_value);
    match parse_input::<Mask>(input) {
        Ok((v, rest)) => Ok((ParsedProperty::Mask(v), rest)),
        Err(e) => Err(e),
    }
}

fn declare_opacity<'a>(input: &'a str) -> (r: Result<(ParsedProperty, &'a str), ValueErrorKind>)
    ensures
        read_view(r) == parsed_value(PropertyId::Opacity, input@),
        r matches Ok((_, rest)) ==> rest@.len() < input@.len(),
        r matches Err(e) ==> !(e is UnknownProperty),
{
    reveal(parsed_value);
    match parse_input::<Opacity>(input) {
        Ok((v, rest)) => Ok((ParsedProperty::Opacity(v), rest)),
        Err(e) => Err(e),
    }
}

fn declare_overflow<'a>(input: &'a str) -> (r: Result<(ParsedProperty, &'a str), ValueErrorKind>)
    ensures
        read_view(r) == parsed_value(PropertyId::Overflow, input@),
        r matches Ok((_, rest)) ==> rest@.len() < input@.len(),
        r matches Err(e) ==> !(e is UnknownProperty),
{
    reveal(parsed_value);
    match parse_input::<Overflow>(input) {
        Ok((v, rest)) => Ok((ParsedProperty::Overflow(v), rest)),
        Err(e) => Err(e),
    }
}

fn declare_shape_rendering<'a>(input: &'a str) -> (r: Result<(ParsedProperty, &'a str), ValueErrorKind>)
    ensures
        read_view(r) == parsed_value(PropertyId::ShapeRendering, input@),
        r matches Ok((_, rest)) ==> rest@.len() < input@.len(),
        r matches Err(e) ==> !(e is UnknownProperty),
{
    reveal(parsed_value);
    match parse_input::<ShapeRendering>(input) {
        Ok((v, rest)) => Ok((ParsedProperty::ShapeRendering(v), rest)),
        Err(e) => Err(e),
    }
}

fn declare_stop_color<'a>(input: &'a str) -> (r: Result<(ParsedProperty, &'a str), ValueErrorKind>)
    ensures
        read_view(r) == parsed_value(PropertyId::StopColor, input@),
        r matches Ok((_, rest)) ==> rest@.len() < input@.len(),
        r matches Err(e) ==> !(e is UnknownProperty),
{
    reveal(parsed_value);
    match parse_input::<StopColor>(input) {
        Ok((v, rest)) => Ok((ParsedProperty::StopColor(v), rest)),
        Err(e) => Err(e),
    }
}

fn declare_stop_opacity<'a>(input: &'a str) -> (r: Result<(ParsedProperty, &'a str), ValueErrorKind>)
    ensures
        read_view(r) == parsed_value(PropertyId::StopOpacity, input@),
        r matches Ok((_, rest)) ==> rest@.len() < input@.len(),
        r matches Err(e) ==> !(e is UnknownProperty),
{
    reveal(parsed_value);
    match parse_input::<StopOpacity>(input) {
        Ok((v, rest)) => Ok((ParsedProperty::StopOpacity(v), rest)),
        Err(e) => Err(e),
    }
}

fn declare_stroke<'a>(input: &'a str) -> (r: Result<(ParsedProperty, &'a str), ValueErrorKind>)
    ensures
        read_view(r) == parsed_value(PropertyId::Stroke, input@),
        r matches Ok((_, rest)) ==> rest@.len() < input@.len(),
        r matches Err(e) ==> !(e is UnknownProperty),
{
    reveal(parsed_value);
    match parse_input::<Stroke>(input) {
        Ok((v, rest)) => Ok((ParsedProperty::Stroke(v), rest)),
        Err(e) => Err(e),
    }
}

fn declare_stroke_dasharray<'a>(input: &'a str) -> (r: Result<(ParsedProperty, &'a str), ValueErrorKind>)
    ensures
        read_view(r) == parsed_value(PropertyId::StrokeDasharray, input@),
        r matches Ok((_, rest)) ==> rest@.len() < input@.len(),
        r matches Err(e) ==> !(e is UnknownProperty),
{
    reveal(parsed_value);
    match parse_input::<StrokeDasharray>(input) {
        Ok((v, rest)) => Ok((ParsedProperty::StrokeDasharray(v), rest)),
        Err(e) => Err(e),
    }
}

fn declare_stroke_dashoffset<'a>(input: &'a str) -> (r: Result<(ParsedProperty, &'a str), ValueErrorKind>)
    ensures
        read_view(r) == parsed_value(PropertyId::StrokeDashoffset, input@),
        r matches Ok((_, rest)) ==> rest@.len() < input@.len(),
        r matches Err(e) ==> !(e is UnknownProperty),
{
    reveal(parsed_value);
    match parse_input::<StrokeDashoffset>(input) {
        Ok((v, rest)) => Ok((ParsedProperty::StrokeDashoffset(v), rest)),
        Err(e) => Err(e),
    }
}

fn declare_stroke_line_cap<'a>(input: &'a str) -> (r: Result<(ParsedProperty, &'a str), ValueErrorKind>)
    ensures
        read_view(r) == parsed_value(PropertyId::StrokeLinecap, input@),
        r matches Ok((_, rest)) ==> rest@.len() < input@.len(),
        r matches Err(e) ==> !(e is UnknownProperty),
{
    reveal(parsed_value);
    match parse_input::<StrokeLinecap>(input) {
        Ok((v, rest)) => Ok((ParsedProperty::StrokeLinecap(v), rest)),
        Err(e) => Err(e),
    }
}

fn declare_stroke_line_join<'a>(input: &'a str) -> (r: Result<(ParsedProperty, &'a str), ValueErrorKind>)
    ensures
        read_view(r) == parsed_value(PropertyId::StrokeLinejoin, input@),
        r matches Ok((_, rest)) ==> rest@.len() < input@.len(),
        r matches Err(e) ==> !(e is UnknownProperty),
{
    reveal(parsed_value);
    match parse_input::<StrokeLinejoin>(input) {
        Ok((v, rest)) => Ok((ParsedProperty::StrokeLinejoin(v), rest)),
        Err(e) => Err(e),
    }
}

fn declare_stroke_miterlimit<'a>(input: &'a str) -> (r: Result<(ParsedProperty, &'a str), ValueErrorKind>)
    ensures
        read_view(r) == parsed_value(PropertyId::StrokeMiterlimit, input@),
        r matches Ok((_, rest)) ==> rest@.len() < input@.len(),
        r matches Err(e) ==> !(e is UnknownProperty),
{
    reveal(parsed_value);
    match parse_input::<StrokeMiterlimit>(input) {
        Ok((v, rest)) => Ok((ParsedProperty::StrokeMiterlimit(v), rest)),
        Err(e) => Err(e),
    }
}

fn declare_stroke_opacity<'a>(input: &'a str) -> (r: Result<(ParsedProperty, &'a str), ValueErrorKind>)
    ensures
        read_view(r) == parsed_value(PropertyId::StrokeOpacity, input@),
        r matches Ok((_, rest)) ==> rest@.len() < input@.len(),
        r matches Err(e) ==> !(e is UnknownProperty),
{
    reveal(parsed_value);
    match parse_input::<StrokeOpacity>(input) {
        Ok((v, rest)) => Ok((ParsedProperty::StrokeOpacity(v), rest)),
        Err(e) => Err(e),
    }
}

fn declare_stroke_width<'a>(input: &'a str) -> (r: Result<(ParsedProperty, &'a str), ValueErrorKind>)
    ensures
        read_view(r) == parsed_value(PropertyId::StrokeWidth, input@),
        r matches Ok((_, rest)) ==> rest@.len() < input@.len(),
        r matches Err(e) ==> !(e is UnknownProperty),
{
    reveal(parsed_value);
    match parse_input::<StrokeWidth>(input) {
        Ok((v, rest)) => Ok((ParsedProperty::StrokeWidth(v), rest)),
        Err(e) => Err(e),
    }
}

fn declare_text_anchor<'a>(input: &'a str) -> (r: Result<(ParsedProperty, &'a str), ValueErrorKind>)
    ensures
        read_view(r) == parsed_value(PropertyId::TextAnchor, input@),
        r matches Ok((_, rest)) ==> rest@.len() < input@.len(),
        r matches Err(e) ==> !(e is UnknownProperty),
{
    reveal(parsed_value);
    match parse_input::<TextAnchor>(input) {
        Ok((v, rest)) => Ok((ParsedProperty::TextAnchor(v), rest)),
        Err(e) => Err(e),
    }
}

fn declare_text_decoration<'a>(input: &'a str) -> (r: Result<(ParsedProperty, &'a str), ValueErrorKind>)
    ensures
        read_view(r) == parsed_value(PropertyId::TextDecoration, input@),
        r matches Ok((_, rest)) ==> rest@.len() < input@.len(),
        r matches Err(e) ==> !(e is UnknownProperty),
{
    reveal(parsed_value);
    match parse_input::<TextDecoration>(input) {
        Ok((v, rest)) => Ok((ParsedProperty::TextDecoration(v), rest)),
        Err(e) => Err(e),
    }
}

fn declare_text_rendering<'a>(input: &'a str) -> (r: Result<(ParsedProperty, &'a str), ValueErrorKind>)
    ensures
        read_view(r) == parsed_value(PropertyId::TextRendering, input@),
        r matches Ok((_, rest)) ==> rest@.len() < input@.len(),
        r matches Err(e) ==> !(e is UnknownProperty),
{
    reveal(parsed_value);
    match parse_input::<TextRendering>(input) {
        Ok((v, rest)) => Ok((ParsedProperty::TextRendering(v), rest)),
        Err(e) => Err(e),
    }
}

fn declare_unicode_bidi<'a>(input: &'a str) -> (r: Result<(ParsedProperty, &'a str), ValueErrorKind>)
    ensures
        read_view(r) == parsed_value(PropertyId::UnicodeBidi, input@),
        r matches Ok((_, rest)) ==> rest@.len() < input@.len(),
        r matches Err(e) ==> !(e is UnknownProperty),
{
    reveal(parsed_value);
    match parse_input::<UnicodeBidi>(input) {
        Ok((v, rest)) => Ok((ParsedProperty::UnicodeBidi(v), rest)),
        Err(e) => Err(e),
    }
}

fn declare_visibility<'a>(input: &'a str) -> (r: Result<(ParsedProperty, &'a str), ValueErrorKind>)
    ensures
        read_view(r) == parsed_value(PropertyId::Visibility, input@),
        r matches Ok((_, rest)) ==> rest@.len() < input@.len(),
        r matches Err(e) ==> !(e is UnknownProperty),
{
    reveal(parsed_value);
    match parse_input::<Visibility>(input) {
        Ok((v, rest)) => Ok((ParsedProperty::Visibility(v), rest)),
        Err(e) => Err(e),
    }
}

fn declare_writing_mode<'a>(input: &'a str) -> (r: Result<(ParsedProperty, &'a str), ValueErrorKind>)
    ensures
        read_view(r) == parsed_value(PropertyId::WritingMode, input@),
        r matches Ok((_, rest)) ==> rest@.len() < input@.len(),
        r matches Err(e) ==> !(e is UnknownProperty),
{
    reveal(parsed_value);
    match parse_input::<WritingMode>(input) {
        Ok((v, rest)) => Ok((ParsedProperty::WritingMode(v), rest)),
        Err(e) => Err(e),
    }
}

/// Whether the property `id` is one whose values are written as those of
/// properties are: any but the two attributes of the `xml` namespace and
/// the identity of no property.
pub open spec fn is_written(id: PropertyId) -> bool {
    !(id is XmlLang) && !(id is XmlSpace) && !(id is UnsetProperty)
}

/// Reads the value of the property `id` from the start of `input`. A text
/// that holds no value of such a property is never reported as an unknown
/// property.
pub fn parse_value<'a>(id: PropertyId, input: &'a str) -> (r: Result<
    (ParsedProperty, &'a str),
    ValueErrorKind,
>)
    ensures
        read_view(r) == parsed_value(id, input@),
        r matches Ok((_, rest)) ==> rest@.len() < input@.len(),
        is_written(id) ==> !(r matches Err(e) && e is UnknownProperty),
{
    match id {
        PropertyId::BaselineShift => declare_baseline_shift(input),
        PropertyId::ClipPath => declare_clip_path(input),
        PropertyId::ClipRule => declare_clip_rule(input),
        PropertyId::Color => declare_color(input),
        PropertyId::ColorInterpolationFilters => declare_color_interpolation_filters(input),
        PropertyId::Direction => declare_direction(input),
        PropertyId::Display => declare_display(input),
        PropertyId::EnableBackground => declare_enable_background(input),
        PropertyId::Fill => declare_fill(input),
        PropertyId::FillOpacity => declare_fill_opacity(input),
        PropertyId::FillRule => declare_fill_rule(input),
        PropertyId::Filter => declare_filter(input),
        PropertyId::FloodColor => declare_flood_color(input),
        PropertyId::FloodOpacity => declare_flood_opacity(input),
        PropertyId::FontFamily => declare_font_family(input),
        PropertyId::FontSize => declare_font_size(input),
        PropertyId::FontStretch => declare_font_stretch(input),
        PropertyId::FontStyle => declare_font_style(input),
        PropertyId::FontVariant => declare_font_variant(input),
        PropertyId::FontWeight => declare_font_weight(input),
        PropertyId::LetterSpacing => declare_letter_spacing(input),
        PropertyId::LightingColor => declare_lighting_color(input),
        PropertyId::Marker => declare_marker(input),
        PropertyId::MarkerEnd => declare_marker_end(input),
        PropertyId::MarkerMid => declare_marker_mid(input),
        PropertyId::MarkerStart => declare_marker_start(input),
        PropertyId::Mask => declare_mask(input),
        PropertyId::Opacity => declare_opacity(input),
        PropertyId::Overflow => declare_overflow(input),
        PropertyId::ShapeRendering => declare_shape_rendering(input),
        PropertyId::StopColor => declare_stop_color(input),
        PropertyId::StopOpacity => declare_stop_opacity(input),
        PropertyId::Stroke => declare_stroke(input),
        PropertyId::StrokeDasharray => declare_stroke_dasharray(input),
        PropertyId::StrokeDashoffset => declare_stroke_dashoffset(input),
        PropertyId::StrokeLinecap => declare_stroke_line_cap(input),
        PropertyId::StrokeLinejoin => declare_stroke_line_join(input),
        PropertyId::StrokeMiterlimit => declare_stroke_miterlimit(input),
        PropertyId::StrokeOpacity => declare_stroke_opacity(input),
        PropertyId::StrokeWidth => declare_stroke_width(input),
        PropertyId::TextAnchor => declare_text_anchor(input),
        PropertyId::TextDecoration => declare_text_decoration(input),
        PropertyId::TextRendering => declare_text_rendering(input),
        PropertyId::UnicodeBidi => declare_unicode_bidi(input),
        PropertyId::Visibility => declare_visibility(input),
        PropertyId::WritingMode => declare_writing_mode(input),
        PropertyId::XmlLang | PropertyId::XmlSpace | PropertyId::UnsetProperty => {
            reveal(parsed_value);
            Err(ValueErrorKind::UnknownProperty)
        },
    }
}

/// The declaration that the name of a property and the start of `text` give,
/// with the text after the value. The shorthand `marker` is a property only
/// where `accept_shorthands` holds.
pub open spec fn parsed_property(name: QualNameView, text: Seq<char>, accept_shorthands: bool) -> Result<
    (ParsedPropertyView, Seq<char>),
    ValueErrorKind,
> {
    match property_named(name) {
        Some(id) => if id is Marker && !accept_shorthands {
            Err(ValueErrorKind::UnknownProperty)
        } else {
            parsed_value(id, text)
        },
        None => Err(ValueErrorKind::UnknownProperty),
    }
}

/// Whether `name` names a property that can be declared: any property, but
/// the shorthand only where `accept_shorthands` holds.
pub open spec fn names_property(name: QualNameView, accept_shorthands: bool) -> bool {
    property_named(name) matches Some(id) && (accept_shorthands || !(id is Marker))
}

/// Every name of a property is that of one whose values are written as
/// those of properties are.
pub proof fn lemma_named_is_written(name: QualNameView)
    ensures
        property_named(name) matches Some(id) ==> is_written(id),
{
}

/// Reads the value of the property `prop_name` from the start of `input`, and
/// returns the declaration with the text that follows the value. The name
/// is reported as that of an unknown property if and only if it names no
/// property that can be declared: a value that is not one of its property
/// is reported otherwise.
pub fn parse_property<'a>(prop_name: &QualName, input: &'a str, accept_shorthands: bool) -> (r: Result<
    (ParsedProperty, &'a str),
    ValueErrorKind,
>)
    ensures
        read_view(r) == parsed_property(prop_name@, input@, accept_shorthands),
        r matches Ok((_, rest)) ==> rest@.len() < input@.len(),
        names_property(prop_name@, accept_shorthands) <==> !(r matches Err(e)
            && e is UnknownProperty),
{
    proof {
        lemma_named_is_written(prop_name@);
    }
    match property_id_of(prop_name) {
        Some(PropertyId::Marker) => {
            if accept_shorthands {
                parse_value(PropertyId::Marker, input)
            } else {
                Err(ValueErrorKind::UnknownProperty)
            }
        },
        Some(id) => parse_value(id, input),
        None => Err(ValueErrorKind::UnknownProperty),
    }
}

} // verus!
