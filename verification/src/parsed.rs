//! A declaration of one property: which property, and the declared value.

use crate::computed::{ComputedValues, ComputedValuesView};
use crate::dasharray::DasharrayView;
use crate::iri::IriView;
use crate::paint_server::PaintServerView;
use crate::property::{computed_value, Property, SpecifiedValue};
use crate::property_defs::{
    BaselineShift, ClipPath, ClipRule, Color, ColorInterpolationFilters, Direction, Display,
    EnableBackground, Fill, FillOpacity, FillRule, Filter, FloodColor, FloodOpacity, FontFamily,
    FontSize, FontStretch, FontStyle, FontVariant, FontWeight, LetterSpacing, LightingColor, Marker,
    MarkerEnd, MarkerMid, MarkerStart, Mask, Opacity, Overflow, ShapeRendering, StopColor,
    StopOpacity, Stroke, StrokeDasharray, StrokeDashoffset, StrokeLinecap, StrokeLinejoin,
    StrokeMiterlimit, StrokeOpacity, StrokeWidth, TextAnchor, TextDecoration, TextRendering,
    UnicodeBidi, Visibility, WritingMode, XmlLang, XmlSpace,
};
use crate::property_id::PropertyId;
use vstd::prelude::*;

verus! {

/// Embodies "which property is this" plus the property's declared value.
#[derive(Clone, Debug, PartialEq, Eq)]
pub enum ParsedProperty {
    BaselineShift(SpecifiedValue<BaselineShift>),
    ClipPath(SpecifiedValue<ClipPath>),
    ClipRule(SpecifiedValue<ClipRule>),
    Color(SpecifiedValue<Color>),
    ColorInterpolationFilters(SpecifiedValue<ColorInterpolationFilters>),
    Direction(SpecifiedValue<Direction>),
    Display(SpecifiedValue<Display>),
    EnableBackground(SpecifiedValue<EnableBackground>),
    Fill(SpecifiedValue<Fill>),
    FillOpacity(SpecifiedValue<FillOpacity>),
    FillRule(SpecifiedValue<FillRule>),
    Filter(SpecifiedValue<Filter>),
    FloodColor(SpecifiedValue<FloodColor>),
    FloodOpacity(SpecifiedValue<FloodOpacity>),
    FontFamily(SpecifiedValue<FontFamily>),
    FontSize(SpecifiedValue<FontSize>),
    FontStretch(SpecifiedValue<FontStretch>),
    FontStyle(SpecifiedValue<FontStyle>),
    FontVariant(SpecifiedValue<FontVariant>),
    FontWeight(SpecifiedValue<FontWeight>),
    LetterSpacing(SpecifiedValue<LetterSpacing>),
    LightingColor(SpecifiedValue<LightingColor>),
    Marker(SpecifiedValue<Marker>),
    MarkerEnd(SpecifiedValue<MarkerEnd>),
    MarkerMid(SpecifiedValue<MarkerMid>),
    MarkerStart(SpecifiedValue<MarkerStart>),
    Mask(SpecifiedValue<Mask>),
    Opacity(SpecifiedValue<Opacity>),
    Overflow(SpecifiedValue<Overflow>),
    ShapeRendering(SpecifiedValue<ShapeRendering>),
    StopColor(SpecifiedValue<StopColor>),
    StopOpacity(SpecifiedValue<StopOpacity>),
    Stroke(SpecifiedValue<Stroke>),
    StrokeDasharray(SpecifiedValue<StrokeDasharray>),
    StrokeDashoffset(SpecifiedValue<StrokeDashoffset>),
    StrokeLinecap(SpecifiedValue<StrokeLinecap>),
    StrokeLinejoin(SpecifiedValue<StrokeLinejoin>),
    StrokeOpacity(SpecifiedValue<StrokeOpacity>),
    StrokeMiterlimit(SpecifiedValue<StrokeMiterlimit>),
    StrokeWidth(SpecifiedValue<StrokeWidth>),
    TextAnchor(SpecifiedValue<TextAnchor>),
    TextDecoration(SpecifiedValue<TextDecoration>),
    TextRendering(SpecifiedValue<TextRendering>),
    UnicodeBidi(SpecifiedValue<UnicodeBidi>),
    Visibility(SpecifiedValue<Visibility>),
    WritingMode(SpecifiedValue<WritingMode>),
    XmlLang(SpecifiedValue<XmlLang>),
    XmlSpace(SpecifiedValue<XmlSpace>),
}

pub enum ParsedPropertyView {
    BaselineShift(SpecifiedValue<BaselineShift>),
    ClipPath(SpecifiedValue<IriView>),
    ClipRule(SpecifiedValue<ClipRule>),
    Color(SpecifiedValue<Color>),
    ColorInterpolationFilters(SpecifiedValue<ColorInterpolationFilters>),
    Direction(SpecifiedValue<Direction>),
    Display(SpecifiedValue<Display>),
    EnableBackground(SpecifiedValue<EnableBackground>),
    Fill(SpecifiedValue<PaintServerView>),
    FillOpacity(SpecifiedValue<FillOpacity>),
    FillRule(SpecifiedValue<FillRule>),
    Filter(SpecifiedValue<IriView>),
    FloodColor(SpecifiedValue<FloodColor>),
    FloodOpacity(SpecifiedValue<FloodOpacity>),
    FontFamily(SpecifiedValue<Seq<char>>),
    FontSize(SpecifiedValue<FontSize>),
    FontStretch(SpecifiedValue<FontStretch>),
    FontStyle(SpecifiedValue<FontStyle>),
    FontVariant(SpecifiedValue<FontVariant>),
    FontWeight(SpecifiedValue<FontWeight>),
    LetterSpacing(SpecifiedValue<LetterSpacing>),
    LightingColor(SpecifiedValue<LightingColor>),
    Marker(SpecifiedValue<IriView>),
    MarkerEnd(SpecifiedValue<IriView>),
    MarkerMid(SpecifiedValue<IriView>),
    MarkerStart(SpecifiedValue<IriView>),
    Mask(SpecifiedValue<IriView>),
    Opacity(SpecifiedValue<Opacity>),
    Overflow(SpecifiedValue<Overflow>),
    ShapeRendering(SpecifiedValue<ShapeRendering>),
    StopColor(SpecifiedValue<StopColor>),
    StopOpacity(SpecifiedValue<StopOpacity>),
    Stroke(SpecifiedValue<PaintServerView>),
    StrokeDasharray(SpecifiedValue<DasharrayView>),
    StrokeDashoffset(SpecifiedValue<StrokeDashoffset>),
    StrokeLinecap(SpecifiedValue<StrokeLinecap>),
    StrokeLinejoin(SpecifiedValue<StrokeLinejoin>),
    StrokeOpacity(SpecifiedValue<StrokeOpacity>),
    StrokeMiterlimit(SpecifiedValue<StrokeMiterlimit>),
    StrokeWidth(SpecifiedValue<StrokeWidth>),
    TextAnchor(SpecifiedValue<TextAnchor>),
    TextDecoration(SpecifiedValue<TextDecoration>),
    TextRendering(SpecifiedValue<TextRendering>),
    UnicodeBidi(SpecifiedValue<UnicodeBidi>),
    Visibility(SpecifiedValue<Visibility>),
    WritingMode(SpecifiedValue<WritingMode>),
    XmlLang(SpecifiedValue<Seq<char>>),
    XmlSpace(SpecifiedValue<XmlSpace>),
}

impl View for ParsedProperty {
    type V = ParsedPropertyView;

    open spec fn view(&self) -> ParsedPropertyView {
        match *self {
            ParsedProperty::BaselineShift(s) => ParsedPropertyView::BaselineShift(s@),
            ParsedProperty::ClipPath(s) => ParsedPropertyView::ClipPath(s@),
            ParsedProperty::ClipRule(s) => ParsedPropertyView::ClipRule(s@),
            ParsedProperty::Color(s) => ParsedPropertyView::Color(s@),
            ParsedProperty::ColorInterpolationFilters(s) => ParsedPropertyView::ColorInterpolationFilters(s@),
            ParsedProperty::Direction(s) => ParsedPropertyView::Direction(s@),
            ParsedProperty::Display(s) => ParsedPropertyView::Display(s@),
            ParsedProperty::EnableBackground(s) => ParsedPropertyView::EnableBackground(s@),
            ParsedProperty::Fill(s) => ParsedPropertyView::Fill(s@),
            ParsedProperty::FillOpacity(s) => ParsedPropertyView::FillOpacity(s@),
            ParsedProperty::FillRule(s) => ParsedPropertyView::FillRule(s@),
            ParsedProperty::Filter(s) => ParsedPropertyView::Filter(s@),
            ParsedProperty::FloodColor(s) => ParsedPropertyView::FloodColor(s@),
            ParsedProperty::FloodOpacity(s) => ParsedPropertyView::FloodOpacity(s@),
            ParsedProperty::FontFamily(s) => ParsedPropertyView::FontFamily(s@),
            ParsedProperty::FontSize(s) => ParsedPropertyView::FontSize(s@),
            ParsedProperty::FontStretch(s) => ParsedPropertyView::FontStretch(s@),
            ParsedProperty::FontStyle(s) => ParsedPropertyView::FontStyle(s@),
            ParsedProperty::FontVariant(s) => ParsedPropertyView::FontVariant(s@),
            ParsedProperty::FontWeight(s) => ParsedPropertyView::FontWeight(s@),
            ParsedProperty::LetterSpacing(s) => ParsedPropertyView::LetterSpacing(s@),
            ParsedProperty::LightingColor(s) => ParsedPropertyView::LightingColor(s@),
            ParsedProperty::Marker(s) => ParsedPropertyView::Marker(s@),
            ParsedProperty::MarkerEnd(s) => ParsedPropertyView::MarkerEnd(s@),
            ParsedProperty::MarkerMid(s) => ParsedPropertyView::MarkerMid(s@),
            ParsedProperty::MarkerStart(s) => ParsedPropertyView::MarkerStart(s@),
            ParsedProperty::Mask(s) => ParsedPropertyView::Mask(s@),
            ParsedProperty::Opacity(s) => ParsedPropertyView::Opacity(s@),
            ParsedProperty::Overflow(s) => ParsedPropertyView::Overflow(s@),
            ParsedProperty::ShapeRendering(s) => ParsedPropertyView::ShapeRendering(s@),
            ParsedProperty::StopColor(s) => ParsedPropertyView::StopColor(s@),
            ParsedProperty::StopOpacity(s) => ParsedPropertyView::StopOpacity(s@),
            ParsedProperty::Stroke(s) => ParsedPropertyView::Stroke(s@),
            ParsedProperty::StrokeDasharray(s) => ParsedPropertyView::StrokeDasharray(s@),
            ParsedProperty::StrokeDashoffset(s) => ParsedPropertyView::StrokeDashoffset(s@),
            ParsedProperty::StrokeLinecap(s) => ParsedPropertyView::StrokeLinecap(s@),
            ParsedProperty::StrokeLinejoin(s) => ParsedPropertyView::StrokeLinejoin(s@),
            ParsedProperty::StrokeOpacity(s) => ParsedPropertyView::StrokeOpacity(s@),
            ParsedProperty::StrokeMiterlimit(s) => ParsedPropertyView::StrokeMiterlimit(s@),
            ParsedProperty::StrokeWidth(s) => ParsedPropertyView::StrokeWidth(s@),
            ParsedProperty::TextAnchor(s) => ParsedPropertyView::TextAnchor(s@),
            ParsedProperty::TextDecoration(s) => ParsedPropertyView::TextDecoration(s@),
            ParsedProperty::TextRendering(s) => ParsedPropertyView::TextRendering(s@),
            ParsedProperty::UnicodeBidi(s) => ParsedPropertyView::UnicodeBidi(s@),
            ParsedProperty::Visibility(s) => ParsedPropertyView::Visibility(s@),
            ParsedProperty::WritingMode(s) => ParsedPropertyView::WritingMode(s@),
            ParsedProperty::XmlLang(s) => ParsedPropertyView::XmlLang(s@),
            ParsedProperty::XmlSpace(s) => ParsedPropertyView::XmlSpace(s@),
        }
    }
}

/// The three states of a declared value, without the value.
#[derive(Clone, Copy, Debug, PartialEq, Eq, Structural)]
pub enum Declared {
    Unspecified,
    Inherit,
    Specified,
}

/// The state of a declared value.
pub open spec fn state_of<T>(s: SpecifiedValue<T>) -> Declared {
    match s {
        SpecifiedValue::Unspecified => Declared::Unspecified,
        SpecifiedValue::Inherit => Declared::Inherit,
        SpecifiedValue::Specified(_) => Declared::Specified,
    }
}

impl ParsedPropertyView {
    /// The identity of the property that is declared.
    pub open spec fn id(self) -> PropertyId {
        match self {
            ParsedPropertyView::BaselineShift(_) => PropertyId::BaselineShift,
            ParsedPropertyView::ClipPath(_) => PropertyId::ClipPath,
            ParsedPropertyView::ClipRule(_) => PropertyId::ClipRule,
            ParsedPropertyView::Color(_) => PropertyId::Color,
            ParsedPropertyView::ColorInterpolationFilters(_) => PropertyId::ColorInterpolationFilters,
            ParsedPropertyView::Direction(_) => PropertyId::Direction,
            ParsedPropertyView::Display(_) => PropertyId::Display,
            ParsedPropertyView::EnableBackground(_) => PropertyId::EnableBackground,
            ParsedPropertyView::Fill(_) => PropertyId::Fill,
            ParsedPropertyView::FillOpacity(_) => PropertyId::FillOpacity,
            ParsedPropertyView::FillRule(_) => PropertyId::FillRule,
            ParsedPropertyView::Filter(_) => PropertyId::Filter,
            ParsedPropertyView::FloodColor(_) => PropertyId::FloodColor,
            ParsedPropertyView::FloodOpacity(_) => PropertyId::FloodOpacity,
            ParsedPropertyView::FontFamily(_) => PropertyId::FontFamily,
            ParsedPropertyView::FontSize(_) => PropertyId::FontSize,
            ParsedPropertyView::FontStretch(_) => PropertyId::FontStretch,
            ParsedPropertyView::FontStyle(_) => PropertyId::FontStyle,
            ParsedPropertyView::FontVariant(_) => PropertyId::FontVariant,
            ParsedPropertyView::FontWeight(_) => PropertyId::FontWeight,
            ParsedPropertyView::LetterSpacing(_) => PropertyId::LetterSpacing,
            ParsedPropertyView::LightingColor(_) => PropertyId::LightingColor,
            ParsedPropertyView::Marker(_) => PropertyId::Marker,
            ParsedPropertyView::MarkerEnd(_) => PropertyId::MarkerEnd,
            ParsedPropertyView::MarkerMid(_) => PropertyId::MarkerMid,
            ParsedPropertyView::MarkerStart(_) => PropertyId::MarkerStart,
            ParsedPropertyView::Mask(_) => PropertyId::Mask,
            ParsedPropertyView::Opacity(_) => PropertyId::Opacity,
            ParsedPropertyView::Overflow(_) => PropertyId::Overflow,
            ParsedPropertyView::ShapeRendering(_) => PropertyId::ShapeRendering,
            ParsedPropertyView::StopColor(_) => PropertyId::StopColor,
            ParsedPropertyView::StopOpacity(_) => PropertyId::StopOpacity,
            ParsedPropertyView::Stroke(_) => PropertyId::Stroke,
            ParsedPropertyView::StrokeDasharray(_) => PropertyId::StrokeDasharray,
            ParsedPropertyView::StrokeDashoffset(_) => PropertyId::StrokeDashoffset,
            ParsedPropertyView::StrokeLinecap(_) => PropertyId::StrokeLinecap,
            ParsedPropertyView::StrokeLinejoin(_) => PropertyId::StrokeLinejoin,
            ParsedPropertyView::StrokeOpacity(_) => PropertyId::StrokeOpacity,
            ParsedPropertyView::StrokeMiterlimit(_) => PropertyId::StrokeMiterlimit,
            ParsedPropertyView::StrokeWidth(_) => PropertyId::StrokeWidth,
            ParsedPropertyView::TextAnchor(_) => PropertyId::TextAnchor,
            ParsedPropertyView::TextDecoration(_) => PropertyId::TextDecoration,
            ParsedPropertyView::TextRendering(_) => PropertyId::TextRendering,
            ParsedPropertyView::UnicodeBidi(_) => PropertyId::UnicodeBidi,
            ParsedPropertyView::Visibility(_) => PropertyId::Visibility,
            ParsedPropertyView::WritingMode(_) => PropertyId::WritingMode,
            ParsedPropertyView::XmlLang(_) => PropertyId::XmlLang,
            ParsedPropertyView::XmlSpace(_) => PropertyId::XmlSpace,
        }
    }

    /// The state of the declared value.
    pub open spec fn state(self) -> Declared {
        match self {
            ParsedPropertyView::BaselineShift(s) => state_of(s),
            ParsedPropertyView::ClipPath(s) => state_of(s),
            ParsedPropertyView::ClipRule(s) => state_of(s),
            ParsedPropertyView::Color(s) => state_of(s),
            ParsedPropertyView::ColorInterpolationFilters(s) => state_of(s),
            ParsedPropertyView::Direction(s) => state_of(s),
            ParsedPropertyView::Display(s) => state_of(s),
            ParsedPropertyView::EnableBackground(s) => state_of(s),
            ParsedPropertyView::Fill(s) => state_of(s),
            ParsedPropertyView::FillOpacity(s) => state_of(s),
            ParsedPropertyView::FillRule(s) => state_of(s),
            ParsedPropertyView::Filter(s) => state_of(s),
            ParsedPropertyView::FloodColor(s) => state_of(s),
            ParsedPropertyView::FloodOpacity(s) => state_of(s),
            ParsedPropertyView::FontFamily(s) => state_of(s),
            ParsedPropertyView::FontSize(s) => state_of(s),
            ParsedPropertyView::FontStretch(s) => state_of(s),
            ParsedPropertyView::FontStyle(s) => state_of(s),
            ParsedPropertyView::FontVariant(s) => state_of(s),
            ParsedPropertyView::FontWeight(s) => state_of(s),
            ParsedPropertyView::LetterSpacing(s) => state_of(s),
            ParsedPropertyView::LightingColor(s) => state_of(s),
            ParsedPropertyView::Marker(s) => state_of(s),
            ParsedPropertyView::MarkerEnd(s) => state_of(s),
            ParsedPropertyView::MarkerMid(s) => state_of(s),
            ParsedPropertyView::MarkerStart(s) => state_of(s),
            ParsedPropertyView::Mask(s) => state_of(s),
            ParsedPropertyView::Opacity(s) => state_of(s),
            ParsedPropertyView::Overflow(s) => state_of(s),
            ParsedPropertyView::ShapeRendering(s) => state_of(s),
            ParsedPropertyView::StopColor(s) => state_of(s),
            ParsedPropertyView::StopOpacity(s) => state_of(s),
            ParsedPropertyView::Stroke(s) => state_of(s),
            ParsedPropertyView::StrokeDasharray(s) => state_of(s),
            ParsedPropertyView::StrokeDashoffset(s) => state_of(s),
            ParsedPropertyView::StrokeLinecap(s) => state_of(s),
            ParsedPropertyView::StrokeLinejoin(s) => state_of(s),
            ParsedPropertyView::StrokeOpacity(s) => state_of(s),
            ParsedPropertyView::StrokeMiterlimit(s) => state_of(s),
            ParsedPropertyView::StrokeWidth(s) => state_of(s),
            ParsedPropertyView::TextAnchor(s) => state_of(s),
            ParsedPropertyView::TextDecoration(s) => state_of(s),
            ParsedPropertyView::TextRendering(s) => state_of(s),
            ParsedPropertyView::UnicodeBidi(s) => state_of(s),
            ParsedPropertyView::Visibility(s) => state_of(s),
            ParsedPropertyView::WritingMode(s) => state_of(s),
            ParsedPropertyView::XmlLang(s) => state_of(s),
            ParsedPropertyView::XmlSpace(s) => state_of(s),
        }
    }

    /// The declaration of the property `id` that declares nothing. The
    /// identity of no property stands for the shorthand here.
    pub open spec fn unspecified(id: PropertyId) -> ParsedPropertyView {
        match id {
            PropertyId::BaselineShift => ParsedPropertyView::BaselineShift(SpecifiedValue::Unspecified),
            PropertyId::ClipPath => ParsedPropertyView::ClipPath(SpecifiedValue::Unspecified),
            PropertyId::ClipRule => ParsedPropertyView::ClipRule(SpecifiedValue::Unspecified),
            PropertyId::Color => ParsedPropertyView::Color(SpecifiedValue::Unspecified),
            PropertyId::ColorInterpolationFilters => ParsedPropertyView::ColorInterpolationFilters(SpecifiedValue::Unspecified),
            PropertyId::Direction => ParsedPropertyView::Direction(SpecifiedValue::Unspecified),
            PropertyId::Display => ParsedPropertyView::Display(SpecifiedValue::Unspecified),
            PropertyId::EnableBackground => ParsedPropertyView::EnableBackground(SpecifiedValue::Unspecified),
            PropertyId::Fill => ParsedPropertyView::Fill(SpecifiedValue::Unspecified),
            PropertyId::FillOpacity => ParsedPropertyView::FillOpacity(SpecifiedValue::Unspecified),
            PropertyId::FillRule => ParsedPropertyView::FillRule(SpecifiedValue::Unspecified),
            PropertyId::Filter => ParsedPropertyView::Filter(SpecifiedValue::Unspecified),
            PropertyId::FloodColor => ParsedPropertyView::FloodColor(SpecifiedValue::Unspecified),
            PropertyId::FloodOpacity => ParsedPropertyView::FloodOpacity(SpecifiedValue::Unspecified),
            PropertyId::FontFamily => ParsedPropertyView::FontFamily(SpecifiedValue::Unspecified),
            PropertyId::FontSize => ParsedPropertyView::FontSize(SpecifiedValue::Unspecified),
            PropertyId::FontStretch => ParsedPropertyView::FontStretch(SpecifiedValue::Unspecified),
            PropertyId::FontStyle => ParsedPropertyView::FontStyle(SpecifiedValue::Unspecified),
            PropertyId::FontVariant => ParsedPropertyView::FontVariant(SpecifiedValue::Unspecified),
            PropertyId::FontWeight => ParsedPropertyView::FontWeight(SpecifiedValue::Unspecified),
            PropertyId::LetterSpacing => ParsedPropertyView::LetterSpacing(SpecifiedValue::Unspecified),
            PropertyId::LightingColor => ParsedPropertyView::LightingColor(SpecifiedValue::Unspecified),
            PropertyId::MarkerEnd => ParsedPropertyView::MarkerEnd(SpecifiedValue::Unspecified),
            PropertyId::MarkerMid => ParsedPropertyView::MarkerMid(SpecifiedValue::Unspecified),
            PropertyId::MarkerStart => ParsedPropertyView::MarkerStart(SpecifiedValue::Unspecified),
            PropertyId::Mask => ParsedPropertyView::Mask(SpecifiedValue::Unspecified),
            PropertyId::Opacity => ParsedPropertyView::Opacity(SpecifiedValue::Unspecified),
            PropertyId::Overflow => ParsedPropertyView::Overflow(SpecifiedValue::Unspecified),
            PropertyId::ShapeRendering => ParsedPropertyView::ShapeRendering(SpecifiedValue::Unspecified),
            PropertyId::StopColor => ParsedPropertyView::StopColor(SpecifiedValue::Unspecified),
            PropertyId::StopOpacity => ParsedPropertyView::StopOpacity(SpecifiedValue::Unspecified),
            PropertyId::Stroke => ParsedPropertyView::Stroke(SpecifiedValue::Unspecified),
            PropertyId::StrokeDasharray => ParsedPropertyView::StrokeDasharray(SpecifiedValue::Unspecified),
            PropertyId::StrokeDashoffset => ParsedPropertyView::StrokeDashoffset(SpecifiedValue::Unspecified),
            PropertyId::StrokeLinecap => ParsedPropertyView::StrokeLinecap(SpecifiedValue::Unspecified),
            PropertyId::StrokeLinejoin => ParsedPropertyView::StrokeLinejoin(SpecifiedValue::Unspecified),
            PropertyId::StrokeOpacity => ParsedPropertyView::StrokeOpacity(SpecifiedValue::Unspecified),
            PropertyId::StrokeMiterlimit => ParsedPropertyView::StrokeMiterlimit(SpecifiedValue::Unspecified),
            PropertyId::StrokeWidth => ParsedPropertyView::StrokeWidth(SpecifiedValue::Unspecified),
            PropertyId::TextAnchor => ParsedPropertyView::TextAnchor(SpecifiedValue::Unspecified),
            PropertyId::TextDecoration => ParsedPropertyView::TextDecoration(SpecifiedValue::Unspecified),
            PropertyId::TextRendering => ParsedPropertyView::TextRendering(SpecifiedValue::Unspecified),
            PropertyId::UnicodeBidi => ParsedPropertyView::UnicodeBidi(SpecifiedValue::Unspecified),
            PropertyId::Visibility => ParsedPropertyView::Visibility(SpecifiedValue::Unspecified),
            PropertyId::WritingMode => ParsedPropertyView::WritingMode(SpecifiedValue::Unspecified),
            PropertyId::XmlLang => ParsedPropertyView::XmlLang(SpecifiedValue::Unspecified),
            PropertyId::XmlSpace => ParsedPropertyView::XmlSpace(SpecifiedValue::Unspecified),
            PropertyId::Marker | PropertyId::UnsetProperty => ParsedPropertyView::Marker(
                SpecifiedValue::Unspecified,
            ),
        }
    }

    /// The computed values `c` of an element with the value of the declared
    /// property computed and put in its place. The rest of `c` stays as it is;
    /// a declaration of the shorthand changes nothing.
    #[verifier::opaque]
    pub open spec fn apply(self, c: ComputedValuesView) -> ComputedValuesView {
        match self {
            ParsedPropertyView::BaselineShift(s) => ComputedValuesView {
                baseline_shift: computed_value::<BaselineShift>(s, c.baseline_shift, c),
                ..c
            },
            ParsedPropertyView::ClipPath(s) => ComputedValuesView {
                clip_path: computed_value::<ClipPath>(s, c.clip_path, c),
                ..c
            },
            ParsedPropertyView::ClipRule(s) => ComputedValuesView {
                clip_rule: computed_value::<ClipRule>(s, c.clip_rule, c),
                ..c
            },
            ParsedPropertyView::Color(s) => ComputedValuesView {
                color: computed_value::<Color>(s, c.color, c),
                ..c
            },
            ParsedPropertyView::ColorInterpolationFilters(s) => ComputedValuesView {
                color_interpolation_filters: computed_value::<ColorInterpolationFilters>(s, c.color_interpolation_filters, c),
                ..c
            },
            ParsedPropertyView::Direction(s) => ComputedValuesView {
                direction: computed_value::<Direction>(s, c.direction, c),
                ..c
            },
            ParsedPropertyView::Display(s) => ComputedValuesView {
                display: computed_value::<Display>(s, c.display, c),
                ..c
            },
            ParsedPropertyView::EnableBackground(s) => ComputedValuesView {
                enable_background: computed_value::<EnableBackground>(s, c.enable_background, c),
                ..c
            },
            ParsedPropertyView::Fill(s) => ComputedValuesView {
                fill: computed_value::<Fill>(s, c.fill, c),
                ..c
            },
            ParsedPropertyView::FillOpacity(s) => ComputedValuesView {
                fill_opacity: computed_value::<FillOpacity>(s, c.fill_opacity, c),
                ..c
            },
            ParsedPropertyView::FillRule(s) => ComputedValuesView {
                fill_rule: computed_value::<FillRule>(s, c.fill_rule, c),
                ..c
            },
            ParsedPropertyView::Filter(s) => ComputedValuesView {
                filter: computed_value::<Filter>(s, c.filter, c),
                ..c
            },
            ParsedPropertyView::FloodColor(s) => ComputedValuesView {
                flood_color: computed_value::<FloodColor>(s, c.flood_color, c),
                ..c
            },
            ParsedPropertyView::FloodOpacity(s) => ComputedValuesView {
                flood_opacity: computed_value::<FloodOpacity>(s, c.flood_opacity, c),
                ..c
            },
            ParsedPropertyView::FontFamily(s) => ComputedValuesView {
                font_family: computed_value::<FontFamily>(s, c.font_family, c),
                ..c
            },
            ParsedPropertyView::FontSize(s) => ComputedValuesView {
                font_size: computed_value::<FontSize>(s, c.font_size, c),
                ..c
            },
            ParsedPropertyView::FontStretch(s) => ComputedValuesView {
                font_stretch: computed_value::<FontStretch>(s, c.font_stretch, c),
                ..c
            },
            ParsedPropertyView::FontStyle(s) => ComputedValuesView {
                font_style: computed_value::<FontStyle>(s, c.font_style, c),
                ..c
            },
            ParsedPropertyView::FontVariant(s) => ComputedValuesView {
                font_variant: computed_value::<FontVariant>(s, c.font_variant, c),
                ..c
            },
            ParsedPropertyView::FontWeight(s) => ComputedValuesView {
                font_weight: computed_value::<FontWeight>(s, c.font_weight, c),
                ..c
            },
            ParsedPropertyView::LetterSpacing(s) => ComputedValuesView {
                letter_spacing: computed_value::<LetterSpacing>(s, c.letter_spacing, c),
                ..c
            },
            ParsedPropertyView::LightingColor(s) => ComputedValuesView {
                lighting_color: computed_value::<LightingColor>(s, c.lighting_color, c),
                ..c
            },
            ParsedPropertyView::Marker(_) => c,
            ParsedPropertyView::MarkerEnd(s) => ComputedValuesView {
                marker_end: computed_value::<MarkerEnd>(s, c.marker_end, c),
                ..c
            },
            ParsedPropertyView::MarkerMid(s) => ComputedValuesView {
                marker_mid: computed_value::<MarkerMid>(s, c.marker_mid, c),
                ..c
            },
            ParsedPropertyView::MarkerStart(s) => ComputedValuesView {
                marker_start: computed_value::<MarkerStart>(s, c.marker_start, c),
                ..c
            },
            ParsedPropertyView::Mask(s) => ComputedValuesView {
                mask: computed_value::<Mask>(s, c.mask, c),
                ..c
            },
            ParsedPropertyView::Opacity(s) => ComputedValuesView {
                opacity: computed_value::<Opacity>(s, c.opacity, c),
                ..c
            },
            ParsedPropertyView::Overflow(s) => ComputedValuesView {
                overflow: computed_value::<Overflow>(s, c.overflow, c),
                ..c
            },
            ParsedPropertyView::ShapeRendering(s) => ComputedValuesView {
                shape_rendering: computed_value::<ShapeRendering>(s, c.shape_rendering, c),
                ..c
            },
            ParsedPropertyView::StopColor(s) => ComputedValuesView {
                stop_color: computed_value::<StopColor>(s, c.stop_color, c),
                ..c
            },
            ParsedPropertyView::StopOpacity(s) => ComputedValuesView {
                stop_opacity: computed_value::<StopOpacity>(s, c.stop_opacity, c),
                ..c
            },
            ParsedPropertyView::Stroke(s) => ComputedValuesView {
                stroke: computed_value::<Stroke>(s, c.stroke, c),
                ..c
            },
            ParsedPropertyView::StrokeDasharray(s) => ComputedValuesView {
                stroke_dasharray: computed_value::<StrokeDasharray>(s, c.stroke_dasharray, c),
                ..c
            },
            ParsedPropertyView::StrokeDashoffset(s) => ComputedValuesView {
                stroke_dashoffset: computed_value::<StrokeDashoffset>(s, c.stroke_dashoffset, c),
                ..c
            },
            ParsedPropertyView::StrokeLinecap(s) => ComputedValuesView {
                stroke_line_cap: computed_value::<StrokeLinecap>(s, c.stroke_line_cap, c),
                ..c
            },
            ParsedPropertyView::StrokeLinejoin(s) => ComputedValuesView {
                stroke_line_join: computed_value::<StrokeLinejoin>(s, c.stroke_line_join, c),
                ..c
            },
            ParsedPropertyView::StrokeOpacity(s) => ComputedValuesView {
                stroke_opacity: computed_value::<StrokeOpacity>(s, c.stroke_opacity, c),
                ..c
            },
            ParsedPropertyView::StrokeMiterlimit(s) => ComputedValuesView {
                stroke_miterlimit: computed_value::<StrokeMiterlimit>(s, c.stroke_miterlimit, c),
                ..c
            },
            ParsedPropertyView::StrokeWidth(s) => ComputedValuesView {
                stroke_width: computed_value::<StrokeWidth>(s, c.stroke_width, c),
                ..c
            },
            ParsedPropertyView::TextAnchor(s) => ComputedValuesView {
                text_anchor: computed_value::<TextAnchor>(s, c.text_anchor, c),
                ..c
            },
            ParsedPropertyView::TextDecoration(s) => ComputedValuesView {
                text_decoration: computed_value::<TextDecoration>(s, c.text_decoration, c),
                ..c
            },
            ParsedPropertyView::TextRendering(s) => ComputedValuesView {
                text_rendering: computed_value::<TextRendering>(s, c.text_rendering, c),
                ..c
            },
            ParsedPropertyView::UnicodeBidi(s) => ComputedValuesView {
                unicode_bidi: computed_value::<UnicodeBidi>(s, c.unicode_bidi, c),
                ..c
            },
            ParsedPropertyView::Visibility(s) => ComputedValuesView {
                visibility: computed_value::<Visibility>(s, c.visibility, c),
                ..c
            },
            ParsedPropertyView::WritingMode(s) => ComputedValuesView {
                writing_mode: computed_value::<WritingMode>(s, c.writing_mode, c),
                ..c
            },
            ParsedPropertyView::XmlLang(s) => ComputedValuesView {
                xml_lang: computed_value::<XmlLang>(s, c.xml_lang, c),
                ..c
            },
            ParsedPropertyView::XmlSpace(s) => ComputedValuesView {
                xml_space: computed_value::<XmlSpace>(s, c.xml_space, c),
                ..c
            },
        }
    }
}

impl ComputedValuesView {
    /// The value of the property `id` in these computed values, in the form
    /// of a declaration that specifies it. There is no value of the shorthand
    /// and none of the identity of no property: for them the result is a
    /// declaration of the shorthand that declares nothing.
    pub open spec fn get(self, id: PropertyId) -> ParsedPropertyView {
        match id {
            PropertyId::BaselineShift => ParsedPropertyView::BaselineShift(
                SpecifiedValue::Specified(self.baseline_shift),
            ),
            PropertyId::ClipPath => ParsedPropertyView::ClipPath(
                SpecifiedValue::Specified(self.clip_path),
            ),
            PropertyId::ClipRule => ParsedPropertyView::ClipRule(
                SpecifiedValue::Specified(self.clip_rule),
            ),
            PropertyId::Color => ParsedPropertyView::Color(
                SpecifiedValue::Specified(self.color),
            ),
            PropertyId::ColorInterpolationFilters => ParsedPropertyView::ColorInterpolationFilters(
                SpecifiedValue::Specified(self.color_interpolation_filters),
            ),
            PropertyId::Direction => ParsedPropertyView::Direction(
                SpecifiedValue::Specified(self.direction),
            ),
            PropertyId::Display => ParsedPropertyView::Display(
                SpecifiedValue::Specified(self.display),
            ),
            PropertyId::EnableBackground => ParsedPropertyView::EnableBackground(
                SpecifiedValue::Specified(self.enable_background),
            ),
            PropertyId::Fill => ParsedPropertyView::Fill(
                SpecifiedValue::Specified(self.fill),
            ),
            PropertyId::FillOpacity => ParsedPropertyView::FillOpacity(
                SpecifiedValue::Specified(self.fill_opacity),
            ),
            PropertyId::FillRule => ParsedPropertyView::FillRule(
                SpecifiedValue::Specified(self.fill_rule),
            ),
            PropertyId::Filter => ParsedPropertyView::Filter(
                SpecifiedValue::Specified(self.filter),
            ),
            PropertyId::FloodColor => ParsedPropertyView::FloodColor(
                SpecifiedValue::Specified(self.flood_color),
            ),
            PropertyId::FloodOpacity => ParsedPropertyView::FloodOpacity(
                SpecifiedValue::Specified(self.flood_opacity),
            ),
            PropertyId::FontFamily => ParsedPropertyView::FontFamily(
                SpecifiedValue::Specified(self.font_family),
            ),
            PropertyId::FontSize => ParsedPropertyView::FontSize(
                SpecifiedValue::Specified(self.font_size),
            ),
            PropertyId::FontStretch => ParsedPropertyView::FontStretch(
                SpecifiedValue::Specified(self.font_stretch),
            ),
            PropertyId::FontStyle => ParsedPropertyView::FontStyle(
                SpecifiedValue::Specified(self.font_style),
            ),
            PropertyId::FontVariant => ParsedPropertyView::FontVariant(
                SpecifiedValue::Specified(self.font_variant),
            ),
            PropertyId::FontWeight => ParsedPropertyView::FontWeight(
                SpecifiedValue::Specified(self.font_weight),
            ),
            PropertyId::LetterSpacing => ParsedPropertyView::LetterSpacing(
                SpecifiedValue::Specified(self.letter_spacing),
            ),
            PropertyId::LightingColor => ParsedPropertyView::LightingColor(
                SpecifiedValue::Specified(self.lighting_color),
            ),
            PropertyId::MarkerEnd => ParsedPropertyView::MarkerEnd(
                SpecifiedValue::Specified(self.marker_end),
            ),
            PropertyId::MarkerMid => ParsedPropertyView::MarkerMid(
                SpecifiedValue::Specified(self.marker_mid),
            ),
            PropertyId::MarkerStart => ParsedPropertyView::MarkerStart(
                SpecifiedValue::Specified(self.marker_start),
            ),
            PropertyId::Mask => ParsedPropertyView::Mask(
                SpecifiedValue::Specified(self.mask),
            ),
            PropertyId::Opacity => ParsedPropertyView::Opacity(
                SpecifiedValue::Specified(self.opacity),
            ),
            PropertyId::Overflow => ParsedPropertyView::Overflow(
                SpecifiedValue::Specified(self.overflow),
            ),
            PropertyId::ShapeRendering => ParsedPropertyView::ShapeRendering(
                SpecifiedValue::Specified(self.shape_rendering),
            ),
            PropertyId::StopColor => ParsedPropertyView::StopColor(
                SpecifiedValue::Specified(self.stop_color),
            ),
            PropertyId::StopOpacity => ParsedPropertyView::StopOpacity(
                SpecifiedValue::Specified(self.stop_opacity),
            ),
            PropertyId::Stroke => ParsedPropertyView::Stroke(
                SpecifiedValue::Specified(self.stroke),
            ),
            PropertyId::StrokeDasharray => ParsedPropertyView::StrokeDasharray(
                SpecifiedValue::Specified(self.stroke_dasharray),
            ),
            PropertyId::StrokeDashoffset => ParsedPropertyView::StrokeDashoffset(
                SpecifiedValue::Specified(self.stroke_dashoffset),
            ),
            PropertyId::StrokeLinecap => ParsedPropertyView::StrokeLinecap(
                SpecifiedValue::Specified(self.stroke_line_cap),
            ),
            PropertyId::StrokeLinejoin => ParsedPropertyView::StrokeLinejoin(
                SpecifiedValue::Specified(self.stroke_line_join),
            ),
            PropertyId::StrokeOpacity => ParsedPropertyView::StrokeOpacity(
                SpecifiedValue::Specified(self.stroke_opacity),
            ),
            PropertyId::StrokeMiterlimit => ParsedPropertyView::StrokeMiterlimit(
                SpecifiedValue::Specified(self.stroke_miterlimit),
            ),
            PropertyId::StrokeWidth => ParsedPropertyView::StrokeWidth(
                SpecifiedValue::Specified(self.stroke_width),
            ),
            PropertyId::TextAnchor => ParsedPropertyView::TextAnchor(
                SpecifiedValue::Specified(self.text_anchor),
            ),
            PropertyId::TextDecoration => ParsedPropertyView::TextDecoration(
                SpecifiedValue::Specified(self.text_decoration),
            ),
            PropertyId::TextRendering => ParsedPropertyView::TextRendering(
                SpecifiedValue::Specified(self.text_rendering),
            ),
            PropertyId::UnicodeBidi => ParsedPropertyView::UnicodeBidi(
                SpecifiedValue::Specified(self.unicode_bidi),
            ),
            PropertyId::Visibility => ParsedPropertyView::Visibility(
                SpecifiedValue::Specified(self.visibility),
            ),
            PropertyId::WritingMode => ParsedPropertyView::WritingMode(
                SpecifiedValue::Specified(self.writing_mode),
            ),
            PropertyId::XmlLang => ParsedPropertyView::XmlLang(
                SpecifiedValue::Specified(self.xml_lang),
            ),
            PropertyId::XmlSpace => ParsedPropertyView::XmlSpace(
                SpecifiedValue::Specified(self.xml_space),
            ),
            PropertyId::Marker | PropertyId::UnsetProperty => ParsedPropertyView::Marker(
                SpecifiedValue::Unspecified,
            ),
        }
    }
}

impl PropertyId {
    /// Whether an element that declares nothing of this property takes the
    /// value of its parent.
    pub open spec fn inherits_automatically(self) -> bool {
        match self {
            PropertyId::BaselineShift => BaselineShift::inherits(),
            PropertyId::ClipPath => ClipPath::inherits(),
            PropertyId::ClipRule => ClipRule::inherits(),
            PropertyId::Color => Color::inherits(),
            PropertyId::ColorInterpolationFilters => ColorInterpolationFilters::inherits(),
            PropertyId::Direction => Direction::inherits(),
            PropertyId::Display => Display::inherits(),
            PropertyId::EnableBackground => EnableBackground::inherits(),
            PropertyId::Fill => Fill::inherits(),
            PropertyId::FillOpacity => FillOpacity::inherits(),
            PropertyId::FillRule => FillRule::inherits(),
            PropertyId::Filter => Filter::inherits(),
            PropertyId::FloodColor => FloodColor::inherits(),
            PropertyId::FloodOpacity => FloodOpacity::inherits(),
            PropertyId::FontFamily => FontFamily::inherits(),
            PropertyId::FontSize => FontSize::inherits(),
            PropertyId::FontStretch => FontStretch::inherits(),
            PropertyId::FontStyle => FontStyle::inherits(),
            PropertyId::FontVariant => FontVariant::inherits(),
            PropertyId::FontWeight => FontWeight::inherits(),
            PropertyId::LetterSpacing => LetterSpacing::inherits(),
            PropertyId::LightingColor => LightingColor::inherits(),
            PropertyId::Marker => Marker::inherits(),
            PropertyId::MarkerEnd => MarkerEnd::inherits(),
            PropertyId::MarkerMid => MarkerMid::inherits(),
            PropertyId::MarkerStart => MarkerStart::inherits(),
            PropertyId::Mask => Mask::inherits(),
            PropertyId::Opacity => Opacity::inherits(),
            PropertyId::Overflow => Overflow::inherits(),
            PropertyId::ShapeRendering => ShapeRendering::inherits(),
            PropertyId::StopColor => StopColor::inherits(),
            PropertyId::StopOpacity => StopOpacity::inherits(),
            PropertyId::Stroke => Stroke::inherits(),
            PropertyId::StrokeDasharray => StrokeDasharray::inherits(),
            PropertyId::StrokeDashoffset => StrokeDashoffset::inherits(),
            PropertyId::StrokeLinecap => StrokeLinecap::inherits(),
            PropertyId::StrokeLinejoin => StrokeLinejoin::inherits(),
            PropertyId::StrokeOpacity => StrokeOpacity::inherits(),
            PropertyId::StrokeMiterlimit => StrokeMiterlimit::inherits(),
            PropertyId::StrokeWidth => StrokeWidth::inherits(),
            PropertyId::TextAnchor => TextAnchor::inherits(),
            PropertyId::TextDecoration => TextDecoration::inherits(),
            PropertyId::TextRendering => TextRendering::inherits(),
            PropertyId::UnicodeBidi => UnicodeBidi::inherits(),
            PropertyId::Visibility => Visibility::inherits(),
            PropertyId::WritingMode => WritingMode::inherits(),
            PropertyId::XmlLang => XmlLang::inherits(),
            PropertyId::XmlSpace => XmlSpace::inherits(),
            PropertyId::UnsetProperty => false,
        }
    }
}

fn compute_baseline_shift(s: &SpecifiedValue<BaselineShift>, computed: &mut ComputedValues)
    ensures
        final(computed)@ == ParsedPropertyView::BaselineShift(s@).apply(old(computed)@),
{
    reveal(ParsedPropertyView::apply);
    computed.baseline_shift = s.compute(&computed.baseline_shift, computed);
}

fn compute_clip_path(s: &SpecifiedValue<ClipPath>, computed: &mut ComputedValues)
    ensures
        final(computed)@ == ParsedPropertyView::ClipPath(s@).apply(old(computed)@),
{
    reveal(ParsedPropertyView::apply);
    computed.clip_path = s.compute(&computed.clip_path, computed);
}

fn compute_clip_rule(s: &SpecifiedValue<ClipRule>, computed: &mut ComputedValues)
    ensures
        final(computed)@ == ParsedPropertyView::ClipRule(s@).apply(old(computed)@),
{
    reveal(ParsedPropertyView::apply);
    computed.clip_rule = s.compute(&computed.clip_rule, computed);
}

fn compute_color(s: &SpecifiedValue<Color>, computed: &mut ComputedValues)
    ensures
        final(computed)@ == ParsedPropertyView::Color(s@).apply(old(computed)@),
{
    reveal(ParsedPropertyView::apply);
    computed.color = s.compute(&computed.color, computed);
}

fn compute_color_interpolation_filters(s: &SpecifiedValue<ColorInterpolationFilters>, computed: &mut ComputedValues)
    ensures
        final(computed)@ == ParsedPropertyView::ColorInterpolationFilters(s@).apply(old(computed)@),
{
    reveal(ParsedPropertyView::apply);
    computed.color_interpolation_filters = s.compute(&computed.color_interpolation_filters, computed);
}

fn compute_direction(s: &SpecifiedValue<Direction>, computed: &mut ComputedValues)
    ensures
        final(computed)@ == ParsedPropertyView::Direction(s@).apply(old(computed)@),
{
    reveal(ParsedPropertyView::apply);
    computed.direction = s.compute(&computed.direction, computed);
}

fn compute_display(s: &SpecifiedValue<Display>, computed: &mut ComputedValues)
    ensures
        final(computed)@ == ParsedPropertyView::Display(s@).apply(old(computed)@),
{
    reveal(ParsedPropertyView::apply);
    computed.display = s.compute(&computed.display, computed);
}

fn compute_enable_background(s: &SpecifiedValue<EnableBackground>, computed: &mut ComputedValues)
    ensures
        final(computed)@ == ParsedPropertyView::EnableBackground(s@).apply(old(computed)@),
{
    reveal(ParsedPropertyView::apply);
    computed.enable_background = s.compute(&computed.enable_background, computed);
}

fn compute_fill(s: &SpecifiedValue<Fill>, computed: &mut ComputedValues)
    ensures
        final(computed)@ == ParsedPropertyView::Fill(s@).apply(old(computed)@),
{
    reveal(ParsedPropertyView::apply);
    computed.fill = s.compute(&computed.fill, computed);
}

fn compute_fill_opacity(s: &SpecifiedValue<FillOpacity>, computed: &mut ComputedValues)
    ensures
        final(computed)@ == ParsedPropertyView::FillOpacity(s@).apply(old(computed)@),
{
    reveal(ParsedPropertyView::apply);
    computed.fill_opacity = s.compute(&computed.fill_opacity, computed);
}

fn compute_fill_rule(s: &SpecifiedValue<FillRule>, computed: &mut ComputedValues)
    ensures
        final(computed)@ == ParsedPropertyView::FillRule(s@).apply(old(computed)@),
{
    reveal(ParsedPropertyView::apply);
    computed.fill_rule = s.compute(&computed.fill_rule, computed);
}

fn compute_filter(s: &SpecifiedValue<Filter>, computed: &mut ComputedValues)
    ensures
        final(computed)@ == ParsedPropertyView::Filter(s@).apply(old(computed)@),
{
    reveal(ParsedPropertyView::apply);
    computed.filter = s.compute(&computed.filter, computed);
}

fn compute_flood_color(s: &SpecifiedValue<FloodColor>, computed: &mut ComputedValues)
    ensures
        final(computed)@ == ParsedPropertyView::FloodColor(s@).apply(old(computed)@),
{
    reveal(ParsedPropertyView::apply);
    computed.flood_color = s.compute(&computed.flood_color, computed);
}

fn compute_flood_opacity(s: &SpecifiedValue<FloodOpacity>, computed: &mut ComputedValues)
    ensures
        final(computed)@ == ParsedPropertyView::FloodOpacity(s@).apply(old(computed)@),
{
    reveal(ParsedPropertyView::apply);
    computed.flood_opacity = s.compute(&computed.flood_opacity, computed);
}

fn compute_font_family(s: &SpecifiedValue<FontFamily>, computed: &mut ComputedValues)
    ensures
        final(computed)@ == ParsedPropertyView::FontFamily(s@).apply(old(computed)@),
{
    reveal(ParsedPropertyView::apply);
    computed.font_family = s.compute(&computed.font_family, computed);
}

fn compute_font_size(s: &SpecifiedValue<FontSize>, computed: &mut ComputedValues)
    ensures
        final(computed)@ == ParsedPropertyView::FontSize(s@).apply(old(computed)@),
{
    reveal(ParsedPropertyView::apply);
    computed.font_size = s.compute(&computed.font_size, computed);
}

fn compute_font_stretch(s: &SpecifiedValue<FontStretch>, computed: &mut ComputedValues)
    ensures
        final(computed)@ == ParsedPropertyView::FontStretch(s@).apply(old(computed)@),
{
    reveal(ParsedPropertyView::apply);
    computed.font_stretch = s.compute(&computed.font_stretch, computed);
}

fn compute_font_style(s: &SpecifiedValue<FontStyle>, computed: &mut ComputedValues)
    ensures
        final(computed)@ == ParsedPropertyView::FontStyle(s@).apply(old(computed)@),
{
    reveal(ParsedPropertyView::apply);
    computed.font_style = s.compute(&computed.font_style, computed);
}

fn compute_font_variant(s: &SpecifiedValue<FontVariant>, computed: &mut ComputedValues)
    ensures
        final(computed)@ == ParsedPropertyView::FontVariant(s@).apply(old(computed)@),
{
    reveal(ParsedPropertyView::apply);
    computed.font_variant = s.compute(&computed.font_variant, computed);
}

fn compute_font_weight(s: &SpecifiedValue<FontWeight>, computed: &mut ComputedValues)
    ensures
        final(computed)@ == ParsedPropertyView::FontWeight(s@).apply(old(computed)@),
{
    reveal(ParsedPropertyView::apply);
    computed.font_weight = s.compute(&computed.font_weight, computed);
}

fn compute_letter_spacing(s: &SpecifiedValue<LetterSpacing>, computed: &mut ComputedValues)
    ensures
        final(computed)@ == ParsedPropertyView::LetterSpacing(s@).apply(old(computed)@),
{
    reveal(ParsedPropertyView::apply);
    computed.letter_spacing = s.compute(&computed.letter_spacing, computed);
}

fn compute_lighting_color(s: &SpecifiedValue<LightingColor>, computed: &mut ComputedValues)
    ensures
        final(computed)@ == ParsedPropertyView::LightingColor(s@).apply(old(computed)@),
{
    reveal(ParsedPropertyView::apply);
    computed.lighting_color = s.compute(&computed.lighting_color, computed);
}

fn compute_marker_end(s: &SpecifiedValue<MarkerEnd>, computed: &mut ComputedValues)
    ensures
        final(computed)@ == ParsedPropertyView::MarkerEnd(s@).apply(old(computed)@),
{
    reveal(ParsedPropertyView::apply);
    computed.marker_end = s.compute(&computed.marker_end, computed);
}

fn compute_marker_mid(s: &SpecifiedValue<MarkerMid>, computed: &mut ComputedValues)
    ensures
        final(computed)@ == ParsedPropertyView::MarkerMid(s@).apply(old(computed)@),
{
    reveal(ParsedPropertyView::apply);
    computed.marker_mid = s.compute(&computed.marker_mid, computed);
}

fn compute_marker_start(s: &SpecifiedValue<MarkerStart>, computed: &mut ComputedValues)
    ensures
        final(computed)@ == ParsedPropertyView::MarkerStart(s@).apply(old(computed)@),
{
    reveal(ParsedPropertyView::apply);
    computed.marker_start = s.compute(&computed.marker_start, computed);
}

fn compute_mask(s: &SpecifiedValue<Mask>, computed: &mut ComputedValues)
    ensures
        final(computed)@ == ParsedPropertyView::Mask(s@).apply(old(computed)@),
{
    reveal(ParsedPropertyView::apply);
    computed.mask = s.compute(&computed.mask, computed);
}

fn compute_opacity(s: &SpecifiedValue<Opacity>, computed: &mut ComputedValues)
    ensures
        final(computed)@ == ParsedPropertyView::Opacity(s@).apply(old(computed)@),
{
    reveal(ParsedPropertyView::apply);
    computed.opacity = s.compute(&computed.opacity, computed);
}

fn compute_overflow(s: &SpecifiedValue<Overflow>, computed: &mut ComputedValues)
    ensures
        final(computed)@ == ParsedPropertyView::Overflow(s@).apply(old(computed)@),
{
    reveal(ParsedPropertyView::apply);
    computed.overflow = s.compute(&computed.overflow, computed);
}

fn compute_shape_rendering(s: &SpecifiedValue<ShapeRendering>, computed: &mut ComputedValues)
    ensures
        final(computed)@ == ParsedPropertyView::ShapeRendering(s@).apply(old(computed)@),
{
    reveal(ParsedPropertyView::apply);
    computed.shape_rendering = s.compute(&computed.shape_rendering, computed);
}

fn compute_stop_color(s: &SpecifiedValue<StopColor>, computed: &mut ComputedValues)
    ensures
        final(computed)@ == ParsedPropertyView::StopColor(s@).apply(old(computed)@),
{
    reveal(ParsedPropertyView::apply);
    computed.stop_color = s.compute(&computed.stop_color, computed);
}

fn compute_stop_opacity(s: &SpecifiedValue<StopOpacity>, computed: &mut ComputedValues)
    ensures
        final(computed)@ == ParsedPropertyView::StopOpacity(s@).apply(old(computed)@),
{
    reveal(ParsedPropertyView::apply);
    computed.stop_opacity = s.compute(&computed.stop_opacity, computed);
}

fn compute_stroke(s: &SpecifiedValue<Stroke>, computed: &mut ComputedValues)
    ensures
        final(computed)@ == ParsedPropertyView::Stroke(s@).apply(old(computed)@),
{
    reveal(ParsedPropertyView::apply);
    computed.stroke = s.compute(&computed.stroke, computed);
}

fn compute_stroke_dasharray(s: &SpecifiedValue<StrokeDasharray>, computed: &mut ComputedValues)
    ensures
        final(computed)@ == ParsedPropertyView::StrokeDasharray(s@).apply(old(computed)@),
{
    reveal(ParsedPropertyView::apply);
    computed.stroke_dasharray = s.compute(&computed.stroke_dasharray, computed);
}

fn compute_stroke_dashoffset(s: &SpecifiedValue<StrokeDashoffset>, computed: &mut ComputedValues)
    ensures
        final(computed)@ == ParsedPropertyView::StrokeDashoffset(s@).apply(old(computed)@),
{
    reveal(ParsedPropertyView::apply);
    computed.stroke_dashoffset = s.compute(&computed.stroke_dashoffset, computed);
}

fn compute_stroke_line_cap(s: &SpecifiedValue<StrokeLinecap>, computed: &mut ComputedValues)
    ensures
        final(computed)@ == ParsedPropertyView::StrokeLinecap(s@).apply(old(computed)@),
{
    reveal(ParsedPropertyView::apply);
    computed.stroke_line_cap = s.compute(&computed.stroke_line_cap, computed);
}

fn compute_stroke_line_join(s: &SpecifiedValue<StrokeLinejoin>, computed: &mut ComputedValues)
    ensures
        final(computed)@ == ParsedPropertyView::StrokeLinejoin(s@).apply(old(computed)@),
{
    reveal(ParsedPropertyView::apply);
    computed.stroke_line_join = s.compute(&computed.stroke_line_join, computed);
}

fn compute_stroke_opacity(s: &SpecifiedValue<StrokeOpacity>, computed: &mut ComputedValues)
    ensures
        final(computed)@ == ParsedPropertyView::StrokeOpacity(s@).apply(old(computed)@),
{
    reveal(ParsedPropertyView::apply);
    computed.stroke_opacity = s.compute(&computed.stroke_opacity, computed);
}

fn compute_stroke_miterlimit(s: &SpecifiedValue<StrokeMiterlimit>, computed: &mut ComputedValues)
    ensures
        final(computed)@ == ParsedPropertyView::StrokeMiterlimit(s@).apply(old(computed)@),
{
    reveal(ParsedPropertyView::apply);
    computed.stroke_miterlimit = s.compute(&computed.stroke_miterlimit, computed);
}

fn compute_stroke_width(s: &SpecifiedValue<StrokeWidth>, computed: &mut ComputedValues)
    ensures
        final(computed)@ == ParsedPropertyView::StrokeWidth(s@).apply(old(computed)@),
{
    reveal(ParsedPropertyView::apply);
    computed.stroke_width = s.compute(&computed.stroke_width, computed);
}

fn compute_text_anchor(s: &SpecifiedValue<TextAnchor>, computed: &mut ComputedValues)
    ensures
        final(computed)@ == ParsedPropertyView::TextAnchor(s@).apply(old(computed)@),
{
    reveal(ParsedPropertyView::apply);
    computed.text_anchor = s.compute(&computed.text_anchor, computed);
}

fn compute_text_decoration(s: &SpecifiedValue<TextDecoration>, computed: &mut ComputedValues)
    ensures
        final(computed)@ == ParsedPropertyView::TextDecoration(s@).apply(old(computed)@),
{
    reveal(ParsedPropertyView::apply);
    computed.text_decoration = s.compute(&computed.text_decoration, computed);
}

fn compute_text_rendering(s: &SpecifiedValue<TextRendering>, computed: &mut ComputedValues)
    ensures
        final(computed)@ == ParsedPropertyView::TextRendering(s@).apply(old(computed)@),
{
    reveal(ParsedPropertyView::apply);
    computed.text_rendering = s.compute(&computed.text_rendering, computed);
}

fn compute_unicode_bidi(s: &SpecifiedValue<UnicodeBidi>, computed: &mut ComputedValues)
    ensures
        final(computed)@ == ParsedPropertyView::UnicodeBidi(s@).apply(old(computed)@),
{
    reveal(ParsedPropertyView::apply);
    computed.unicode_bidi = s.compute(&computed.unicode_bidi, computed);
}

fn compute_visibility(s: &SpecifiedValue<Visibility>, computed: &mut ComputedValues)
    ensures
        final(computed)@ == ParsedPropertyView::Visibility(s@).apply(old(computed)@),
{
    reveal(ParsedPropertyView::apply);
    computed.visibility = s.compute(&computed.visibility, computed);
}

fn compute_writing_mode(s: &SpecifiedValue<WritingMode>, computed: &mut ComputedValues)
    ensures
        final(computed)@ == ParsedPropertyView::WritingMode(s@).apply(old(computed)@),
{
    reveal(ParsedPropertyView::apply);
    computed.writing_mode = s.compute(&computed.writing_mode, computed);
}

fn compute_xml_lang(s: &SpecifiedValue<XmlLang>, computed: &mut ComputedValues)
    ensures
        final(computed)@ == ParsedPropertyView::XmlLang(s@).apply(old(computed)@),
{
    reveal(ParsedPropertyView::apply);
    computed.xml_lang = s.compute(&computed.xml_lang, computed);
}

fn compute_xml_space(s: &SpecifiedValue<XmlSpace>, computed: &mut ComputedValues)
    ensures
        final(computed)@ == ParsedPropertyView::XmlSpace(s@).apply(old(computed)@),
{
    reveal(ParsedPropertyView::apply);
    computed.xml_space = s.compute(&computed.xml_space, computed);
}

impl ParsedProperty {
    pub fn get_property_id(&self) -> (id: PropertyId)
        ensures
            id == self@.id(),
            !(id is UnsetProperty),
    {
        match self {
            ParsedProperty::BaselineShift(_) => PropertyId::BaselineShift,
            ParsedProperty::ClipPath(_) => PropertyId::ClipPath,
            ParsedProperty::ClipRule(_) => PropertyId::ClipRule,
            ParsedProperty::Color(_) => PropertyId::Color,
            ParsedProperty::ColorInterpolationFilters(_) => PropertyId::ColorInterpolationFilters,
            ParsedProperty::Direction(_) => PropertyId::Direction,
            ParsedProperty::Display(_) => PropertyId::Display,
            ParsedProperty::EnableBackground(_) => PropertyId::EnableBackground,
            ParsedProperty::Fill(_) => PropertyId::Fill,
            ParsedProperty::FillOpacity(_) => PropertyId::FillOpacity,
            ParsedProperty::FillRule(_) => PropertyId::FillRule,
            ParsedProperty::Filter(_) => PropertyId::Filter,
            ParsedProperty::FloodColor(_) => PropertyId::FloodColor,
            ParsedProperty::FloodOpacity(_) => PropertyId::FloodOpacity,
            ParsedProperty::FontFamily(_) => PropertyId::FontFamily,
            ParsedProperty::FontSize(_) => PropertyId::FontSize,
            ParsedProperty::FontStretch(_) => PropertyId::FontStretch,
            ParsedProperty::FontStyle(_) => PropertyId::FontStyle,
            ParsedProperty::FontVariant(_) => PropertyId::FontVariant,
            ParsedProperty::FontWeight(_) => PropertyId::FontWeight,
            ParsedProperty::LetterSpacing(_) => PropertyId::LetterSpacing,
            ParsedProperty::LightingColor(_) => PropertyId::LightingColor,
            ParsedProperty::Marker(_) => PropertyId::Marker,
            ParsedProperty::MarkerEnd(_) => PropertyId::MarkerEnd,
            ParsedProperty::MarkerMid(_) => PropertyId::MarkerMid,
            ParsedProperty::MarkerStart(_) => PropertyId::MarkerStart,
            ParsedProperty::Mask(_) => PropertyId::Mask,
            ParsedProperty::Opacity(_) => PropertyId::Opacity,
            ParsedProperty::Overflow(_) => PropertyId::Overflow,
            ParsedProperty::ShapeRendering(_) => PropertyId::ShapeRendering,
            ParsedProperty::StopColor(_) => PropertyId::StopColor,
            ParsedProperty::StopOpacity(_) => PropertyId::StopOpacity,
            ParsedProperty::Stroke(_) => PropertyId::Stroke,
            ParsedProperty::StrokeDasharray(_) => PropertyId::StrokeDasharray,
            ParsedProperty::StrokeDashoffset(_) => PropertyId::StrokeDashoffset,
            ParsedProperty::StrokeLinecap(_) => PropertyId::StrokeLinecap,
            ParsedProperty::StrokeLinejoin(_) => PropertyId::StrokeLinejoin,
            ParsedProperty::StrokeOpacity(_) => PropertyId::StrokeOpacity,
            ParsedProperty::StrokeMiterlimit(_) => PropertyId::StrokeMiterlimit,
            ParsedProperty::StrokeWidth(_) => PropertyId::StrokeWidth,
            ParsedProperty::TextAnchor(_) => PropertyId::TextAnchor,
            ParsedProperty::TextDecoration(_) => PropertyId::TextDecoration,
            ParsedProperty::TextRendering(_) => PropertyId::TextRendering,
            ParsedProperty::UnicodeBidi(_) => PropertyId::UnicodeBidi,
            ParsedProperty::Visibility(_) => PropertyId::Visibility,
            ParsedProperty::WritingMode(_) => PropertyId::WritingMode,
            ParsedProperty::XmlLang(_) => PropertyId::XmlLang,
            ParsedProperty::XmlSpace(_) => PropertyId::XmlSpace,
        }
    }

    /// The declaration of the property `id` that declares nothing.
    pub fn unspecified(id: PropertyId) -> (p: ParsedProperty)
        ensures
            p@ == ParsedPropertyView::unspecified(id),
    {
        match id {
            PropertyId::BaselineShift => ParsedProperty::BaselineShift(SpecifiedValue::Unspecified),
            PropertyId::ClipPath => ParsedProperty::ClipPath(SpecifiedValue::Unspecified),
            PropertyId::ClipRule => ParsedProperty::ClipRule(SpecifiedValue::Unspecified),
            PropertyId::Color => ParsedProperty::Color(SpecifiedValue::Unspecified),
            PropertyId::ColorInterpolationFilters => ParsedProperty::ColorInterpolationFilters(SpecifiedValue::Unspecified),
            PropertyId::Direction => ParsedProperty::Direction(SpecifiedValue::Unspecified),
            PropertyId::Display => ParsedProperty::Display(SpecifiedValue::Unspecified),
            PropertyId::EnableBackground => ParsedProperty::EnableBackground(SpecifiedValue::Unspecified),
            PropertyId::Fill => ParsedProperty::Fill(SpecifiedValue::Unspecified),
            PropertyId::FillOpacity => ParsedProperty::FillOpacity(SpecifiedValue::Unspecified),
            PropertyId::FillRule => ParsedProperty::FillRule(SpecifiedValue::Unspecified),
            PropertyId::Filter => ParsedProperty::Filter(SpecifiedValue::Unspecified),
            PropertyId::FloodColor => ParsedProperty::FloodColor(SpecifiedValue::Unspecified),
            PropertyId::FloodOpacity => ParsedProperty::FloodOpacity(SpecifiedValue::Unspecified),
            PropertyId::FontFamily => ParsedProperty::FontFamily(SpecifiedValue::Unspecified),
            PropertyId::FontSize => ParsedProperty::FontSize(SpecifiedValue::Unspecified),
            PropertyId::FontStretch => ParsedProperty::FontStretch(SpecifiedValue::Unspecified),
            PropertyId::FontStyle => ParsedProperty::FontStyle(SpecifiedValue::Unspecified),
            PropertyId::FontVariant => ParsedProperty::FontVariant(SpecifiedValue::Unspecified),
            PropertyId::FontWeight => ParsedProperty::FontWeight(SpecifiedValue::Unspecified),
            PropertyId::LetterSpacing => ParsedProperty::LetterSpacing(SpecifiedValue::Unspecified),
            PropertyId::LightingColor => ParsedProperty::LightingColor(SpecifiedValue::Unspecified),
            PropertyId::MarkerEnd => ParsedProperty::MarkerEnd(SpecifiedValue::Unspecified),
            PropertyId::MarkerMid => ParsedProperty::MarkerMid(SpecifiedValue::Unspecified),
            PropertyId::MarkerStart => ParsedProperty::MarkerStart(SpecifiedValue::Unspecified),
            PropertyId::Mask => ParsedProperty::Mask(SpecifiedValue::Unspecified),
            PropertyId::Opacity => ParsedProperty::Opacity(SpecifiedValue::Unspecified),
            PropertyId::Overflow => ParsedProperty::Overflow(SpecifiedValue::Unspecified),
            PropertyId::ShapeRendering => ParsedProperty::ShapeRendering(SpecifiedValue::Unspecified),
            PropertyId::StopColor => ParsedProperty::StopColor(SpecifiedValue::Unspecified),
            PropertyId::StopOpacity => ParsedProperty::StopOpacity(SpecifiedValue::Unspecified),
            PropertyId::Stroke => ParsedProperty::Stroke(SpecifiedValue::Unspecified),
            PropertyId::StrokeDasharray => ParsedProperty::StrokeDasharray(SpecifiedValue::Unspecified),
            PropertyId::StrokeDashoffset => ParsedProperty::StrokeDashoffset(SpecifiedValue::Unspecified),
            PropertyId::StrokeLinecap => ParsedProperty::StrokeLinecap(SpecifiedValue::Unspecified),
            PropertyId::StrokeLinejoin => ParsedProperty::StrokeLinejoin(SpecifiedValue::Unspecified),
            PropertyId::StrokeOpacity => ParsedProperty::StrokeOpacity(SpecifiedValue::Unspecified),
            PropertyId::StrokeMiterlimit => ParsedProperty::StrokeMiterlimit(SpecifiedValue::Unspecified),
            PropertyId::StrokeWidth => ParsedProperty::StrokeWidth(SpecifiedValue::Unspecified),
            PropertyId::TextAnchor => ParsedProperty::TextAnchor(SpecifiedValue::Unspecified),
            PropertyId::TextDecoration => ParsedProperty::TextDecoration(SpecifiedValue::Unspecified),
            PropertyId::TextRendering => ParsedProperty::TextRendering(SpecifiedValue::Unspecified),
            PropertyId::UnicodeBidi => ParsedProperty::UnicodeBidi(SpecifiedValue::Unspecified),
            PropertyId::Visibility => ParsedProperty::Visibility(SpecifiedValue::Unspecified),
            PropertyId::WritingMode => ParsedProperty::WritingMode(SpecifiedValue::Unspecified),
            PropertyId::XmlLang => ParsedProperty::XmlLang(SpecifiedValue::Unspecified),
            PropertyId::XmlSpace => ParsedProperty::XmlSpace(SpecifiedValue::Unspecified),
            PropertyId::Marker | PropertyId::UnsetProperty => ParsedProperty::Marker(
                SpecifiedValue::Unspecified,
            ),
        }
    }

    /// Computes the value of the declared property and puts it in its place
    /// in `computed`, which holds the value of the parent there and, in the
    /// other places, what has been computed for the element so far.
    pub fn apply(&self, computed: &mut ComputedValues)
        ensures
            final(computed)@ == self@.apply(old(computed)@),
    {
        match self {
            ParsedProperty::BaselineShift(s) => compute_baseline_shift(s, computed),
            ParsedProperty::ClipPath(s) => compute_clip_path(s, computed),
            ParsedProperty::ClipRule(s) => compute_clip_rule(s, computed),
            ParsedProperty::Color(s) => compute_color(s, computed),
            ParsedProperty::ColorInterpolationFilters(s) => compute_color_interpolation_filters(s, computed),
            ParsedProperty::Direction(s) => compute_direction(s, computed),
            ParsedProperty::Display(s) => compute_display(s, computed),
            ParsedProperty::EnableBackground(s) => compute_enable_background(s, computed),
            ParsedProperty::Fill(s) => compute_fill(s, computed),
            ParsedProperty::FillOpacity(s) => compute_fill_opacity(s, computed),
            ParsedProperty::FillRule(s) => compute_fill_rule(s, computed),
            ParsedProperty::Filter(s) => compute_filter(s, computed),
            ParsedProperty::FloodColor(s) => compute_flood_color(s, computed),
            ParsedProperty::FloodOpacity(s) => compute_flood_opacity(s, computed),
            ParsedProperty::FontFamily(s) => compute_font_family(s, computed),
            ParsedProperty::FontSize(s) => compute_font_size(s, computed),
            ParsedProperty::FontStretch(s) => compute_font_stretch(s, computed),
            ParsedProperty::FontStyle(s) => compute_font_style(s, computed),
            ParsedProperty::FontVariant(s) => compute_font_variant(s, computed),
            ParsedProperty::FontWeight(s) => compute_font_weight(s, computed),
            ParsedProperty::LetterSpacing(s) => compute_letter_spacing(s, computed),
            ParsedProperty::LightingColor(s) => compute_lighting_color(s, computed),
            ParsedProperty::Marker(_) => {
                reveal(ParsedPropertyView::apply);
            },
            ParsedProperty::MarkerEnd(s) => compute_marker_end(s, computed),
            ParsedProperty::MarkerMid(s) => compute_marker_mid(s, computed),
            ParsedProperty::MarkerStart(s) => compute_marker_start(s, computed),
            ParsedProperty::Mask(s) => compute_mask(s, computed),
            ParsedProperty::Opacity(s) => compute_opacity(s, computed),
            ParsedProperty::Overflow(s) => compute_overflow(s, computed),
            ParsedProperty::ShapeRendering(s) => compute_shape_rendering(s, computed),
            ParsedProperty::StopColor(s) => compute_stop_color(s, computed),
            ParsedProperty::StopOpacity(s) => compute_stop_opacity(s, computed),
            ParsedProperty::Stroke(s) => compute_stroke(s, computed),
            ParsedProperty::StrokeDasharray(s) => compute_stroke_dasharray(s, computed),
            ParsedProperty::StrokeDashoffset(s) => compute_stroke_dashoffset(s, computed),
            ParsedProperty::StrokeLinecap(s) => compute_stroke_line_cap(s, computed),
            ParsedProperty::StrokeLinejoin(s) => compute_stroke_line_join(s, computed),
            ParsedProperty::StrokeOpacity(s) => compute_stroke_opacity(s, computed),
            ParsedProperty::StrokeMiterlimit(s) => compute_stroke_miterlimit(s, computed),
            ParsedProperty::StrokeWidth(s) => compute_stroke_width(s, computed),
            ParsedProperty::TextAnchor(s) => compute_text_anchor(s, computed),
            ParsedProperty::TextDecoration(s) => compute_text_decoration(s, computed),
            ParsedProperty::TextRendering(s) => compute_text_rendering(s, computed),
            ParsedProperty::UnicodeBidi(s) => compute_unicode_bidi(s, computed),
            ParsedProperty::Visibility(s) => compute_visibility(s, computed),
            ParsedProperty::WritingMode(s) => compute_writing_mode(s, computed),
            ParsedProperty::XmlLang(s) => compute_xml_lang(s, computed),
            ParsedProperty::XmlSpace(s) => compute_xml_space(s, computed),
        }
    }

    pub fn duplicate(&self) -> (p: ParsedProperty)
        ensures
            p@ == self@,
    {
        match self {
            ParsedProperty::BaselineShift(s) => ParsedProperty::BaselineShift(s.duplicate()),
            ParsedProperty::ClipPath(s) => ParsedProperty::ClipPath(s.duplicate()),
            ParsedProperty::ClipRule(s) => ParsedProperty::ClipRule(s.duplicate()),
            ParsedProperty::Color(s) => ParsedProperty::Color(s.duplicate()),
            ParsedProperty::ColorInterpolationFilters(s) => ParsedProperty::ColorInterpolationFilters(s.duplicate()),
            ParsedProperty::Direction(s) => ParsedProperty::Direction(s.duplicate()),
            ParsedProperty::Display(s) => ParsedProperty::Display(s.duplicate()),
            ParsedProperty::EnableBackground(s) => ParsedProperty::EnableBackground(s.duplicate()),
            ParsedProperty::Fill(s) => ParsedProperty::Fill(s.duplicate()),
            ParsedProperty::FillOpacity(s) => ParsedProperty::FillOpacity(s.duplicate()),
            ParsedProperty::FillRule(s) => ParsedProperty::FillRule(s.duplicate()),
            ParsedProperty::Filter(s) => ParsedProperty::Filter(s.duplicate()),
            ParsedProperty::FloodColor(s) => ParsedProperty::FloodColor(s.duplicate()),
            ParsedProperty::FloodOpacity(s) => ParsedProperty::FloodOpacity(s.duplicate()),
            ParsedProperty::FontFamily(s) => ParsedProperty::FontFamily(s.duplicate()),
            ParsedProperty::FontSize(s) => ParsedProperty::FontSize(s.duplicate()),
            ParsedProperty::FontStretch(s) => ParsedProperty::FontStretch(s.duplicate()),
            ParsedProperty::FontStyle(s) => ParsedProperty::FontStyle(s.duplicate()),
            ParsedProperty::FontVariant(s) => ParsedProperty::FontVariant(s.duplicate()),
            ParsedProperty::FontWeight(s) => ParsedProperty::FontWeight(s.duplicate()),
            ParsedProperty::LetterSpacing(s) => ParsedProperty::LetterSpacing(s.duplicate()),
            ParsedProperty::LightingColor(s) => ParsedProperty::LightingColor(s.duplicate()),
            ParsedProperty::Marker(s) => ParsedProperty::Marker(s.duplicate()),
            ParsedProperty::MarkerEnd(s) => ParsedProperty::MarkerEnd(s.duplicate()),
            ParsedProperty::MarkerMid(s) => ParsedProperty::MarkerMid(s.duplicate()),
            ParsedProperty::MarkerStart(s) => ParsedProperty::MarkerStart(s.duplicate()),
            ParsedProperty::Mask(s) => ParsedProperty::Mask(s.duplicate()),
            ParsedProperty::Opacity(s) => ParsedProperty::Opacity(s.duplicate()),
            ParsedProperty::Overflow(s) => ParsedProperty::Overflow(s.duplicate()),
            ParsedProperty::ShapeRendering(s) => ParsedProperty::ShapeRendering(s.duplicate()),
            ParsedProperty::StopColor(s) => ParsedProperty::StopColor(s.duplicate()),
            ParsedProperty::StopOpacity(s) => ParsedProperty::StopOpacity(s.duplicate()),
            ParsedProperty::Stroke(s) => ParsedProperty::Stroke(s.duplicate()),
            ParsedProperty::StrokeDasharray(s) => ParsedProperty::StrokeDasharray(s.duplicate()),
            ParsedProperty::StrokeDashoffset(s) => ParsedProperty::StrokeDashoffset(s.duplicate()),
            ParsedProperty::StrokeLinecap(s) => ParsedProperty::StrokeLinecap(s.duplicate()),
            ParsedProperty::StrokeLinejoin(s) => ParsedProperty::StrokeLinejoin(s.duplicate()),
            ParsedProperty::StrokeOpacity(s) => ParsedProperty::StrokeOpacity(s.duplicate()),
            ParsedProperty::StrokeMiterlimit(s) => ParsedProperty::StrokeMiterlimit(s.duplicate()),
            ParsedProperty::StrokeWidth(s) => ParsedProperty::StrokeWidth(s.duplicate()),
            ParsedProperty::TextAnchor(s) => ParsedProperty::TextAnchor(s.duplicate()),
            ParsedProperty::TextDecoration(s) => ParsedProperty::TextDecoration(s.duplicate()),
            ParsedProperty::TextRendering(s) => ParsedProperty::TextRendering(s.duplicate()),
            ParsedProperty::UnicodeBidi(s) => ParsedProperty::UnicodeBidi(s.duplicate()),
            ParsedProperty::Visibility(s) => ParsedProperty::Visibility(s.duplicate()),
            ParsedProperty::WritingMode(s) => ParsedProperty::WritingMode(s.duplicate()),
            ParsedProperty::XmlLang(s) => ParsedProperty::XmlLang(s.duplicate()),
            ParsedProperty::XmlSpace(s) => ParsedProperty::XmlSpace(s.duplicate()),
        }
    }
}

} // verus!
