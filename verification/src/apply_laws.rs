//! What computing the value of one property does to the computed values of
//! an element: kind by kind, and then for every kind.

use crate::computed::ComputedValuesView;
use crate::dasharray::DasharrayView;
use crate::iri::IriView;
use crate::paint_server::PaintServerView;
use crate::parsed::{Declared, ParsedPropertyView};
use crate::property::SpecifiedValue;
use crate::property_defs::{
    BaselineShift, ClipPath, ClipRule, Color, ColorInterpolationFilters, Direction, Display,
    EnableBackground, Fill, FillOpacity, FillRule, Filter, FloodColor, FloodOpacity, FontFamily,
    FontSize, FontStretch, FontStyle, FontVariant, FontWeight, LetterSpacing, LightingColor,
    MarkerEnd, MarkerMid, MarkerStart, Mask, Opacity, Overflow, ShapeRendering, StopColor,
    StopOpacity, Stroke, StrokeDasharray, StrokeDashoffset, StrokeLinecap, StrokeLinejoin,
    StrokeMiterlimit, StrokeOpacity, StrokeWidth, TextAnchor, TextDecoration, TextRendering,
    UnicodeBidi, Visibility, WritingMode, XmlLang, XmlSpace,
};
use crate::property_id::PropertyId;
use vstd::prelude::*;

verus! {

/// What holds of a declaration `p` that is computed on top of the values `c`:
/// the values of the other properties stay; the new value is the same on
/// top of any values that agree with `c` in the property and in the font
/// size; and it is what the state of the declared value asks for.
pub open spec fn applies_well(p: ParsedPropertyView, c: ComputedValuesView) -> bool {
    &&& forall|id: PropertyId| id != p.id() ==> #[trigger] p.apply(c).get(id) == c.get(id)
    &&& forall|d: ComputedValuesView|
        d.get(p.id()) == c.get(p.id()) && d.font_size == c.font_size ==> (#[trigger] p.apply(d)).get(
            p.id(),
        ) == p.apply(c).get(p.id())
    &&& result_is_as_declared(p, c)
}

/// Whether the value of the property `id` in `c` is one that computing it
/// anew leaves as it is. That holds of every value but a font size that
/// is no length, or a length that depends on another, and a baseline shift
/// that is a percentage.
pub open spec fn is_settled(c: ComputedValuesView, id: PropertyId) -> bool {
    &&& id is FontSize ==> c.font_size_is_settled()
    &&& id is BaselineShift ==> c.baseline_shift_is_settled()
}

/// Whether the new value of the property of `p` is what the state of the
/// declared value asks for. Where the parent's value is taken over, it is
/// taken over as it is, provided that it is settled. Where a value is
/// specified, it is taken as it is, but for the two kinds whose values are
/// finished against the font size. Where nothing is declared of a property
/// that is not inherited, the initial value is taken.
pub open spec fn result_is_as_declared(p: ParsedPropertyView, c: ComputedValuesView) -> bool {
    let id = p.id();
    let new = p.apply(c).get(id);
    match p.state() {
        Declared::Inherit => is_settled(c, id) ==> new == c.get(id),
        Declared::Unspecified => if id.inherits_automatically() {
            is_settled(c, id) ==> new == c.get(id)
        } else {
            new == ComputedValuesView::initial().get(id)
        },
        Declared::Specified => !(id is FontSize) && !(id is BaselineShift) ==> new == p,
    }
}

proof fn lemma_baseline_shift(s: SpecifiedValue<BaselineShift>, c: ComputedValuesView)
    ensures
        applies_well(ParsedPropertyView::BaselineShift(s), c),
{
    reveal(ParsedPropertyView::apply);
}

proof fn lemma_clip_path(s: SpecifiedValue<IriView>, c: ComputedValuesView)
    ensures
        applies_well(ParsedPropertyView::ClipPath(s), c),
{
    reveal(ParsedPropertyView::apply);
}

proof fn lemma_clip_rule(s: SpecifiedValue<ClipRule>, c: ComputedValuesView)
    ensures
        applies_well(ParsedPropertyView::ClipRule(s), c),
{
    reveal(ParsedPropertyView::apply);
}

proof fn lemma_color(s: SpecifiedValue<Color>, c: ComputedValuesView)
    ensures
        applies_well(ParsedPropertyView::Color(s), c),
{
    reveal(ParsedPropertyView::apply);
}

proof fn lemma_color_interpolation_filters(s: SpecifiedValue<ColorInterpolationFilters>, c: ComputedValuesView)
    ensures
        applies_well(ParsedPropertyView::ColorInterpolationFilters(s), c),
{
    reveal(ParsedPropertyView::apply);
}

proof fn lemma_direction(s: SpecifiedValue<Direction>, c: ComputedValuesView)
    ensures
        applies_well(ParsedPropertyView::Direction(s), c),
{
    reveal(ParsedPropertyView::apply);
}

proof fn lemma_display(s: SpecifiedValue<Display>, c: ComputedValuesView)
    ensures
        applies_well(ParsedPropertyView::Display(s), c),
{
    reveal(ParsedPropertyView::apply);
}

proof fn lemma_enable_background(s: SpecifiedValue<EnableBackground>, c: ComputedValuesView)
    ensures
        applies_well(ParsedPropertyView::EnableBackground(s), c),
{
    reveal(ParsedPropertyView::apply);
}

proof fn lemma_fill(s: SpecifiedValue<PaintServerView>, c: ComputedValuesView)
    ensures
        applies_well(ParsedPropertyView::Fill(s), c),
{
    reveal(ParsedPropertyView::apply);
}

proof fn lemma_fill_opacity(s: SpecifiedValue<FillOpacity>, c: ComputedValuesView)
    ensures
        applies_well(ParsedPropertyView::FillOpacity(s), c),
{
    reveal(ParsedPropertyView::apply);
}

proof fn lemma_fill_rule(s: SpecifiedValue<FillRule>, c: ComputedValuesView)
    ensures
        applies_well(ParsedPropertyView::FillRule(s), c),
{
    reveal(ParsedPropertyView::apply);
}

proof fn lemma_filter(s: SpecifiedValue<IriView>, c: ComputedValuesView)
    ensures
        applies_well(ParsedPropertyView::Filter(s), c),
{
    reveal(ParsedPropertyView::apply);
}

proof fn lemma_flood_color(s: SpecifiedValue<FloodColor>, c: ComputedValuesView)
    ensures
        applies_well(ParsedPropertyView::FloodColor(s), c),
{
    reveal(ParsedPropertyView::apply);
}

proof fn lemma_flood_opacity(s: SpecifiedValue<FloodOpacity>, c: ComputedValuesView)
    ensures
        applies_well(ParsedPropertyView::FloodOpacity(s), c),
{
    reveal(ParsedPropertyView::apply);
}

proof fn lemma_font_family(s: SpecifiedValue<Seq<char>>, c: ComputedValuesView)
    ensures
        applies_well(ParsedPropertyView::FontFamily(s), c),
{
    reveal(ParsedPropertyView::apply);
}

proof fn lemma_font_size(s: SpecifiedValue<FontSize>, c: ComputedValuesView)
    ensures
        applies_well(ParsedPropertyView::FontSize(s), c),
{
    reveal(ParsedPropertyView::apply);
}

proof fn lemma_font_stretch(s: SpecifiedValue<FontStretch>, c: ComputedValuesView)
    ensures
        applies_well(ParsedPropertyView::FontStretch(s), c),
{
    reveal(ParsedPropertyView::apply);
}

proof fn lemma_font_style(s: SpecifiedValue<FontStyle>, c: ComputedValuesView)
    ensures
        applies_well(ParsedPropertyView::FontStyle(s), c),
{
    reveal(ParsedPropertyView::apply);
}

proof fn lemma_font_variant(s: SpecifiedValue<FontVariant>, c: ComputedValuesView)
    ensures
        applies_well(ParsedPropertyView::FontVariant(s), c),
{
    reveal(ParsedPropertyView::apply);
}

proof fn lemma_font_weight(s: SpecifiedValue<FontWeight>, c: ComputedValuesView)
    ensures
        applies_well(ParsedPropertyView::FontWeight(s), c),
{
    reveal(ParsedPropertyView::apply);
}

proof fn lemma_letter_spacing(s: SpecifiedValue<LetterSpacing>, c: ComputedValuesView)
    ensures
        applies_well(ParsedPropertyView::LetterSpacing(s), c),
{
    reveal(ParsedPropertyView::apply);
}

proof fn lemma_lighting_color(s: SpecifiedValue<LightingColor>, c: ComputedValuesView)
    ensures
        applies_well(ParsedPropertyView::LightingColor(s), c),
{
    reveal(ParsedPropertyView::apply);
}

proof fn lemma_marker_end(s: SpecifiedValue<IriView>, c: ComputedValuesView)
    ensures
        applies_well(ParsedPropertyView::MarkerEnd(s), c),
{
    reveal(ParsedPropertyView::apply);
}

proof fn lemma_marker_mid(s: SpecifiedValue<IriView>, c: ComputedValuesView)
    ensures
        applies_well(ParsedPropertyView::MarkerMid(s), c),
{
    reveal(ParsedPropertyView::apply);
}

proof fn lemma_marker_start(s: SpecifiedValue<IriView>, c: ComputedValuesView)
    ensures
        applies_well(ParsedPropertyView::MarkerStart(s), c),
{
    reveal(ParsedPropertyView::apply);
}

proof fn lemma_mask(s: SpecifiedValue<IriView>, c: ComputedValuesView)
    ensures
        applies_well(ParsedPropertyView::Mask(s), c),
{
    reveal(ParsedPropertyView::apply);
}

proof fn lemma_opacity(s: SpecifiedValue<Opacity>, c: ComputedValuesView)
    ensures
        applies_well(ParsedPropertyView::Opacity(s), c),
{
    reveal(ParsedPropertyView::apply);
}

proof fn lemma_overflow(s: SpecifiedValue<Overflow>, c: ComputedValuesView)
    ensures
        applies_well(ParsedPropertyView::Overflow(s), c),
{
    reveal(ParsedPropertyView::apply);
}

proof fn lemma_shape_rendering(s: SpecifiedValue<ShapeRendering>, c: ComputedValuesView)
    ensures
        applies_well(ParsedPropertyView::ShapeRendering(s), c),
{
    reveal(ParsedPropertyView::apply);
}

proof fn lemma_stop_color(s: SpecifiedValue<StopColor>, c: ComputedValuesView)
    ensures
        applies_well(ParsedPropertyView::StopColor(s), c),
{
    reveal(ParsedPropertyView::apply);
}

proof fn lemma_stop_opacity(s: SpecifiedValue<StopOpacity>, c: ComputedValuesView)
    ensures
        applies_well(ParsedPropertyView::StopOpacity(s), c),
{
    reveal(ParsedPropertyView::apply);
}

proof fn lemma_stroke(s: SpecifiedValue<PaintServerView>, c: ComputedValuesView)
    ensures
        applies_well(ParsedPropertyView::Stroke(s), c),
{
    reveal(ParsedPropertyView::apply);
}

proof fn lemma_stroke_dasharray(s: SpecifiedValue<DasharrayView>, c: ComputedValuesView)
    ensures
        applies_well(ParsedPropertyView::StrokeDasharray(s), c),
{
    reveal(ParsedPropertyView::apply);
}

proof fn lemma_stroke_dashoffset(s: SpecifiedValue<StrokeDashoffset>, c: ComputedValuesView)
    ensures
        applies_well(ParsedPropertyView::StrokeDashoffset(s), c),
{
    reveal(ParsedPropertyView::apply);
}

proof fn lemma_stroke_line_cap(s: SpecifiedValue<StrokeLinecap>, c: ComputedValuesView)
    ensures
        applies_well(ParsedPropertyView::StrokeLinecap(s), c),
{
    reveal(ParsedPropertyView::apply);
}

proof fn lemma_stroke_line_join(s: SpecifiedValue<StrokeLinejoin>, c: ComputedValuesView)
    ensures
        applies_well(ParsedPropertyView::StrokeLinejoin(s), c),
{
    reveal(ParsedPropertyView::apply);
}

proof fn lemma_stroke_opacity(s: SpecifiedValue<StrokeOpacity>, c: ComputedValuesView)
    ensures
        applies_well(ParsedPropertyView::StrokeOpacity(s), c),
{
    reveal(ParsedPropertyView::apply);
}

proof fn lemma_stroke_miterlimit(s: SpecifiedValue<StrokeMiterlimit>, c: ComputedValuesView)
    ensures
        applies_well(ParsedPropertyView::StrokeMiterlimit(s), c),
{
    reveal(ParsedPropertyView::apply);
}

proof fn lemma_stroke_width(s: SpecifiedValue<StrokeWidth>, c: ComputedValuesView)
    ensures
        applies_well(ParsedPropertyView::StrokeWidth(s), c),
{
    reveal(ParsedPropertyView::apply);
}

proof fn lemma_text_anchor(s: SpecifiedValue<TextAnchor>, c: ComputedValuesView)
    ensures
        applies_well(ParsedPropertyView::TextAnchor(s), c),
{
    reveal(ParsedPropertyView::apply);
}

proof fn lemma_text_decoration(s: SpecifiedValue<TextDecoration>, c: ComputedValuesView)
    ensures
        applies_well(ParsedPropertyView::TextDecoration(s), c),
{
    reveal(ParsedPropertyView::apply);
}

proof fn lemma_text_rendering(s: SpecifiedValue<TextRendering>, c: ComputedValuesView)
    ensures
        applies_well(ParsedPropertyView::TextRendering(s), c),
{
    reveal(ParsedPropertyView::apply);
}

proof fn lemma_unicode_bidi(s: SpecifiedValue<UnicodeBidi>, c: ComputedValuesView)
    ensures
        applies_well(ParsedPropertyView::UnicodeBidi(s), c),
{
    reveal(ParsedPropertyView::apply);
}

proof fn lemma_visibility(s: SpecifiedValue<Visibility>, c: ComputedValuesView)
    ensures
        applies_well(ParsedPropertyView::Visibility(s), c),
{
    reveal(ParsedPropertyView::apply);
}

proof fn lemma_writing_mode(s: SpecifiedValue<WritingMode>, c: ComputedValuesView)
    ensures
        applies_well(ParsedPropertyView::WritingMode(s), c),
{
    reveal(ParsedPropertyView::apply);
}

proof fn lemma_xml_lang(s: SpecifiedValue<Seq<char>>, c: ComputedValuesView)
    ensures
        applies_well(ParsedPropertyView::XmlLang(s), c),
{
    reveal(ParsedPropertyView::apply);
}

proof fn lemma_xml_space(s: SpecifiedValue<XmlSpace>, c: ComputedValuesView)
    ensures
        applies_well(ParsedPropertyView::XmlSpace(s), c),
{
    reveal(ParsedPropertyView::apply);
}

/// Every declaration of a property with a computed value applies well.
pub proof fn lemma_applies_well(p: ParsedPropertyView, c: ComputedValuesView)
    requires
        p.id().is_longhand(),
    ensures
        applies_well(p, c),
{
    match p {
        ParsedPropertyView::BaselineShift(s) => lemma_baseline_shift(s, c),
        ParsedPropertyView::ClipPath(s) => lemma_clip_path(s, c),
        ParsedPropertyView::ClipRule(s) => lemma_clip_rule(s, c),
        ParsedPropertyView::Color(s) => lemma_color(s, c),
        ParsedPropertyView::ColorInterpolationFilters(s) => lemma_color_interpolation_filters(s, c),
        ParsedPropertyView::Direction(s) => lemma_direction(s, c),
        ParsedPropertyView::Display(s) => lemma_display(s, c),
        ParsedPropertyView::EnableBackground(s) => lemma_enable_background(s, c),
        ParsedPropertyView::Fill(s) => lemma_fill(s, c),
        ParsedPropertyView::FillOpacity(s) => lemma_fill_opacity(s, c),
        ParsedPropertyView::FillRule(s) => lemma_fill_rule(s, c),
        ParsedPropertyView::Filter(s) => lemma_filter(s, c),
        ParsedPropertyView::FloodColor(s) => lemma_flood_color(s, c),
        ParsedPropertyView::FloodOpacity(s) => lemma_flood_opacity(s, c),
        ParsedPropertyView::FontFamily(s) => lemma_font_family(s, c),
        ParsedPropertyView::FontSize(s) => lemma_font_size(s, c),
        ParsedPropertyView::FontStretch(s) => lemma_font_stretch(s, c),
        ParsedPropertyView::FontStyle(s) => lemma_font_style(s, c),
        ParsedPropertyView::FontVariant(s) => lemma_font_variant(s, c),
        ParsedPropertyView::FontWeight(s) => lemma_font_weight(s, c),
        ParsedPropertyView::LetterSpacing(s) => lemma_letter_spacing(s, c),
        ParsedPropertyView::LightingColor(s) => lemma_lighting_color(s, c),
        ParsedPropertyView::Marker(_) => {},
        ParsedPropertyView::MarkerEnd(s) => lemma_marker_end(s, c),
        ParsedPropertyView::MarkerMid(s) => lemma_marker_mid(s, c),
        ParsedPropertyView::MarkerStart(s) => lemma_marker_start(s, c),
        ParsedPropertyView::Mask(s) => lemma_mask(s, c),
        ParsedPropertyView::Opacity(s) => lemma_opacity(s, c),
        ParsedPropertyView::Overflow(s) => lemma_overflow(s, c),
        ParsedPropertyView::ShapeRendering(s) => lemma_shape_rendering(s, c),
        ParsedPropertyView::StopColor(s) => lemma_stop_color(s, c),
        ParsedPropertyView::StopOpacity(s) => lemma_stop_opacity(s, c),
        ParsedPropertyView::Stroke(s) => lemma_stroke(s, c),
        ParsedPropertyView::StrokeDasharray(s) => lemma_stroke_dasharray(s, c),
        ParsedPropertyView::StrokeDashoffset(s) => lemma_stroke_dashoffset(s, c),
        ParsedPropertyView::StrokeLinecap(s) => lemma_stroke_line_cap(s, c),
        ParsedPropertyView::StrokeLinejoin(s) => lemma_stroke_line_join(s, c),
        ParsedPropertyView::StrokeOpacity(s) => lemma_stroke_opacity(s, c),
        ParsedPropertyView::StrokeMiterlimit(s) => lemma_stroke_miterlimit(s, c),
        ParsedPropertyView::StrokeWidth(s) => lemma_stroke_width(s, c),
        ParsedPropertyView::TextAnchor(s) => lemma_text_anchor(s, c),
        ParsedPropertyView::TextDecoration(s) => lemma_text_decoration(s, c),
        ParsedPropertyView::TextRendering(s) => lemma_text_rendering(s, c),
        ParsedPropertyView::UnicodeBidi(s) => lemma_unicode_bidi(s, c),
        ParsedPropertyView::Visibility(s) => lemma_visibility(s, c),
        ParsedPropertyView::WritingMode(s) => lemma_writing_mode(s, c),
        ParsedPropertyView::XmlLang(s) => lemma_xml_lang(s, c),
        ParsedPropertyView::XmlSpace(s) => lemma_xml_space(s, c),
    }
}

} // verus!
