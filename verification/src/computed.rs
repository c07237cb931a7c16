//! The computed values of an element: one value of every property.

use crate::dasharray::DasharrayView;
use crate::font::FontSizeSpec;
use crate::iri::IriView;
use crate::paint_server::PaintServerView;
use crate::property::Property;
use crate::property_defs::{
    BaselineShift, ClipPath, ClipRule, Color, ColorInterpolationFilters, Direction, Display,
    EnableBackground, Fill, FillOpacity, FillRule, Filter, FloodColor, FloodOpacity, FontFamily,
    FontSize, FontStretch, FontStyle, FontVariant, FontWeight, LetterSpacing, LightingColor,
    MarkerEnd, MarkerMid, MarkerStart, Mask, Opacity, Overflow, ShapeRendering, StopColor,
    StopOpacity, Stroke, StrokeDasharray, StrokeDashoffset, StrokeLinecap, StrokeLinejoin,
    StrokeMiterlimit, StrokeOpacity, StrokeWidth, TextAnchor, TextDecoration, TextRendering,
    UnicodeBidi, Visibility, WritingMode, XmlLang, XmlSpace,
};
use vstd::prelude::*;

verus! {

/// The value that an element has of each property, once what it declares has
/// been resolved against its parent.
#[derive(Clone, Debug, PartialEq, Eq)]
pub struct ComputedValues {
    pub baseline_shift: BaselineShift,
    pub clip_path: ClipPath,
    pub clip_rule: ClipRule,
    pub color: Color,
    pub color_interpolation_filters: ColorInterpolationFilters,
    pub direction: Direction,
    pub display: Display,
    pub enable_background: EnableBackground,
    pub fill: Fill,
    pub fill_opacity: FillOpacity,
    pub fill_rule: FillRule,
    pub filter: Filter,
    pub flood_color: FloodColor,
    pub flood_opacity: FloodOpacity,
    pub font_family: FontFamily,
    pub font_size: FontSize,
    pub font_stretch: FontStretch,
    pub font_style: FontStyle,
    pub font_variant: FontVariant,
    pub font_weight: FontWeight,
    pub letter_spacing: LetterSpacing,
    pub lighting_color: LightingColor,
    pub marker_end: MarkerEnd,
    pub marker_mid: MarkerMid,
    pub marker_start: MarkerStart,
    pub mask: Mask,
    pub opacity: Opacity,
    pub overflow: Overflow,
    pub shape_rendering: ShapeRendering,
    pub stop_color: StopColor,
    pub stop_opacity: StopOpacity,
    pub stroke: Stroke,
    pub stroke_dasharray: StrokeDasharray,
    pub stroke_dashoffset: StrokeDashoffset,
    pub stroke_line_cap: StrokeLinecap,
    pub stroke_line_join: StrokeLinejoin,
    pub stroke_opacity: StrokeOpacity,
    pub stroke_miterlimit: StrokeMiterlimit,
    pub stroke_width: StrokeWidth,
    pub text_anchor: TextAnchor,
    pub text_decoration: TextDecoration,
    pub text_rendering: TextRendering,
    pub unicode_bidi: UnicodeBidi,
    pub visibility: Visibility,
    pub writing_mode: WritingMode,
    pub xml_lang: XmlLang,
    pub xml_space: XmlSpace,
}

pub struct ComputedValuesView {
    pub baseline_shift: BaselineShift,
    pub clip_path: IriView,
    pub clip_rule: ClipRule,
    pub color: Color,
    pub color_interpolation_filters: ColorInterpolationFilters,
    pub direction: Direction,
    pub display: Display,
    pub enable_background: EnableBackground,
    pub fill: PaintServerView,
    pub fill_opacity: FillOpacity,
    pub fill_rule: FillRule,
    pub filter: IriView,
    pub flood_color: FloodColor,
    pub flood_opacity: FloodOpacity,
    pub font_family: Seq<char>,
    pub font_size: FontSize,
    pub font_stretch: FontStretch,
    pub font_style: FontStyle,
    pub font_variant: FontVariant,
    pub font_weight: FontWeight,
    pub letter_spacing: LetterSpacing,
    pub lighting_color: LightingColor,
    pub marker_end: IriView,
    pub marker_mid: IriView,
    pub marker_start: IriView,
    pub mask: IriView,
    pub opacity: Opacity,
    pub overflow: Overflow,
    pub shape_rendering: ShapeRendering,
    pub stop_color: StopColor,
    pub stop_opacity: StopOpacity,
    pub stroke: PaintServerView,
    pub stroke_dasharray: DasharrayView,
    pub stroke_dashoffset: StrokeDashoffset,
    pub stroke_line_cap: StrokeLinecap,
    pub stroke_line_join: StrokeLinejoin,
    pub stroke_opacity: StrokeOpacity,
    pub stroke_miterlimit: StrokeMiterlimit,
    pub stroke_width: StrokeWidth,
    pub text_anchor: TextAnchor,
    pub text_decoration: TextDecoration,
    pub text_rendering: TextRendering,
    pub unicode_bidi: UnicodeBidi,
    pub visibility: Visibility,
    pub writing_mode: WritingMode,
    pub xml_lang: Seq<char>,
    pub xml_space: XmlSpace,
}

impl View for ComputedValues {
    type V = ComputedValuesView;

    open spec fn view(&self) -> ComputedValuesView {
        ComputedValuesView {
            baseline_shift: self.baseline_shift@,
            clip_path: self.clip_path@,
            clip_rule: self.clip_rule@,
            color: self.color@,
            color_interpolation_filters: self.color_interpolation_filters@,
            direction: self.direction@,
            display: self.display@,
            enable_background: self.enable_background@,
            fill: self.fill@,
            fill_opacity: self.fill_opacity@,
            fill_rule: self.fill_rule@,
            filter: self.filter@,
            flood_color: self.flood_color@,
            flood_opacity: self.flood_opacity@,
            font_family: self.font_family@,
            font_size: self.font_size@,
            font_stretch: self.font_stretch@,
            font_style: self.font_style@,
            font_variant: self.font_variant@,
            font_weight: self.font_weight@,
            letter_spacing: self.letter_spacing@,
            lighting_color: self.lighting_color@,
            marker_end: self.marker_end@,
            marker_mid: self.marker_mid@,
            marker_start: self.marker_start@,
            mask: self.mask@,
            opacity: self.opacity@,
            overflow: self.overflow@,
            shape_rendering: self.shape_rendering@,
            stop_color: self.stop_color@,
            stop_opacity: self.stop_opacity@,
            stroke: self.stroke@,
            stroke_dasharray: self.stroke_dasharray@,
            stroke_dashoffset: self.stroke_dashoffset@,
            stroke_line_cap: self.stroke_line_cap@,
            stroke_line_join: self.stroke_line_join@,
            stroke_opacity: self.stroke_opacity@,
            stroke_miterlimit: self.stroke_miterlimit@,
            stroke_width: self.stroke_width@,
            text_anchor: self.text_anchor@,
            text_decoration: self.text_decoration@,
            text_rendering: self.text_rendering@,
            unicode_bidi: self.unicode_bidi@,
            visibility: self.visibility@,
            writing_mode: self.writing_mode@,
            xml_lang: self.xml_lang@,
            xml_space: self.xml_space@,
        }
    }
}

impl ComputedValuesView {
    /// The initial value of every property: what the root of a tree is
    /// resolved against.
    pub open spec fn initial() -> ComputedValuesView {
        ComputedValuesView {
            baseline_shift: BaselineShift::initial_view(),
            clip_path: ClipPath::initial_view(),
            clip_rule: ClipRule::initial_view(),
            color: Color::initial_view(),
            color_interpolation_filters: ColorInterpolationFilters::initial_view(),
            direction: Direction::initial_view(),
            display: Display::initial_view(),
            enable_background: EnableBackground::initial_view(),
            fill: Fill::initial_view(),
            fill_opacity: FillOpacity::initial_view(),
            fill_rule: FillRule::initial_view(),
            filter: Filter::initial_view(),
            flood_color: FloodColor::initial_view(),
            flood_opacity: FloodOpacity::initial_view(),
            font_family: FontFamily::initial_view(),
            font_size: FontSize::initial_view(),
            font_stretch: FontStretch::initial_view(),
            font_style: FontStyle::initial_view(),
            font_variant: FontVariant::initial_view(),
            font_weight: FontWeight::initial_view(),
            letter_spacing: LetterSpacing::initial_view(),
            lighting_color: LightingColor::initial_view(),
            marker_end: MarkerEnd::initial_view(),
            marker_mid: MarkerMid::initial_view(),
            marker_start: MarkerStart::initial_view(),
            mask: Mask::initial_view(),
            opacity: Opacity::initial_view(),
            overflow: Overflow::initial_view(),
            shape_rendering: ShapeRendering::initial_view(),
            stop_color: StopColor::initial_view(),
            stop_opacity: StopOpacity::initial_view(),
            stroke: Stroke::initial_view(),
            stroke_dasharray: StrokeDasharray::initial_view(),
            stroke_dashoffset: StrokeDashoffset::initial_view(),
            stroke_line_cap: StrokeLinecap::initial_view(),
            stroke_line_join: StrokeLinejoin::initial_view(),
            stroke_opacity: StrokeOpacity::initial_view(),
            stroke_miterlimit: StrokeMiterlimit::initial_view(),
            stroke_width: StrokeWidth::initial_view(),
            text_anchor: TextAnchor::initial_view(),
            text_decoration: TextDecoration::initial_view(),
            text_rendering: TextRendering::initial_view(),
            unicode_bidi: UnicodeBidi::initial_view(),
            visibility: Visibility::initial_view(),
            writing_mode: WritingMode::initial_view(),
            xml_lang: XmlLang::initial_view(),
            xml_space: XmlSpace::initial_view(),
        }
    }

    /// Whether the font size is a length that depends on no other: computing
    /// it anew leaves it as it is.
    pub open spec fn font_size_is_settled(self) -> bool {
        self.font_size.0 matches FontSizeSpec::Value(size) && !size.unit.is_relative()
    }

    /// Whether the baseline shift is no percentage: computing it anew leaves
    /// it as it is.
    pub open spec fn baseline_shift_is_settled(self) -> bool {
        !(self.baseline_shift.0.unit is Percent)
    }

    /// Whether these are values as a cascade leaves them: the font size and
    /// the baseline shift are settled.
    pub open spec fn is_resolved(self) -> bool {
        self.font_size_is_settled() && self.baseline_shift_is_settled()
    }

    /// Whether what lies outside of the element's box is shown.
    pub open spec fn is_overflow(self) -> bool {
        self.overflow is Auto || self.overflow is Visible
    }

    /// Whether the element is shown.
    pub open spec fn is_visible(self) -> bool {
        !(self.display is NoDisplay) && self.visibility is Visible
    }
}

impl Default for ComputedValues {
    fn default() -> (c: ComputedValues)
        ensures
            c@ == ComputedValuesView::initial(),
    {
        ComputedValues {
            baseline_shift: BaselineShift::initial(),
            clip_path: ClipPath::initial(),
            clip_rule: ClipRule::initial(),
            color: Color::initial(),
            color_interpolation_filters: ColorInterpolationFilters::initial(),
            direction: Direction::initial(),
            display: Display::initial(),
            enable_background: EnableBackground::initial(),
            fill: Fill::initial(),
            fill_opacity: FillOpacity::initial(),
            fill_rule: FillRule::initial(),
            filter: Filter::initial(),
            flood_color: FloodColor::initial(),
            flood_opacity: FloodOpacity::initial(),
            font_family: FontFamily::initial(),
            font_size: FontSize::initial(),
            font_stretch: FontStretch::initial(),
            font_style: FontStyle::initial(),
            font_variant: FontVariant::initial(),
            font_weight: FontWeight::initial(),
            letter_spacing: LetterSpacing::initial(),
            lighting_color: LightingColor::initial(),
            marker_end: MarkerEnd::initial(),
            marker_mid: MarkerMid::initial(),
            marker_start: MarkerStart::initial(),
            mask: Mask::initial(),
            opacity: Opacity::initial(),
            overflow: Overflow::initial(),
            shape_rendering: ShapeRendering::initial(),
            stop_color: StopColor::initial(),
            stop_opacity: StopOpacity::initial(),
            stroke: Stroke::initial(),
            stroke_dasharray: StrokeDasharray::initial(),
            stroke_dashoffset: StrokeDashoffset::initial(),
            stroke_line_cap: StrokeLinecap::initial(),
            stroke_line_join: StrokeLinejoin::initial(),
            stroke_opacity: StrokeOpacity::initial(),
            stroke_miterlimit: StrokeMiterlimit::initial(),
            stroke_width: StrokeWidth::initial(),
            text_anchor: TextAnchor::initial(),
            text_decoration: TextDecoration::initial(),
            text_rendering: TextRendering::initial(),
            unicode_bidi: UnicodeBidi::initial(),
            visibility: Visibility::initial(),
            writing_mode: WritingMode::initial(),
            xml_lang: XmlLang::initial(),
            xml_space: XmlSpace::initial(),
        }
    }
}

impl ComputedValues {
    /// True where `overflow` is `auto` or `visible`.
    pub fn is_overflow(&self) -> (r: bool)
        ensures
            r == self@.is_overflow(),
    {
        match self.overflow {
            Overflow::Auto | Overflow::Visible => true,
            _ => false,
        }
    }

    /// False where `display` is `none`; otherwise true where `visibility` is
    /// `visible`.
    pub fn is_visible(&self) -> (r: bool)
        ensures
            r == self@.is_visible(),
    {
        match (self.display, self.visibility) {
            (Display::NoDisplay, _) => false,
            (_, Visibility::Visible) => true,
            _ => false,
        }
    }

    pub fn duplicate(&self) -> (r: ComputedValues)
        ensures
            r@ == self@,
    {
        ComputedValues {
            baseline_shift: self.baseline_shift.duplicate(),
            clip_path: self.clip_path.duplicate(),
            clip_rule: self.clip_rule.duplicate(),
            color: self.color.duplicate(),
            color_interpolation_filters: self.color_interpolation_filters.duplicate(),
            direction: self.direction.duplicate(),
            display: self.display.duplicate(),
            enable_background: self.enable_background.duplicate(),
            fill: self.fill.duplicate(),
            fill_opacity: self.fill_opacity.duplicate(),
            fill_rule: self.fill_rule.duplicate(),
            filter: self.filter.duplicate(),
            flood_color: self.flood_color.duplicate(),
            flood_opacity: self.flood_opacity.duplicate(),
            font_family: self.font_family.duplicate(),
            font_size: self.font_size.duplicate(),
            font_stretch: self.font_stretch.duplicate(),
            font_style: self.font_style.duplicate(),
            font_variant: self.font_variant.duplicate(),
            font_weight: self.font_weight.duplicate(),
            letter_spacing: self.letter_spacing.duplicate(),
            lighting_color: self.lighting_color.duplicate(),
            marker_end: self.marker_end.duplicate(),
            marker_mid: self.marker_mid.duplicate(),
            marker_start: self.marker_start.duplicate(),
            mask: self.mask.duplicate(),
            opacity: self.opacity.duplicate(),
            overflow: self.overflow.duplicate(),
            shape_rendering: self.shape_rendering.duplicate(),
            stop_color: self.stop_color.duplicate(),
            stop_opacity: self.stop_opacity.duplicate(),
            stroke: self.stroke.duplicate(),
            stroke_dasharray: self.stroke_dasharray.duplicate(),
            stroke_dashoffset: self.stroke_dashoffset.duplicate(),
            stroke_line_cap: self.stroke_line_cap.duplicate(),
            stroke_line_join: self.stroke_line_join.duplicate(),
            stroke_opacity: self.stroke_opacity.duplicate(),
            stroke_miterlimit: self.stroke_miterlimit.duplicate(),
            stroke_width: self.stroke_width.duplicate(),
            text_anchor: self.text_anchor.duplicate(),
            text_decoration: self.text_decoration.duplicate(),
            text_rendering: self.text_rendering.duplicate(),
            unicode_bidi: self.unicode_bidi.duplicate(),
            visibility: self.visibility.duplicate(),
            writing_mode: self.writing_mode.duplicate(),
            xml_lang: self.xml_lang.duplicate(),
            xml_space: self.xml_space.duplicate(),
        }
    }
}

} // verus!
