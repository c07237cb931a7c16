//! The identities of the property kinds: small numbers that index a table.

use vstd::prelude::*;

verus! {

/// How many property kinds there are. It is also the number that stands for
/// "no property" in a table of identities.
pub const PROPERTY_COUNT: usize = 48;

/// Which property a declaration is about.
///
/// `UnsetProperty` is the identity of no property; its number is the number
/// of the kinds. `Marker` is a shorthand: it is the identity of declarations
/// only, never of a stored value.
#[derive(Clone, Copy, Debug, PartialEq, Eq, Structural)]
pub enum PropertyId {
    BaselineShift,
    ClipPath,
    ClipRule,
    Color,
    ColorInterpolationFilters,
    Direction,
    Display,
    EnableBackground,
    Fill,
    FillOpacity,
    FillRule,
    Filter,
    FloodColor,
    FloodOpacity,
    FontFamily,
    FontSize,
    FontStretch,
    FontStyle,
    FontVariant,
    FontWeight,
    LetterSpacing,
    LightingColor,
    Marker,
    MarkerEnd,
    MarkerMid,
    MarkerStart,
    Mask,
    Opacity,
    Overflow,
    ShapeRendering,
    StopColor,
    StopOpacity,
    Stroke,
    StrokeDasharray,
    StrokeDashoffset,
    StrokeLinecap,
    StrokeLinejoin,
    StrokeOpacity,
    StrokeMiterlimit,
    StrokeWidth,
    TextAnchor,
    TextDecoration,
    TextRendering,
    UnicodeBidi,
    Visibility,
    WritingMode,
    XmlLang,
    XmlSpace,
    UnsetProperty,
}

impl PropertyId {
    /// The number of this identity.
    pub open spec fn index(self) -> int {
        match self {
            PropertyId::BaselineShift => 0,
            PropertyId::ClipPath => 1,
            PropertyId::ClipRule => 2,
            PropertyId::Color => 3,
            PropertyId::ColorInterpolationFilters => 4,
            PropertyId::Direction => 5,
            PropertyId::Display => 6,
            PropertyId::EnableBackground => 7,
            PropertyId::Fill => 8,
            PropertyId::FillOpacity => 9,
            PropertyId::FillRule => 10,
            PropertyId::Filter => 11,
            PropertyId::FloodColor => 12,
            PropertyId::FloodOpacity => 13,
            PropertyId::FontFamily => 14,
            PropertyId::FontSize => 15,
            PropertyId::FontStretch => 16,
            PropertyId::FontStyle => 17,
            PropertyId::FontVariant => 18,
            PropertyId::FontWeight => 19,
            PropertyId::LetterSpacing => 20,
            PropertyId::LightingColor => 21,
            PropertyId::Marker => 22,
            PropertyId::MarkerEnd => 23,
            PropertyId::MarkerMid => 24,
            PropertyId::MarkerStart => 25,
            PropertyId::Mask => 26,
            PropertyId::Opacity => 27,
            PropertyId::Overflow => 28,
            PropertyId::ShapeRendering => 29,
            PropertyId::StopColor => 30,
            PropertyId::StopOpacity => 31,
            PropertyId::Stroke => 32,
            PropertyId::StrokeDasharray => 33,
            PropertyId::StrokeDashoffset => 34,
            PropertyId::StrokeLinecap => 35,
            PropertyId::StrokeLinejoin => 36,
            PropertyId::StrokeOpacity => 37,
            PropertyId::StrokeMiterlimit => 38,
            PropertyId::StrokeWidth => 39,
            PropertyId::TextAnchor => 40,
            PropertyId::TextDecoration => 41,
            PropertyId::TextRendering => 42,
            PropertyId::UnicodeBidi => 43,
            PropertyId::Visibility => 44,
            PropertyId::WritingMode => 45,
            PropertyId::XmlLang => 46,
            PropertyId::XmlSpace => 47,
            PropertyId::UnsetProperty => 48,
        }
    }

    /// Whether this is the identity of a kind whose values are stored: not the
    /// shorthand, and not the identity of no property.
    pub open spec fn is_longhand(self) -> bool {
        !(self is Marker) && !(self is UnsetProperty)
    }

    pub fn as_u8(&self) -> (n: u8)
        ensures
            n == self.index(),
    {
        match self {
            PropertyId::BaselineShift => 0,
            PropertyId::ClipPath => 1,
            PropertyId::ClipRule => 2,
            PropertyId::Color => 3,
            PropertyId::ColorInterpolationFilters => 4,
            PropertyId::Direction => 5,
            PropertyId::Display => 6,
            PropertyId::EnableBackground => 7,
            PropertyId::Fill => 8,
            PropertyId::FillOpacity => 9,
            PropertyId::FillRule => 10,
            PropertyId::Filter => 11,
            PropertyId::FloodColor => 12,
            PropertyId::FloodOpacity => 13,
            PropertyId::FontFamily => 14,
            PropertyId::FontSize => 15,
            PropertyId::FontStretch => 16,
            PropertyId::FontStyle => 17,
            PropertyId::FontVariant => 18,
            PropertyId::FontWeight => 19,
            PropertyId::LetterSpacing => 20,
            PropertyId::LightingColor => 21,
            PropertyId::Marker => 22,
            PropertyId::MarkerEnd => 23,
            PropertyId::MarkerMid => 24,
            PropertyId::MarkerStart => 25,
            PropertyId::Mask => 26,
            PropertyId::Opacity => 27,
            PropertyId::Overflow => 28,
            PropertyId::ShapeRendering => 29,
            PropertyId::StopColor => 30,
            PropertyId::StopOpacity => 31,
            PropertyId::Stroke => 32,
            PropertyId::StrokeDasharray => 33,
            PropertyId::StrokeDashoffset => 34,
            PropertyId::StrokeLinecap => 35,
            PropertyId::StrokeLinejoin => 36,
            PropertyId::StrokeOpacity => 37,
            PropertyId::StrokeMiterlimit => 38,
            PropertyId::StrokeWidth => 39,
            PropertyId::TextAnchor => 40,
            PropertyId::TextDecoration => 41,
            PropertyId::TextRendering => 42,
            PropertyId::UnicodeBidi => 43,
            PropertyId::Visibility => 44,
            PropertyId::WritingMode => 45,
            PropertyId::XmlLang => 46,
            PropertyId::XmlSpace => 47,
            PropertyId::UnsetProperty => 48,
        }
    }

    pub fn as_usize(&self) -> (n: usize)
        ensures
            n == self.index(),
    {
        self.as_u8() as usize
    }

    /// The numbers of the identities are the numbers from 0 to
    /// `PROPERTY_COUNT`, and no two identities have the same.
    pub proof fn lemma_index_is_one_to_one(a: PropertyId, b: PropertyId)
        ensures
            0 <= a.index() <= PROPERTY_COUNT,
            a.index() == PROPERTY_COUNT <==> a is UnsetProperty,
            a.index() == b.index() ==> a == b,
    {
    }
}

} // verus!
