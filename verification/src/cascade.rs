//! How the declarations of an element and the computed values of its parent
//! give the computed values of the element.

use crate::computed::ComputedValuesView;
use crate::property_id::PropertyId;
use crate::specified::{declared, Declarations};
use vstd::prelude::*;

verus! {

/// How many properties have a computed value: all but the shorthand.
pub const LONGHAND_COUNT: usize = 47;

/// The order in which the values of an element are computed. The font size
/// comes first, because the values of other properties are finished against
/// it; the others follow in the order of their names.
pub const CASCADE_ORDER: [PropertyId; LONGHAND_COUNT] = [
    PropertyId::FontSize,
    PropertyId::BaselineShift,
    PropertyId::ClipPath,
    PropertyId::ClipRule,
    PropertyId::Color,
    PropertyId::ColorInterpolationFilters,
    PropertyId::Direction,
    PropertyId::Display,
    PropertyId::EnableBackground,
    PropertyId::Fill,
    PropertyId::FillOpacity,
    PropertyId::FillRule,
    PropertyId::Filter,
    PropertyId::FloodColor,
    PropertyId::FloodOpacity,
    PropertyId::FontFamily,
    PropertyId::FontStretch,
    PropertyId::FontStyle,
    PropertyId::FontVariant,
    PropertyId::FontWeight,
    PropertyId::LetterSpacing,
    PropertyId::LightingColor,
    PropertyId::MarkerEnd,
    PropertyId::MarkerMid,
    PropertyId::MarkerStart,
    PropertyId::Mask,
    PropertyId::Opacity,
    PropertyId::Overflow,
    PropertyId::ShapeRendering,
    PropertyId::StopColor,
    PropertyId::StopOpacity,
    PropertyId::Stroke,
    PropertyId::StrokeDasharray,
    PropertyId::StrokeDashoffset,
    PropertyId::StrokeLinecap,
    PropertyId::StrokeLinejoin,
    PropertyId::StrokeOpacity,
    PropertyId::StrokeMiterlimit,
    PropertyId::StrokeWidth,
    PropertyId::TextAnchor,
    PropertyId::TextDecoration,
    PropertyId::TextRendering,
    PropertyId::UnicodeBidi,
    PropertyId::Visibility,
    PropertyId::WritingMode,
    PropertyId::XmlLang,
    PropertyId::XmlSpace,
];

/// The computed values of an element that declares `store` and whose parent
/// has the computed values `parent`, when the first `n` properties of the
/// order have been computed. The value of a property is resolved against
/// that of the parent and finished against what has been computed before
/// it; where the properties that are yet to come have their values, those
/// of the parent still stand.
pub open spec fn cascade_through(store: Declarations, parent: ComputedValuesView, n: nat) -> ComputedValuesView
    decreases n,
{
    if n == 0 {
        parent
    } else {
        declared(store, CASCADE_ORDER@[n - 1]).apply(
            cascade_through(store, parent, (n - 1) as nat),
        )
    }
}

/// The computed values of an element that declares `store` and whose parent
/// has the computed values `parent`.
pub open spec fn cascade(store: Declarations, parent: ComputedValuesView) -> ComputedValuesView {
    cascade_through(store, parent, LONGHAND_COUNT as nat)
}

/// The turn of the property `id` in the order; the shorthand and the
/// identity of no property have none.
pub open spec fn turn(id: PropertyId) -> int {
    match id {
        PropertyId::FontSize => 0,
        PropertyId::BaselineShift => 1,
        PropertyId::ClipPath => 2,
        PropertyId::ClipRule => 3,
        PropertyId::Color => 4,
        PropertyId::ColorInterpolationFilters => 5,
        PropertyId::Direction => 6,
        PropertyId::Display => 7,
        PropertyId::EnableBackground => 8,
        PropertyId::Fill => 9,
        PropertyId::FillOpacity => 10,
        PropertyId::FillRule => 11,
        PropertyId::Filter => 12,
        PropertyId::FloodColor => 13,
        PropertyId::FloodOpacity => 14,
        PropertyId::FontFamily => 15,
        PropertyId::FontStretch => 16,
        PropertyId::FontStyle => 17,
        PropertyId::FontVariant => 18,
        PropertyId::FontWeight => 19,
        PropertyId::LetterSpacing => 20,
        PropertyId::LightingColor => 21,
        PropertyId::MarkerEnd => 22,
        PropertyId::MarkerMid => 23,
        PropertyId::MarkerStart => 24,
        PropertyId::Mask => 25,
        PropertyId::Opacity => 26,
        PropertyId::Overflow => 27,
        PropertyId::ShapeRendering => 28,
        PropertyId::StopColor => 29,
        PropertyId::StopOpacity => 30,
        PropertyId::Stroke => 31,
        PropertyId::StrokeDasharray => 32,
        PropertyId::StrokeDashoffset => 33,
        PropertyId::StrokeLinecap => 34,
        PropertyId::StrokeLinejoin => 35,
        PropertyId::StrokeOpacity => 36,
        PropertyId::StrokeMiterlimit => 37,
        PropertyId::StrokeWidth => 38,
        PropertyId::TextAnchor => 39,
        PropertyId::TextDecoration => 40,
        PropertyId::TextRendering => 41,
        PropertyId::UnicodeBidi => 42,
        PropertyId::Visibility => 43,
        PropertyId::WritingMode => 44,
        PropertyId::XmlLang => 45,
        PropertyId::XmlSpace => 46,
        PropertyId::Marker | PropertyId::UnsetProperty => -1,
    }
}

/// Every property with a computed value has its turn in the order, and every
/// member of the order is the identity of such a property. The font size
/// has the first turn.
pub proof fn lemma_turns(id: PropertyId, i: int)
    ensures
        id.is_longhand() ==> 0 <= turn(id) < LONGHAND_COUNT && CASCADE_ORDER@[turn(id)] == id,
        0 <= i < LONGHAND_COUNT ==> turn(CASCADE_ORDER@[i]) == i,
        turn(PropertyId::FontSize) == 0,
{
}

/// Every member of the order is the identity of a property with a computed
/// value.
pub proof fn lemma_order_is_of_longhands(i: int)
    requires
        0 <= i < LONGHAND_COUNT,
    ensures
        CASCADE_ORDER@[i].is_longhand(),
{
}

} // verus!
