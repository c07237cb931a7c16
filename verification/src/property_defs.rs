//! The kinds of properties: for each, the type of its values, whether it
//! is inherited, its initial value and how a value is written.

pub mod filters;
pub mod fonts;
pub mod masking;
pub mod painting;
pub mod text;

pub use crate::property_defs::filters::{
    ColorInterpolationFilters, EnableBackground, Filter, FloodColor, FloodOpacity, LightingColor,
};
pub use crate::property_defs::fonts::{
    FontFamily, FontSize, FontStretch, FontStyle, FontVariant, FontWeight,
};
pub use crate::property_defs::masking::{
    ClipPath, ClipRule, Display, Mask, Opacity, Overflow, Visibility,
};
pub use crate::property_defs::painting::{
    Color, Fill, FillOpacity, FillRule, Marker, MarkerEnd, MarkerMid, MarkerStart, ShapeRendering,
    StopColor, StopOpacity, Stroke, StrokeDasharray, StrokeDashoffset, StrokeLinecap,
    StrokeLinejoin, StrokeMiterlimit, StrokeOpacity, StrokeWidth,
};
pub use crate::property_defs::text::{
    BaselineShift, Direction, LetterSpacing, TextAnchor, TextDecoration, TextRendering, UnicodeBidi,
    WritingMode, XmlLang, XmlSpace,
};
