//! Properties of filter effects.

use crate::color::{CssColor, Rgba};
use crate::computed::{ComputedValues, ComputedValuesView};
use crate::error::ValueErrorKind;
use crate::iri::{IriView, IRI};
use crate::number::{Decimal, MICROS_PER_UNIT};
use crate::parsers::{parse_keyword, parsed_keyword, Keyword, Parse};
use crate::property::Property;
use crate::text::{eq_ignore_ascii_case, same_ignoring_case};
use crate::unit_interval::UnitInterval;
use vstd::prelude::*;

verus! {

/// The `color-interpolation-filters` property. Inherited; initially `linearRGB`.
#[derive(Clone, Copy, Debug, PartialEq, Eq, Structural)]
pub enum ColorInterpolationFilters {
    Auto,
    LinearRgb,
    Srgb,
}

impl View for ColorInterpolationFilters {
    type V = ColorInterpolationFilters;

    open spec fn view(&self) -> ColorInterpolationFilters {
        *self
    }
}

impl Keyword for ColorInterpolationFilters {
    open spec fn named(ident: Seq<char>) -> Option<ColorInterpolationFilters> {
        if same_ignoring_case(ident, "auto"@) {
            Some(ColorInterpolationFilters::Auto)
        } else if same_ignoring_case(ident, "linearRGB"@) {
            Some(ColorInterpolationFilters::LinearRgb)
        } else if same_ignoring_case(ident, "sRGB"@) {
            Some(ColorInterpolationFilters::Srgb)
        } else {
            None
        }
    }

    fn from_ident(ident: &str) -> (r: Option<ColorInterpolationFilters>) {
        if eq_ignore_ascii_case(ident, "auto") {
            Some(ColorInterpolationFilters::Auto)
        } else if eq_ignore_ascii_case(ident, "linearRGB") {
            Some(ColorInterpolationFilters::LinearRgb)
        } else if eq_ignore_ascii_case(ident, "sRGB") {
            Some(ColorInterpolationFilters::Srgb)
        } else {
            None
        }
    }
}

impl Parse for ColorInterpolationFilters {
    open spec fn parsed(text: Seq<char>) -> Result<(ColorInterpolationFilters, Seq<char>), ValueErrorKind> {
        parsed_keyword::<ColorInterpolationFilters>(text)
    }

    fn parse<'a>(text: &'a str) -> (r: Result<(ColorInterpolationFilters, &'a str), ValueErrorKind>) {
        parse_keyword::<ColorInterpolationFilters>(text)
    }
}

impl Property for ColorInterpolationFilters {
    open spec fn inherits() -> bool {
        true
    }

    open spec fn initial_view() -> ColorInterpolationFilters {
        ColorInterpolationFilters::LinearRgb
    }

    open spec fn compute_view(v: ColorInterpolationFilters, values: ComputedValuesView) -> ColorInterpolationFilters {
        v
    }

    fn inherits_automatically() -> (b: bool) {
        true
    }

    fn initial() -> (d: ColorInterpolationFilters) {
        ColorInterpolationFilters::LinearRgb
    }

    fn compute(&self, _values: &ComputedValues) -> (r: ColorInterpolationFilters) {
        *self
    }

    fn duplicate(&self) -> (r: ColorInterpolationFilters) {
        *self
    }
}

impl Default for ColorInterpolationFilters {
    fn default() -> (d: ColorInterpolationFilters)
        ensures
            d@ == ColorInterpolationFilters::initial_view(),
    {
        ColorInterpolationFilters::initial()
    }
}

/// The `enable-background` property. Not inherited; initially `accumulate`.
#[derive(Clone, Copy, Debug, PartialEq, Eq, Structural)]
pub enum EnableBackground {
    Accumulate,
    New,
}

impl View for EnableBackground {
    type V = EnableBackground;

    open spec fn view(&self) -> EnableBackground {
        *self
    }
}

impl Keyword for EnableBackground {
    open spec fn named(ident: Seq<char>) -> Option<EnableBackground> {
        if same_ignoring_case(ident, "accumulate"@) {
            Some(EnableBackground::Accumulate)
        } else if same_ignoring_case(ident, "new"@) {
            Some(EnableBackground::New)
        } else {
            None
        }
    }

    fn from_ident(ident: &str) -> (r: Option<EnableBackground>) {
        if eq_ignore_ascii_case(ident, "accumulate") {
            Some(EnableBackground::Accumulate)
        } else if eq_ignore_ascii_case(ident, "new") {
            Some(EnableBackground::New)
        } else {
            None
        }
    }
}

impl Parse for EnableBackground {
    open spec fn parsed(text: Seq<char>) -> Result<(EnableBackground, Seq<char>), ValueErrorKind> {
        parsed_keyword::<EnableBackground>(text)
    }

    fn parse<'a>(text: &'a str) -> (r: Result<(EnableBackground, &'a str), ValueErrorKind>) {
        parse_keyword::<EnableBackground>(text)
    }
}

impl Property for EnableBackground {
    open spec fn inherits() -> bool {
        false
    }

    open spec fn initial_view() -> EnableBackground {
        EnableBackground::Accumulate
    }

    open spec fn compute_view(v: EnableBackground, values: ComputedValuesView) -> EnableBackground {
        v
    }

    fn inherits_automatically() -> (b: bool) {
        false
    }

    fn initial() -> (d: EnableBackground) {
        EnableBackground::Accumulate
    }

    fn compute(&self, _values: &ComputedValues) -> (r: EnableBackground) {
        *self
    }

    fn duplicate(&self) -> (r: EnableBackground) {
        *self
    }
}

impl Default for EnableBackground {
    fn default() -> (d: EnableBackground)
        ensures
            d@ == EnableBackground::initial_view(),
    {
        EnableBackground::initial()
    }
}

/// The `filter` property. Not inherited; initially `none`.
#[derive(Clone, Debug, PartialEq, Eq)]
pub struct Filter(pub IRI);

impl View for Filter {
    type V = IriView;

    open spec fn view(&self) -> IriView {
        self.0@
    }
}

impl Parse for Filter {
    open spec fn parsed(text: Seq<char>) -> Result<(IriView, Seq<char>), ValueErrorKind> {
        IRI::parsed(text)
    }

    fn parse<'a>(text: &'a str) -> (r: Result<(Filter, &'a str), ValueErrorKind>) {
        match IRI::parse(text) {
            Ok((v, rest)) => Ok((Filter(v), rest)),
            Err(e) => Err(e),
        }
    }
}

impl Property for Filter {
    open spec fn inherits() -> bool {
        false
    }

    open spec fn initial_view() -> IriView {
        IriView::NoResource
    }

    open spec fn compute_view(v: IriView, values: ComputedValuesView) -> IriView {
        v
    }

    fn inherits_automatically() -> (b: bool) {
        false
    }

    fn initial() -> (d: Filter) {
        Filter(IRI::NoResource)
    }

    fn compute(&self, _values: &ComputedValues) -> (r: Filter) {
        Filter(self.0.duplicate())
    }

    fn duplicate(&self) -> (r: Filter) {
        Filter(self.0.duplicate())
    }
}

impl Default for Filter {
    fn default() -> (d: Filter)
        ensures
            d@ == Filter::initial_view(),
    {
        Filter::initial()
    }
}

/// The `flood-color` property. Not inherited; initially transparent black.
#[derive(Clone, Copy, Debug, PartialEq, Eq, Structural)]
pub struct FloodColor(pub CssColor);

impl View for FloodColor {
    type V = FloodColor;

    open spec fn view(&self) -> FloodColor {
        *self
    }
}

impl Parse for FloodColor {
    open spec fn parsed(text: Seq<char>) -> Result<(FloodColor, Seq<char>), ValueErrorKind> {
        match CssColor::parsed(text) {
            Ok((v, rest)) => Ok((FloodColor(v), rest)),
            Err(e) => Err(e),
        }
    }

    fn parse<'a>(text: &'a str) -> (r: Result<(FloodColor, &'a str), ValueErrorKind>) {
        match CssColor::parse(text) {
            Ok((v, rest)) => Ok((FloodColor(v), rest)),
            Err(e) => Err(e),
        }
    }
}

impl Property for FloodColor {
    open spec fn inherits() -> bool {
        false
    }

    open spec fn initial_view() -> FloodColor {
        FloodColor(CssColor::Rgba(Rgba { red: 0, green: 0, blue: 0, alpha: 0 }))
    }

    open spec fn compute_view(v: FloodColor, values: ComputedValuesView) -> FloodColor {
        v
    }

    fn inherits_automatically() -> (b: bool) {
        false
    }

    fn initial() -> (d: FloodColor) {
        FloodColor(CssColor::Rgba(Rgba::new(0, 0, 0, 0)))
    }

    fn compute(&self, _values: &ComputedValues) -> (r: FloodColor) {
        *self
    }

    fn duplicate(&self) -> (r: FloodColor) {
        *self
    }
}

impl Default for FloodColor {
    fn default() -> (d: FloodColor)
        ensures
            d@ == FloodColor::initial_view(),
    {
        FloodColor::initial()
    }
}

/// The `flood-opacity` property. Not inherited; initially one.
#[derive(Clone, Copy, Debug, PartialEq, Eq, Structural)]
pub struct FloodOpacity(pub UnitInterval);

impl View for FloodOpacity {
    type V = FloodOpacity;

    open spec fn view(&self) -> FloodOpacity {
        *self
    }
}

impl Parse for FloodOpacity {
    open spec fn parsed(text: Seq<char>) -> Result<(FloodOpacity, Seq<char>), ValueErrorKind> {
        match UnitInterval::parsed(text) {
            Ok((v, rest)) => Ok((FloodOpacity(v), rest)),
            Err(e) => Err(e),
        }
    }

    fn parse<'a>(text: &'a str) -> (r: Result<(FloodOpacity, &'a str), ValueErrorKind>) {
        match UnitInterval::parse(text) {
            Ok((v, rest)) => Ok((FloodOpacity(v), rest)),
            Err(e) => Err(e),
        }
    }
}

impl Property for FloodOpacity {
    open spec fn inherits() -> bool {
        false
    }

    open spec fn initial_view() -> FloodOpacity {
        FloodOpacity(UnitInterval(Decimal { micros: MICROS_PER_UNIT }))
    }

    open spec fn compute_view(v: FloodOpacity, values: ComputedValuesView) -> FloodOpacity {
        v
    }

    fn inherits_automatically() -> (b: bool) {
        false
    }

    fn initial() -> (d: FloodOpacity) {
        FloodOpacity(UnitInterval(Decimal::from_micros(MICROS_PER_UNIT)))
    }

    fn compute(&self, _values: &ComputedValues) -> (r: FloodOpacity) {
        *self
    }

    fn duplicate(&self) -> (r: FloodOpacity) {
        *self
    }
}

impl Default for FloodOpacity {
    fn default() -> (d: FloodOpacity)
        ensures
            d@ == FloodOpacity::initial_view(),
    {
        FloodOpacity::initial()
    }
}

/// The `lighting-color` property. Not inherited; initially opaque white.
#[derive(Clone, Copy, Debug, PartialEq, Eq, Structural)]
pub struct LightingColor(pub CssColor);

impl View for LightingColor {
    type V = LightingColor;

    open spec fn view(&self) -> LightingColor {
        *self
    }
}

impl Parse for LightingColor {
    open spec fn parsed(text: Seq<char>) -> Result<(LightingColor, Seq<char>), ValueErrorKind> {
        match CssColor::parsed(text) {
            Ok((v, rest)) => Ok((LightingColor(v), rest)),
            Err(e) => Err(e),
        }
    }

    fn parse<'a>(text: &'a str) -> (r: Result<(LightingColor, &'a str), ValueErrorKind>) {
        match CssColor::parse(text) {
            Ok((v, rest)) => Ok((LightingColor(v), rest)),
            Err(e) => Err(e),
        }
    }
}

impl Property for LightingColor {
    open spec fn inherits() -> bool {
        false
    }

    open spec fn initial_view() -> LightingColor {
        LightingColor(CssColor::Rgba(Rgba { red: 255, green: 255, blue: 255, alpha: 255 }))
    }

    open spec fn compute_view(v: LightingColor, values: ComputedValuesView) -> LightingColor {
        v
    }

    fn inherits_automatically() -> (b: bool) {
        false
    }

    fn initial() -> (d: LightingColor) {
        LightingColor(CssColor::Rgba(Rgba::new(255, 255, 255, 255)))
    }

    fn compute(&self, _values: &ComputedValues) -> (r: LightingColor) {
        *self
    }

    fn duplicate(&self) -> (r: LightingColor) {
        *self
    }
}

impl Default for LightingColor {
    fn default() -> (d: LightingColor)
        ensures
            d@ == LightingColor::initial_view(),
    {
        LightingColor::initial()
    }
}

} // verus!
