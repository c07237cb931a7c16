//! Properties of how shapes are filled and stroked.

use crate::color::{CssColor, Rgba};
use crate::computed::{ComputedValues, ComputedValuesView};
use crate::dasharray::{Dasharray, DasharrayView};
use crate::error::ValueErrorKind;
use crate::iri::{IriView, IRI};
use crate::length::{Length, LengthUnit};
use crate::number::{Decimal, MICROS_PER_UNIT};
use crate::paint_server::{PaintServer, PaintServerView};
use crate::parsers::{parse_keyword, parsed_keyword, Keyword, Parse};
use crate::property::Property;
use crate::text::{eq_ignore_ascii_case, same_ignoring_case};
use crate::unit_interval::UnitInterval;
use vstd::prelude::*;

verus! {

/// The `color` property. Inherited; initially opaque black.
#[derive(Clone, Copy, Debug, PartialEq, Eq, Structural)]
pub struct Color(pub Rgba);

impl View for Color {
    type V = Color;

    open spec fn view(&self) -> Color {
        *self
    }
}

impl Parse for Color {
    open spec fn parsed(text: Seq<char>) -> Result<(Color, Seq<char>), ValueErrorKind> {
        match Rgba::parsed(text) {
            Ok((v, rest)) => Ok((Color(v), rest)),
            Err(e) => Err(e),
        }
    }

    fn parse<'a>(text: &'a str) -> (r: Result<(Color, &'a str), ValueErrorKind>) {
        match Rgba::parse(text) {
            Ok((v, rest)) => Ok((Color(v), rest)),
            Err(e) => Err(e),
        }
    }
}

impl Property for Color {
    open spec fn inherits() -> bool {
        true
    }

    open spec fn initial_view() -> Color {
        Color(Rgba { red: 0, green: 0, blue: 0, alpha: 255 })
    }

    open spec fn compute_view(v: Color, values: ComputedValuesView) -> Color {
        v
    }

    fn inherits_automatically() -> (b: bool) {
        true
    }

    fn initial() -> (d: Color) {
        Color(Rgba::new(0, 0, 0, 255))
    }

    fn compute(&self, _values: &ComputedValues) -> (r: Color) {
        *self
    }

    fn duplicate(&self) -> (r: Color) {
        *self
    }
}

impl Default for Color {
    fn default() -> (d: Color)
        ensures
            d@ == Color::initial_view(),
    {
        Color::initial()
    }
}

/// The `fill` property. Inherited; initially opaque black.
#[derive(Clone, Debug, PartialEq, Eq)]
pub struct Fill(pub PaintServer);

impl View for Fill {
    type V = PaintServerView;

    open spec fn view(&self) -> PaintServerView {
        self.0@
    }
}

impl Parse for Fill {
    open spec fn parsed(text: Seq<char>) -> Result<(PaintServerView, Seq<char>), ValueErrorKind> {
        PaintServer::parsed(text)
    }

    fn parse<'a>(text: &'a str) -> (r: Result<(Fill, &'a str), ValueErrorKind>) {
        match PaintServer::parse(text) {
            Ok((v, rest)) => Ok((Fill(v), rest)),
            Err(e) => Err(e),
        }
    }
}

impl Property for Fill {
    open spec fn inherits() -> bool {
        true
    }

    open spec fn initial_view() -> PaintServerView {
        PaintServerView::SolidColor(CssColor::Rgba(Rgba { red: 0, green: 0, blue: 0, alpha: 255 }))
    }

    open spec fn compute_view(v: PaintServerView, values: ComputedValuesView) -> PaintServerView {
        v
    }

    fn inherits_automatically() -> (b: bool) {
        true
    }

    fn initial() -> (d: Fill) {
        Fill(PaintServer::SolidColor(CssColor::Rgba(Rgba::new(0, 0, 0, 255))))
    }

    fn compute(&self, _values: &ComputedValues) -> (r: Fill) {
        Fill(self.0.duplicate())
    }

    fn duplicate(&self) -> (r: Fill) {
        Fill(self.0.duplicate())
    }
}

impl Default for Fill {
    fn default() -> (d: Fill)
        ensures
            d@ == Fill::initial_view(),
    {
        Fill::initial()
    }
}

/// The `fill-opacity` property. Inherited; initially one.
#[derive(Clone, Copy, Debug, PartialEq, Eq, Structural)]
pub struct FillOpacity(pub UnitInterval);

impl View for FillOpacity {
    type V = FillOpacity;

    open spec fn view(&self) -> FillOpacity {
        *self
    }
}

impl Parse for FillOpacity {
    open spec fn parsed(text: Seq<char>) -> Result<(FillOpacity, Seq<char>), ValueErrorKind> {
        match UnitInterval::parsed(text) {
            Ok((v, rest)) => Ok((FillOpacity(v), rest)),
            Err(e) => Err(e),
        }
    }

    fn parse<'a>(text: &'a str) -> (r: Result<(FillOpacity, &'a str), ValueErrorKind>) {
        match UnitInterval::parse(text) {
            Ok((v, rest)) => Ok((FillOpacity(v), rest)),
            Err(e) => Err(e),
        }
    }
}

impl Property for FillOpacity {
    open spec fn inherits() -> bool {
        true
    }

    open spec fn initial_view() -> FillOpacity {
        FillOpacity(UnitInterval(Decimal { micros: MICROS_PER_UNIT }))
    }

    open spec fn compute_view(v: FillOpacity, values: ComputedValuesView) -> FillOpacity {
        v
    }

    fn inherits_automatically() -> (b: bool) {
        true
    }

    fn initial() -> (d: FillOpacity) {
        FillOpacity(UnitInterval(Decimal::from_micros(MICROS_PER_UNIT)))
    }

    fn compute(&self, _values: &ComputedValues) -> (r: FillOpacity) {
        *self
    }

    fn duplicate(&self) -> (r: FillOpacity) {
        *self
    }
}

impl Default for FillOpacity {
    fn default() -> (d: FillOpacity)
        ensures
            d@ == FillOpacity::initial_view(),
    {
        FillOpacity::initial()
    }
}

/// The `fill-rule` property. Inherited; initially `nonzero`.
#[derive(Clone, Copy, Debug, PartialEq, Eq, Structural)]
pub enum FillRule {
    NonZero,
    EvenOdd,
}

impl View for FillRule {
    type V = FillRule;

    open spec fn view(&self) -> FillRule {
        *self
    }
}

impl Keyword for FillRule {
    open spec fn named(ident: Seq<char>) -> Option<FillRule> {
        if same_ignoring_case(ident, "nonzero"@) {
            Some(FillRule::NonZero)
        } else if same_ignoring_case(ident, "evenodd"@) {
            Some(FillRule::EvenOdd)
        } else {
            None
        }
    }

    fn from_ident(ident: &str) -> (r: Option<FillRule>) {
        if eq_ignore_ascii_case(ident, "nonzero") {
            Some(FillRule::NonZero)
        } else if eq_ignore_ascii_case(ident, "evenodd") {
            Some(FillRule::EvenOdd)
        } else {
            None
        }
    }
}

impl Parse for FillRule {
    open spec fn parsed(text: Seq<char>) -> Result<(FillRule, Seq<char>), ValueErrorKind> {
        parsed_keyword::<FillRule>(text)
    }

    fn parse<'a>(text: &'a str) -> (r: Result<(FillRule, &'a str), ValueErrorKind>) {
        parse_keyword::<FillRule>(text)
    }
}

impl Property for FillRule {
    open spec fn inherits() -> bool {
        true
    }

    open spec fn initial_view() -> FillRule {
        FillRule::NonZero
    }

    open spec fn compute_view(v: FillRule, values: ComputedValuesView) -> FillRule {
        v
    }

    fn inherits_automatically() -> (b: bool) {
        true
    }

    fn initial() -> (d: FillRule) {
        FillRule::NonZero
    }

    fn compute(&self, _values: &ComputedValues) -> (r: FillRule) {
        *self
    }

    fn duplicate(&self) -> (r: FillRule) {
        *self
    }
}

impl Default for FillRule {
    fn default() -> (d: FillRule)
        ensures
            d@ == FillRule::initial_view(),
    {
        FillRule::initial()
    }
}

/// The `marker` property. Inherited; initially `none`. A shorthand for the three marker properties.
#[derive(Clone, Debug, PartialEq, Eq)]
pub struct Marker(pub IRI);

impl View for Marker {
    type V = IriView;

    open spec fn view(&self) -> IriView {
        self.0@
    }
}

impl Parse for Marker {
    open spec fn parsed(text: Seq<char>) -> Result<(IriView, Seq<char>), ValueErrorKind> {
        IRI::parsed(text)
    }

    fn parse<'a>(text: &'a str) -> (r: Result<(Marker, &'a str), ValueErrorKind>) {
        match IRI::parse(text) {
            Ok((v, rest)) => Ok((Marker(v), rest)),
            Err(e) => Err(e),
        }
    }
}

impl Property for Marker {
    open spec fn inherits() -> bool {
        true
    }

    open spec fn initial_view() -> IriView {
        IriView::NoResource
    }

    open spec fn compute_view(v: IriView, values: ComputedValuesView) -> IriView {
        v
    }

    fn inherits_automatically() -> (b: bool) {
        true
    }

    fn initial() -> (d: Marker) {
        Marker(IRI::NoResource)
    }

    fn compute(&self, _values: &ComputedValues) -> (r: Marker) {
        Marker(self.0.duplicate())
    }

    fn duplicate(&self) -> (r: Marker) {
        Marker(self.0.duplicate())
    }
}

impl Default for Marker {
    fn default() -> (d: Marker)
        ensures
            d@ == Marker::initial_view(),
    {
        Marker::initial()
    }
}

/// The `marker-end` property. Inherited; initially `none`.
#[derive(Clone, Debug, PartialEq, Eq)]
pub struct MarkerEnd(pub IRI);

impl View for MarkerEnd {
    type V = IriView;

    open spec fn view(&self) -> IriView {
        self.0@
    }
}

impl Parse for MarkerEnd {
    open spec fn parsed(text: Seq<char>) -> Result<(IriView, Seq<char>), ValueErrorKind> {
        IRI::parsed(text)
    }

    fn parse<'a>(text: &'a str) -> (r: Result<(MarkerEnd, &'a str), ValueErrorKind>) {
        match IRI::parse(text) {
            Ok((v, rest)) => Ok((MarkerEnd(v), rest)),
            Err(e) => Err(e),
        }
    }
}

impl Property for MarkerEnd {
    open spec fn inherits() -> bool {
        true
    }

    open spec fn initial_view() -> IriView {
        IriView::NoResource
    }

    open spec fn compute_view(v: IriView, values: ComputedValuesView) -> IriView {
        v
    }

    fn inherits_automatically() -> (b: bool) {
        true
    }

    fn initial() -> (d: MarkerEnd) {
        MarkerEnd(IRI::NoResource)
    }

    fn compute(&self, _values: &ComputedValues) -> (r: MarkerEnd) {
        MarkerEnd(self.0.duplicate())
    }

    fn duplicate(&self) -> (r: MarkerEnd) {
        MarkerEnd(self.0.duplicate())
    }
}

impl Default for MarkerEnd {
    fn default() -> (d: MarkerEnd)
        ensures
            d@ == MarkerEnd::initial_view(),
    {
        MarkerEnd::initial()
    }
}

/// The `marker-mid` property. Inherited; initially `none`.
#[derive(Clone, Debug, PartialEq, Eq)]
pub struct MarkerMid(pub IRI);

impl View for MarkerMid {
    type V = IriView;

    open spec fn view(&self) -> IriView {
        self.0@
    }
}

impl Parse for MarkerMid {
    open spec fn parsed(text: Seq<char>) -> Result<(IriView, Seq<char>), ValueErrorKind> {
        IRI::parsed(text)
    }

    fn parse<'a>(text: &'a str) -> (r: Result<(MarkerMid, &'a str), ValueErrorKind>) {
        match IRI::parse(text) {
            Ok((v, rest)) => Ok((MarkerMid(v), rest)),
            Err(e) => Err(e),
        }
    }
}

impl Property for MarkerMid {
    open spec fn inherits() -> bool {
        true
    }

    open spec fn initial_view() -> IriView {
        IriView::NoResource
    }

    open spec fn compute_view(v: IriView, values: ComputedValuesView) -> IriView {
        v
    }

    fn inherits_automatically() -> (b: bool) {
        true
    }

    fn initial() -> (d: MarkerMid) {
        MarkerMid(IRI::NoResource)
    }

    fn compute(&self, _values: &ComputedValues) -> (r: MarkerMid) {
        MarkerMid(self.0.duplicate())
    }

    fn duplicate(&self) -> (r: MarkerMid) {
        MarkerMid(self.0.duplicate())
    }
}

impl Default for MarkerMid {
    fn default() -> (d: MarkerMid)
        ensures
            d@ == MarkerMid::initial_view(),
    {
        MarkerMid::initial()
    }
}

/// The `marker-start` property. Inherited; initially `none`.
#[derive(Clone, Debug, PartialEq, Eq)]
pub struct MarkerStart(pub IRI);

impl View for MarkerStart {
    type V = IriView;

    open spec fn view(&self) -> IriView {
        self.0@
    }
}

impl Parse for MarkerStart {
    open spec fn parsed(text: Seq<char>) -> Result<(IriView, Seq<char>), ValueErrorKind> {
        IRI::parsed(text)
    }

    fn parse<'a>(text: &'a str) -> (r: Result<(MarkerStart, &'a str), ValueErrorKind>) {
        match IRI::parse(text) {
            Ok((v, rest)) => Ok((MarkerStart(v), rest)),
            Err(e) => Err(e),
        }
    }
}

impl Property for MarkerStart {
    open spec fn inherits() -> bool {
        true
    }

    open spec fn initial_view() -> IriView {
        IriView::NoResource
    }

    open spec fn compute_view(v: IriView, values: ComputedValuesView) -> IriView {
        v
    }

    fn inherits_automatically() -> (b: bool) {
        true
    }

    fn initial() -> (d: MarkerStart) {
        MarkerStart(IRI::NoResource)
    }

    fn compute(&self, _values: &ComputedValues) -> (r: MarkerStart) {
        MarkerStart(self.0.duplicate())
    }

    fn duplicate(&self) -> (r: MarkerStart) {
        MarkerStart(self.0.duplicate())
    }
}

impl Default for MarkerStart {
    fn default() -> (d: MarkerStart)
        ensures
            d@ == MarkerStart::initial_view(),
    {
        MarkerStart::initial()
    }
}

/// The `shape-rendering` property. Inherited; initially `auto`.
#[derive(Clone, Copy, Debug, PartialEq, Eq, Structural)]
pub enum ShapeRendering {
    Auto,
    OptimizeSpeed,
    GeometricPrecision,
    CrispEdges,
}

impl View for ShapeRendering {
    type V = ShapeRendering;

    open spec fn view(&self) -> ShapeRendering {
        *self
    }
}

impl Keyword for ShapeRendering {
    open spec fn named(ident: Seq<char>) -> Option<ShapeRendering> {
        if same_ignoring_case(ident, "auto"@) {
            Some(ShapeRendering::Auto)
        } else if same_ignoring_case(ident, "optimizeSpeed"@) {
            Some(ShapeRendering::OptimizeSpeed)
        } else if same_ignoring_case(ident, "geometricPrecision"@) {
            Some(ShapeRendering::GeometricPrecision)
        } else if same_ignoring_case(ident, "crispEdges"@) {
            Some(ShapeRendering::CrispEdges)
        } else {
            None
        }
    }

    fn from_ident(ident: &str) -> (r: Option<ShapeRendering>) {
        if eq_ignore_ascii_case(ident, "auto") {
            Some(ShapeRendering::Auto)
        } else if eq_ignore_ascii_case(ident, "optimizeSpeed") {
            Some(ShapeRendering::OptimizeSpeed)
        } else if eq_ignore_ascii_case(ident, "geometricPrecision") {
            Some(ShapeRendering::GeometricPrecision)
        } else if eq_ignore_ascii_case(ident, "crispEdges") {
            Some(ShapeRendering::CrispEdges)
        } else {
            None
        }
    }
}

impl Parse for ShapeRendering {
    open spec fn parsed(text: Seq<char>) -> Result<(ShapeRendering, Seq<char>), ValueErrorKind> {
        parsed_keyword::<ShapeRendering>(text)
    }

    fn parse<'a>(text: &'a str) -> (r: Result<(ShapeRendering, &'a str), ValueErrorKind>) {
        parse_keyword::<ShapeRendering>(text)
    }
}

impl Property for ShapeRendering {
    open spec fn inherits() -> bool {
        true
    }

    open spec fn initial_view() -> ShapeRendering {
        ShapeRendering::Auto
    }

    open spec fn compute_view(v: ShapeRendering, values: ComputedValuesView) -> ShapeRendering {
        v
    }

    fn inherits_automatically() -> (b: bool) {
        true
    }

    fn initial() -> (d: ShapeRendering) {
        ShapeRendering::Auto
    }

    fn compute(&self, _values: &ComputedValues) -> (r: ShapeRendering) {
        *self
    }

    fn duplicate(&self) -> (r: ShapeRendering) {
        *self
    }
}

impl Default for ShapeRendering {
    fn default() -> (d: ShapeRendering)
        ensures
            d@ == ShapeRendering::initial_view(),
    {
        ShapeRendering::initial()
    }
}

/// The `stop-color` property. Not inherited; initially opaque black.
#[derive(Clone, Copy, Debug, PartialEq, Eq, Structural)]
pub struct StopColor(pub CssColor);

impl View for StopColor {
    type V = StopColor;

    open spec fn view(&self) -> StopColor {
        *self
    }
}

impl Parse for StopColor {
    open spec fn parsed(text: Seq<char>) -> Result<(StopColor, Seq<char>), ValueErrorKind> {
        match CssColor::parsed(text) {
            Ok((v, rest)) => Ok((StopColor(v), rest)),
            Err(e) => Err(e),
        }
    }

    fn parse<'a>(text: &'a str) -> (r: Result<(StopColor, &'a str), ValueErrorKind>) {
        match CssColor::parse(text) {
            Ok((v, rest)) => Ok((StopColor(v), rest)),
            Err(e) => Err(e),
        }
    }
}

impl Property for StopColor {
    open spec fn inherits() -> bool {
        false
    }

    open spec fn initial_view() -> StopColor {
        StopColor(CssColor::Rgba(Rgba { red: 0, green: 0, blue: 0, alpha: 255 }))
    }

    open spec fn compute_view(v: StopColor, values: ComputedValuesView) -> StopColor {
        v
    }

    fn inherits_automatically() -> (b: bool) {
        false
    }

    fn initial() -> (d: StopColor) {
        StopColor(CssColor::Rgba(Rgba::new(0, 0, 0, 255)))
    }

    fn compute(&self, _values: &ComputedValues) -> (r: StopColor) {
        *self
    }

    fn duplicate(&self) -> (r: StopColor) {
        *self
    }
}

impl Default for StopColor {
    fn default() -> (d: StopColor)
        ensures
            d@ == StopColor::initial_view(),
    {
        StopColor::initial()
    }
}

/// The `stop-opacity` property. Not inherited; initially one.
#[derive(Clone, Copy, Debug, PartialEq, Eq, Structural)]
pub struct StopOpacity(pub UnitInterval);

impl View for StopOpacity {
    type V = StopOpacity;

    open spec fn view(&self) -> StopOpacity {
        *self
    }
}

impl Parse for StopOpacity {
    open spec fn parsed(text: Seq<char>) -> Result<(StopOpacity, Seq<char>), ValueErrorKind> {
        match UnitInterval::parsed(text) {
            Ok((v, rest)) => Ok((StopOpacity(v), rest)),
            Err(e) => Err(e),
        }
    }

    fn parse<'a>(text: &'a str) -> (r: Result<(StopOpacity, &'a str), ValueErrorKind>) {
        match UnitInterval::parse(text) {
            Ok((v, rest)) => Ok((StopOpacity(v), rest)),
            Err(e) => Err(e),
        }
    }
}

impl Property for StopOpacity {
    open spec fn inherits() -> bool {
        false
    }

    open spec fn initial_view() -> StopOpacity {
        StopOpacity(UnitInterval(Decimal { micros: MICROS_PER_UNIT }))
    }

    open spec fn compute_view(v: StopOpacity, values: ComputedValuesView) -> StopOpacity {
        v
    }

    fn inherits_automatically() -> (b: bool) {
        false
    }

    fn initial() -> (d: StopOpacity) {
        StopOpacity(UnitInterval(Decimal::from_micros(MICROS_PER_UNIT)))
    }

    fn compute(&self, _values: &ComputedValues) -> (r: StopOpacity) {
        *self
    }

    fn duplicate(&self) -> (r: StopOpacity) {
        *self
    }
}

impl Default for StopOpacity {
    fn default() -> (d: StopOpacity)
        ensures
            d@ == StopOpacity::initial_view(),
    {
        StopOpacity::initial()
    }
}

/// The `stroke` property. Inherited; initially `none`.
#[derive(Clone, Debug, PartialEq, Eq)]
pub struct Stroke(pub PaintServer);

impl View for Stroke {
    type V = PaintServerView;

    open spec fn view(&self) -> PaintServerView {
        self.0@
    }
}

impl Parse for Stroke {
    open spec fn parsed(text: Seq<char>) -> Result<(PaintServerView, Seq<char>), ValueErrorKind> {
        PaintServer::parsed(text)
    }

    fn parse<'a>(text: &'a str) -> (r: Result<(Stroke, &'a str), ValueErrorKind>) {
        match PaintServer::parse(text) {
            Ok((v, rest)) => Ok((Stroke(v), rest)),
            Err(e) => Err(e),
        }
    }
}

impl Property for Stroke {
    open spec fn inherits() -> bool {
        true
    }

    open spec fn initial_view() -> PaintServerView {
        PaintServerView::NoPaint
    }

    open spec fn compute_view(v: PaintServerView, values: ComputedValuesView) -> PaintServerView {
        v
    }

    fn inherits_automatically() -> (b: bool) {
        true
    }

    fn initial() -> (d: Stroke) {
        Stroke(PaintServer::NoPaint)
    }

    fn compute(&self, _values: &ComputedValues) -> (r: Stroke) {
        Stroke(self.0.duplicate())
    }

    fn duplicate(&self) -> (r: Stroke) {
        Stroke(self.0.duplicate())
    }
}

impl Default for Stroke {
    fn default() -> (d: Stroke)
        ensures
            d@ == Stroke::initial_view(),
    {
        Stroke::initial()
    }
}

/// The `stroke-dasharray` property. Inherited; initially `none`.
#[derive(Clone, Debug, PartialEq, Eq)]
pub struct StrokeDasharray(pub Dasharray);

impl View for StrokeDasharray {
    type V = DasharrayView;

    open spec fn view(&self) -> DasharrayView {
        self.0@
    }
}

impl Parse for StrokeDasharray {
    open spec fn parsed(text: Seq<char>) -> Result<(DasharrayView, Seq<char>), ValueErrorKind> {
        Dasharray::parsed(text)
    }

    fn parse<'a>(text: &'a str) -> (r: Result<(StrokeDasharray, &'a str), ValueErrorKind>) {
        match Dasharray::parse(text) {
            Ok((v, rest)) => Ok((StrokeDasharray(v), rest)),
            Err(e) => Err(e),
        }
    }
}

impl Property for StrokeDasharray {
    open spec fn inherits() -> bool {
        true
    }

    open spec fn initial_view() -> DasharrayView {
        DasharrayView::Solid
    }

    open spec fn compute_view(v: DasharrayView, values: ComputedValuesView) -> DasharrayView {
        v
    }

    fn inherits_automatically() -> (b: bool) {
        true
    }

    fn initial() -> (d: StrokeDasharray) {
        StrokeDasharray(Dasharray::Solid)
    }

    fn compute(&self, _values: &ComputedValues) -> (r: StrokeDasharray) {
        StrokeDasharray(self.0.duplicate())
    }

    fn duplicate(&self) -> (r: StrokeDasharray) {
        StrokeDasharray(self.0.duplicate())
    }
}

impl Default for StrokeDasharray {
    fn default() -> (d: StrokeDasharray)
        ensures
            d@ == StrokeDasharray::initial_view(),
    {
        StrokeDasharray::initial()
    }
}

/// The `stroke-dashoffset` property. Inherited; initially zero.
#[derive(Clone, Copy, Debug, PartialEq, Eq, Structural)]
pub struct StrokeDashoffset(pub Length);

impl View for StrokeDashoffset {
    type V = StrokeDashoffset;

    open spec fn view(&self) -> StrokeDashoffset {
        *self
    }
}

impl Parse for StrokeDashoffset {
    open spec fn parsed(text: Seq<char>) -> Result<(StrokeDashoffset, Seq<char>), ValueErrorKind> {
        match Length::parsed(text) {
            Ok((v, rest)) => Ok((StrokeDashoffset(v), rest)),
            Err(e) => Err(e),
        }
    }

    fn parse<'a>(text: &'a str) -> (r: Result<(StrokeDashoffset, &'a str), ValueErrorKind>) {
        match Length::parse(text) {
            Ok((v, rest)) => Ok((StrokeDashoffset(v), rest)),
            Err(e) => Err(e),
        }
    }
}

impl Property for StrokeDashoffset {
    open spec fn inherits() -> bool {
        true
    }

    open spec fn initial_view() -> StrokeDashoffset {
        StrokeDashoffset(Length { length: Decimal { micros: 0 }, unit: LengthUnit::Px })
    }

    open spec fn compute_view(v: StrokeDashoffset, values: ComputedValuesView) -> StrokeDashoffset {
        v
    }

    fn inherits_automatically() -> (b: bool) {
        true
    }

    fn initial() -> (d: StrokeDashoffset) {
        StrokeDashoffset(Length::new(Decimal::from_micros(0), LengthUnit::Px))
    }

    fn compute(&self, _values: &ComputedValues) -> (r: StrokeDashoffset) {
        *self
    }

    fn duplicate(&self) -> (r: StrokeDashoffset) {
        *self
    }
}

impl Default for StrokeDashoffset {
    fn default() -> (d: StrokeDashoffset)
        ensures
            d@ == StrokeDashoffset::initial_view(),
    {
        StrokeDashoffset::initial()
    }
}

/// The `stroke-linecap` property. Inherited; initially `butt`.
#[derive(Clone, Copy, Debug, PartialEq, Eq, Structural)]
pub enum StrokeLinecap {
    Butt,
    Round,
    Square,
}

impl View for StrokeLinecap {
    type V = StrokeLinecap;

    open spec fn view(&self) -> StrokeLinecap {
        *self
    }
}

impl Keyword for StrokeLinecap {
    open spec fn named(ident: Seq<char>) -> Option<StrokeLinecap> {
        if same_ignoring_case(ident, "butt"@) {
            Some(StrokeLinecap::Butt)
        } else if same_ignoring_case(ident, "round"@) {
            Some(StrokeLinecap::Round)
        } else if same_ignoring_case(ident, "square"@) {
            Some(StrokeLinecap::Square)
        } else {
            None
        }
    }

    fn from_ident(ident: &str) -> (r: Option<StrokeLinecap>) {
        if eq_ignore_ascii_case(ident, "butt") {
            Some(StrokeLinecap::Butt)
        } else if eq_ignore_ascii_case(ident, "round") {
            Some(StrokeLinecap::Round)
        } else if eq_ignore_ascii_case(ident, "square") {
            Some(StrokeLinecap::Square)
        } else {
            None
        }
    }
}

impl Parse for StrokeLinecap {
    open spec fn parsed(text: Seq<char>) -> Result<(StrokeLinecap, Seq<char>), ValueErrorKind> {
        parsed_keyword::<StrokeLinecap>(text)
    }

    fn parse<'a>(text: &'a str) -> (r: Result<(StrokeLinecap, &'a str), ValueErrorKind>) {
        parse_keyword::<StrokeLinecap>(text)
    }
}

impl Property for StrokeLinecap {
    open spec fn inherits() -> bool {
        true
    }

    open spec fn initial_view() -> StrokeLinecap {
        StrokeLinecap::Butt
    }

    open spec fn compute_view(v: StrokeLinecap, values: ComputedValuesView) -> StrokeLinecap {
        v
    }

    fn inherits_automatically() -> (b: bool) {
        true
    }

    fn initial() -> (d: StrokeLinecap) {
        StrokeLinecap::Butt
    }

    fn compute(&self, _values: &ComputedValues) -> (r: StrokeLinecap) {
        *self
    }

    fn duplicate(&self) -> (r: StrokeLinecap) {
        *self
    }
}

impl Default for StrokeLinecap {
    fn default() -> (d: StrokeLinecap)
        ensures
            d@ == StrokeLinecap::initial_view(),
    {
        StrokeLinecap::initial()
    }
}

/// The `stroke-linejoin` property. Inherited; initially `miter`.
#[derive(Clone, Copy, Debug, PartialEq, Eq, Structural)]
pub enum StrokeLinejoin {
    Miter,
    Round,
    Bevel,
}

impl View for StrokeLinejoin {
    type V = StrokeLinejoin;

    open spec fn view(&self) -> StrokeLinejoin {
        *self
    }
}

impl Keyword for StrokeLinejoin {
    open spec fn named(ident: Seq<char>) -> Option<StrokeLinejoin> {
        if same_ignoring_case(ident, "miter"@) {
            Some(StrokeLinejoin::Miter)
        } else if same_ignoring_case(ident, "round"@) {
            Some(StrokeLinejoin::Round)
        } else if same_ignoring_case(ident, "bevel"@) {
            Some(StrokeLinejoin::Bevel)
        } else {
            None
        }
    }

    fn from_ident(ident: &str) -> (r: Option<StrokeLinejoin>) {
        if eq_ignore_ascii_case(ident, "miter") {
            Some(StrokeLinejoin::Miter)
        } else if eq_ignore_ascii_case(ident, "round") {
            Some(StrokeLinejoin::Round)
        } else if eq_ignore_ascii_case(ident, "bevel") {
            Some(StrokeLinejoin::Bevel)
        } else {
            None
        }
    }
}

impl Parse for StrokeLinejoin {
    open spec fn parsed(text: Seq<char>) -> Result<(StrokeLinejoin, Seq<char>), ValueErrorKind> {
        parsed_keyword::<StrokeLinejoin>(text)
    }

    fn parse<'a>(text: &'a str) -> (r: Result<(StrokeLinejoin, &'a str), ValueErrorKind>) {
        parse_keyword::<StrokeLinejoin>(text)
    }
}

impl Property for StrokeLinejoin {
    open spec fn inherits() -> bool {
        true
    }

    open spec fn initial_view() -> StrokeLinejoin {
        StrokeLinejoin::Miter
    }

    open spec fn compute_view(v: StrokeLinejoin, values: ComputedValuesView) -> StrokeLinejoin {
        v
    }

    fn inherits_automatically() -> (b: bool) {
        true
    }

    fn initial() -> (d: StrokeLinejoin) {
        StrokeLinejoin::Miter
    }

    fn compute(&self, _values: &ComputedValues) -> (r: StrokeLinejoin) {
        *self
    }

    fn duplicate(&self) -> (r: StrokeLinejoin) {
        *self
    }
}

impl Default for StrokeLinejoin {
    fn default() -> (d: StrokeLinejoin)
        ensures
            d@ == StrokeLinejoin::initial_view(),
    {
        StrokeLinejoin::initial()
    }
}

/// The `stroke-opacity` property. Inherited; initially one.
#[derive(Clone, Copy, Debug, PartialEq, Eq, Structural)]
pub struct StrokeOpacity(pub UnitInterval);

impl View for StrokeOpacity {
    type V = StrokeOpacity;

    open spec fn view(&self) -> StrokeOpacity {
        *self
    }
}

impl Parse for StrokeOpacity {
    open spec fn parsed(text: Seq<char>) -> Result<(StrokeOpacity, Seq<char>), ValueErrorKind> {
        match UnitInterval::parsed(text) {
            Ok((v, rest)) => Ok((StrokeOpacity(v), rest)),
            Err(e) => Err(e),
        }
    }

    fn parse<'a>(text: &'a str) -> (r: Result<(StrokeOpacity, &'a str), ValueErrorKind>) {
        match UnitInterval::parse(text) {
            Ok((v, rest)) => Ok((StrokeOpacity(v), rest)),
            Err(e) => Err(e),
        }
    }
}

impl Property for StrokeOpacity {
    open spec fn inherits() -> bool {
        true
    }

    open spec fn initial_view() -> StrokeOpacity {
        StrokeOpacity(UnitInterval(Decimal { micros: MICROS_PER_UNIT }))
    }

    open spec fn compute_view(v: StrokeOpacity, values: ComputedValuesView) -> StrokeOpacity {
        v
    }

    fn inherits_automatically() -> (b: bool) {
        true
    }

    fn initial() -> (d: StrokeOpacity) {
        StrokeOpacity(UnitInterval(Decimal::from_micros(MICROS_PER_UNIT)))
    }

    fn compute(&self, _values: &ComputedValues) -> (r: StrokeOpacity) {
        *self
    }

    fn duplicate(&self) -> (r: StrokeOpacity) {
        *self
    }
}

impl Default for StrokeOpacity {
    fn default() -> (d: StrokeOpacity)
        ensures
            d@ == StrokeOpacity::initial_view(),
    {
        StrokeOpacity::initial()
    }
}

/// The `stroke-miterlimit` property. Inherited; initially four.
#[derive(Clone, Copy, Debug, PartialEq, Eq, Structural)]
pub struct StrokeMiterlimit(pub Decimal);

impl View for StrokeMiterlimit {
    type V = StrokeMiterlimit;

    open spec fn view(&self) -> StrokeMiterlimit {
        *self
    }
}

impl Parse for StrokeMiterlimit {
    open spec fn parsed(text: Seq<char>) -> Result<(StrokeMiterlimit, Seq<char>), ValueErrorKind> {
        match Decimal::parsed(text) {
            Ok((v, rest)) => Ok((StrokeMiterlimit(v), rest)),
            Err(e) => Err(e),
        }
    }

    fn parse<'a>(text: &'a str) -> (r: Result<(StrokeMiterlimit, &'a str), ValueErrorKind>) {
        match Decimal::parse(text) {
            Ok((v, rest)) => Ok((StrokeMiterlimit(v), rest)),
            Err(e) => Err(e),
        }
    }
}

impl Property for StrokeMiterlimit {
    open spec fn inherits() -> bool {
        true
    }

    open spec fn initial_view() -> StrokeMiterlimit {
        StrokeMiterlimit(Decimal { micros: 4_000_000 })
    }

    open spec fn compute_view(v: StrokeMiterlimit, values: ComputedValuesView) -> StrokeMiterlimit {
        v
    }

    fn inherits_automatically() -> (b: bool) {
        true
    }

    fn initial() -> (d: StrokeMiterlimit) {
        StrokeMiterlimit(Decimal::from_micros(4 * MICROS_PER_UNIT))
    }

    fn compute(&self, _values: &ComputedValues) -> (r: StrokeMiterlimit) {
        *self
    }

    fn duplicate(&self) -> (r: StrokeMiterlimit) {
        *self
    }
}

impl Default for StrokeMiterlimit {
    fn default() -> (d: StrokeMiterlimit)
        ensures
            d@ == StrokeMiterlimit::initial_view(),
    {
        StrokeMiterlimit::initial()
    }
}

/// The `stroke-width` property. Inherited; initially one pixel.
#[derive(Clone, Copy, Debug, PartialEq, Eq, Structural)]
pub struct StrokeWidth(pub Length);

impl View for StrokeWidth {
    type V = StrokeWidth;

    open spec fn view(&self) -> StrokeWidth {
        *self
    }
}

impl Parse for StrokeWidth {
    open spec fn parsed(text: Seq<char>) -> Result<(StrokeWidth, Seq<char>), ValueErrorKind> {
        match Length::parsed(text) {
            Ok((v, rest)) => Ok((StrokeWidth(v), rest)),
            Err(e) => Err(e),
        }
    }

    fn parse<'a>(text: &'a str) -> (r: Result<(StrokeWidth, &'a str), ValueErrorKind>) {
        match Length::parse(text) {
            Ok((v, rest)) => Ok((StrokeWidth(v), rest)),
            Err(e) => Err(e),
        }
    }
}

impl Property for StrokeWidth {
    open spec fn inherits() -> bool {
        true
    }

    open spec fn initial_view() -> StrokeWidth {
        StrokeWidth(Length { length: Decimal { micros: MICROS_PER_UNIT }, unit: LengthUnit::Px })
    }

    open spec fn compute_view(v: StrokeWidth, values: ComputedValuesView) -> StrokeWidth {
        v
    }

    fn inherits_automatically() -> (b: bool) {
        true
    }

    fn initial() -> (d: StrokeWidth) {
        StrokeWidth(Length::new(Decimal::from_micros(MICROS_PER_UNIT), LengthUnit::Px))
    }

    fn compute(&self, _values: &ComputedValues) -> (r: StrokeWidth) {
        *self
    }

    fn duplicate(&self) -> (r: StrokeWidth) {
        *self
    }
}

impl Default for StrokeWidth {
    fn default() -> (d: StrokeWidth)
        ensures
            d@ == StrokeWidth::initial_view(),
    {
        StrokeWidth::initial()
    }
}

} // verus!
