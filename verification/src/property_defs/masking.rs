//! Properties of what is shown of an element: clipping, masking, opacity, visibility.

use crate::computed::{ComputedValues, ComputedValuesView};
use crate::error::ValueErrorKind;
use crate::iri::{IriView, IRI};
use crate::number::{Decimal, MICROS_PER_UNIT};
use crate::parsers::{parse_keyword, parsed_keyword, Keyword, Parse};
use crate::property::Property;
use crate::text::{eq_ignore_ascii_case, same_ignoring_case};
use crate::unit_interval::UnitInterval;
use vstd::prelude::*;

verus! {

/// The `clip-path` property. Not inherited; initially `none`.
#[derive(Clone, Debug, PartialEq, Eq)]
pub struct ClipPath(pub IRI);

impl View for ClipPath {
    type V = IriView;

    open spec fn view(&self) -> IriView {
        self.0@
    }
}

impl Parse for ClipPath {
    open spec fn parsed(text: Seq<char>) -> Result<(IriView, Seq<char>), ValueErrorKind> {
        IRI::parsed(text)
    }

    fn parse<'a>(text: &'a str) -> (r: Result<(ClipPath, &'a str), ValueErrorKind>) {
        match IRI::parse(text) {
            Ok((v, rest)) => Ok((ClipPath(v), rest)),
            Err(e) => Err(e),
        }
    }
}

impl Property for ClipPath {
    open spec fn inherits() -> bool {
        false
    }

    open spec fn initial_view() -> IriView {
        IriView::NoResource
    }

    open spec fn compute_view(v: IriView, values: ComputedValuesView) -> IriView {
        v
    }

    fn inherits_automatically() -> (b: bool) {
        false
    }

    fn initial() -> (d: ClipPath) {
        ClipPath(IRI::NoResource)
    }

    fn compute(&self, _values: &ComputedValues) -> (r: ClipPath) {
        ClipPath(self.0.duplicate())
    }

    fn duplicate(&self) -> (r: ClipPath) {
        ClipPath(self.0.duplicate())
    }
}

impl Default for ClipPath {
    fn default() -> (d: ClipPath)
        ensures
            d@ == ClipPath::initial_view(),
    {
        ClipPath::initial()
    }
}

/// The `clip-rule` property. Inherited; initially `nonzero`.
#[derive(Clone, Copy, Debug, PartialEq, Eq, Structural)]
pub enum ClipRule {
    NonZero,
    EvenOdd,
}

impl View for ClipRule {
    type V = ClipRule;

    open spec fn view(&self) -> ClipRule {
        *self
    }
}

impl Keyword for ClipRule {
    open spec fn named(ident: Seq<char>) -> Option<ClipRule> {
        if same_ignoring_case(ident, "nonzero"@) {
            Some(ClipRule::NonZero)
        } else if same_ignoring_case(ident, "evenodd"@) {
            Some(ClipRule::EvenOdd)
        } else {
            None
        }
    }

    fn from_ident(ident: &str) -> (r: Option<ClipRule>) {
        if eq_ignore_ascii_case(ident, "nonzero") {
            Some(ClipRule::NonZero)
        } else if eq_ignore_ascii_case(ident, "evenodd") {
            Some(ClipRule::EvenOdd)
        } else {
            None
        }
    }
}

impl Parse for ClipRule {
    open spec fn parsed(text: Seq<char>) -> Result<(ClipRule, Seq<char>), ValueErrorKind> {
        parsed_keyword::<ClipRule>(text)
    }

    fn parse<'a>(text: &'a str) -> (r: Result<(ClipRule, &'a str), ValueErrorKind>) {
        parse_keyword::<ClipRule>(text)
    }
}

impl Property for ClipRule {
    open spec fn inherits() -> bool {
        true
    }

    open spec fn initial_view() -> ClipRule {
        ClipRule::NonZero
    }

    open spec fn compute_view(v: ClipRule, values: ComputedValuesView) -> ClipRule {
        v
    }

    fn inherits_automatically() -> (b: bool) {
        true
    }

    fn initial() -> (d: ClipRule) {
        ClipRule::NonZero
    }

    fn compute(&self, _values: &ComputedValues) -> (r: ClipRule) {
        *self
    }

    fn duplicate(&self) -> (r: ClipRule) {
        *self
    }
}

impl Default for ClipRule {
    fn default() -> (d: ClipRule)
        ensures
            d@ == ClipRule::initial_view(),
    {
        ClipRule::initial()
    }
}

/// The `display` property. Inherited; initially `inline`.
#[derive(Clone, Copy, Debug, PartialEq, Eq, Structural)]
pub enum Display {
    Block,
    Inline,
    ListItem,
    RunIn,
    Compact,
    Marker,
    Table,
    InlineTable,
    TableRowGroup,
    TableHeaderGroup,
    TableFooterGroup,
    TableRow,
    TableColumnGroup,
    TableColumn,
    TableCell,
    TableCaption,
    /// Written `none`.
    NoDisplay,
}

impl View for Display {
    type V = Display;

    open spec fn view(&self) -> Display {
        *self
    }
}

impl Keyword for Display {
    open spec fn named(ident: Seq<char>) -> Option<Display> {
        if same_ignoring_case(ident, "block"@) {
            Some(Display::Block)
        } else if same_ignoring_case(ident, "inline"@) {
            Some(Display::Inline)
        } else if same_ignoring_case(ident, "list-item"@) {
            Some(Display::ListItem)
        } else if same_ignoring_case(ident, "run-in"@) {
            Some(Display::RunIn)
        } else if same_ignoring_case(ident, "compact"@) {
            Some(Display::Compact)
        } else if same_ignoring_case(ident, "marker"@) {
            Some(Display::Marker)
        } else if same_ignoring_case(ident, "table"@) {
            Some(Display::Table)
        } else if same_ignoring_case(ident, "inline-table"@) {
            Some(Display::InlineTable)
        } else if same_ignoring_case(ident, "table-row-group"@) {
            Some(Display::TableRowGroup)
        } else if same_ignoring_case(ident, "table-header-group"@) {
            Some(Display::TableHeaderGroup)
        } else if same_ignoring_case(ident, "table-footer-group"@) {
            Some(Display::TableFooterGroup)
        } else if same_ignoring_case(ident, "table-row"@) {
            Some(Display::TableRow)
        } else if same_ignoring_case(ident, "table-column-group"@) {
            Some(Display::TableColumnGroup)
        } else if same_ignoring_case(ident, "table-column"@) {
            Some(Display::TableColumn)
        } else if same_ignoring_case(ident, "table-cell"@) {
            Some(Display::TableCell)
        } else if same_ignoring_case(ident, "table-caption"@) {
            Some(Display::TableCaption)
        } else if same_ignoring_case(ident, "none"@) {
            Some(Display::NoDisplay)
        } else {
            None
        }
    }

    fn from_ident(ident: &str) -> (r: Option<Display>) {
        if eq_ignore_ascii_case(ident, "block") {
            Some(Display::Block)
        } else if eq_ignore_ascii_case(ident, "inline") {
            Some(Display::Inline)
        } else if eq_ignore_ascii_case(ident, "list-item") {
            Some(Display::ListItem)
        } else if eq_ignore_ascii_case(ident, "run-in") {
            Some(Display::RunIn)
        } else if eq_ignore_ascii_case(ident, "compact") {
            Some(Display::Compact)
        } else if eq_ignore_ascii_case(ident, "marker") {
            Some(Display::Marker)
        } else if eq_ignore_ascii_case(ident, "table") {
            Some(Display::Table)
        } else if eq_ignore_ascii_case(ident, "inline-table") {
            Some(Display::InlineTable)
        } else if eq_ignore_ascii_case(ident, "table-row-group") {
            Some(Display::TableRowGroup)
        } else if eq_ignore_ascii_case(ident, "table-header-group") {
            Some(Display::TableHeaderGroup)
        } else if eq_ignore_ascii_case(ident, "table-footer-group") {
            Some(Display::TableFooterGroup)
        } else if eq_ignore_ascii_case(ident, "table-row") {
            Some(Display::TableRow)
        } else if eq_ignore_ascii_case(ident, "table-column-group") {
            Some(Display::TableColumnGroup)
        } else if eq_ignore_ascii_case(ident, "table-column") {
            Some(Display::TableColumn)
        } else if eq_ignore_ascii_case(ident, "table-cell") {
            Some(Display::TableCell)
        } else if eq_ignore_ascii_case(ident, "table-caption") {
            Some(Display::TableCaption)
        } else if eq_ignore_ascii_case(ident, "none") {
            Some(Display::NoDisplay)
        } else {
            None
        }
    }
}

impl Parse for Display {
    open spec fn parsed(text: Seq<char>) -> Result<(Display, Seq<char>), ValueErrorKind> {
        parsed_keyword::<Display>(text)
    }

    fn parse<'a>(text: &'a str) -> (r: Result<(Display, &'a str), ValueErrorKind>) {
        parse_keyword::<Display>(text)
    }
}

impl Property for Display {
    open spec fn inherits() -> bool {
        true
    }

    open spec fn initial_view() -> Display {
        Display::Inline
    }

    open spec fn compute_view(v: Display, values: ComputedValuesView) -> Display {
        v
    }

    fn inherits_automatically() -> (b: bool) {
        true
    }

    fn initial() -> (d: Display) {
        Display::Inline
    }

    fn compute(&self, _values: &ComputedValues) -> (r: Display) {
        *self
    }

    fn duplicate(&self) -> (r: Display) {
        *self
    }
}

impl Default for Display {
    fn default() -> (d: Display)
        ensures
            d@ == Display::initial_view(),
    {
        Display::initial()
    }
}

/// The `mask` property. Not inherited; initially `none`.
#[derive(Clone, Debug, PartialEq, Eq)]
pub struct Mask(pub IRI);

impl View for Mask {
    type V = IriView;

    open spec fn view(&self) -> IriView {
        self.0@
    }
}

impl Parse for Mask {
    open spec fn parsed(text: Seq<char>) -> Result<(IriView, Seq<char>), ValueErrorKind> {
        IRI::parsed(text)
    }

    fn parse<'a>(text: &'a str) -> (r: Result<(Mask, &'a str), ValueErrorKind>) {
        match IRI::parse(text) {
            Ok((v, rest)) => Ok((Mask(v), rest)),
            Err(e) => Err(e),
        }
    }
}

impl Property for Mask {
    open spec fn inherits() -> bool {
        false
    }

    open spec fn initial_view() -> IriView {
        IriView::NoResource
    }

    open spec fn compute_view(v: IriView, values: ComputedValuesView) -> IriView {
        v
    }

    fn inherits_automatically() -> (b: bool) {
        false
    }

    fn initial() -> (d: Mask) {
        Mask(IRI::NoResource)
    }

    fn compute(&self, _values: &ComputedValues) -> (r: Mask) {
        Mask(self.0.duplicate())
    }

    fn duplicate(&self) -> (r: Mask) {
        Mask(self.0.duplicate())
    }
}

impl Default for Mask {
    fn default() -> (d: Mask)
        ensures
            d@ == Mask::initial_view(),
    {
        Mask::initial()
    }
}

/// The `opacity` property. Not inherited; initially one.
#[derive(Clone, Copy, Debug, PartialEq, Eq, Structural)]
pub struct Opacity(pub UnitInterval);

impl View for Opacity {
    type V = Opacity;

    open spec fn view(&self) -> Opacity {
        *self
    }
}

impl Parse for Opacity {
    open spec fn parsed(text: Seq<char>) -> Result<(Opacity, Seq<char>), ValueErrorKind> {
        match UnitInterval::parsed(text) {
            Ok((v, rest)) => Ok((Opacity(v), rest)),
            Err(e) => Err(e),
        }
    }

    fn parse<'a>(text: &'a str) -> (r: Result<(Opacity, &'a str), ValueErrorKind>) {
        match UnitInterval::parse(text) {
            Ok((v, rest)) => Ok((Opacity(v), rest)),
            Err(e) => Err(e),
        }
    }
}

impl Property for Opacity {
    open spec fn inherits() -> bool {
        false
    }

    open spec fn initial_view() -> Opacity {
        Opacity(UnitInterval(Decimal { micros: MICROS_PER_UNIT }))
    }

    open spec fn compute_view(v: Opacity, values: ComputedValuesView) -> Opacity {
        v
    }

    fn inherits_automatically() -> (b: bool) {
        false
    }

    fn initial() -> (d: Opacity) {
        Opacity(UnitInterval(Decimal::from_micros(MICROS_PER_UNIT)))
    }

    fn compute(&self, _values: &ComputedValues) -> (r: Opacity) {
        *self
    }

    fn duplicate(&self) -> (r: Opacity) {
        *self
    }
}

impl Default for Opacity {
    fn default() -> (d: Opacity)
        ensures
            d@ == Opacity::initial_view(),
    {
        Opacity::initial()
    }
}

/// The `overflow` property. Not inherited; initially `visible`.
#[derive(Clone, Copy, Debug, PartialEq, Eq, Structural)]
pub enum Overflow {
    Visible,
    Hidden,
    Scroll,
    Auto,
}

impl View for Overflow {
    type V = Overflow;

    open spec fn view(&self) -> Overflow {
        *self
    }
}

impl Keyword for Overflow {
    open spec fn named(ident: Seq<char>) -> Option<Overflow> {
        if same_ignoring_case(ident, "visible"@) {
            Some(Overflow::Visible)
        } else if same_ignoring_case(ident, "hidden"@) {
            Some(Overflow::Hidden)
        } else if same_ignoring_case(ident, "scroll"@) {
            Some(Overflow::Scroll)
        } else if same_ignoring_case(ident, "auto"@) {
            Some(Overflow::Auto)
        } else {
            None
        }
    }

    fn from_ident(ident: &str) -> (r: Option<Overflow>) {
        if eq_ignore_ascii_case(ident, "visible") {
            Some(Overflow::Visible)
        } else if eq_ignore_ascii_case(ident, "hidden") {
            Some(Overflow::Hidden)
        } else if eq_ignore_ascii_case(ident, "scroll") {
            Some(Overflow::Scroll)
        } else if eq_ignore_ascii_case(ident, "auto") {
            Some(Overflow::Auto)
        } else {
            None
        }
    }
}

impl Parse for Overflow {
    open spec fn parsed(text: Seq<char>) -> Result<(Overflow, Seq<char>), ValueErrorKind> {
        parsed_keyword::<Overflow>(text)
    }

    fn parse<'a>(text: &'a str) -> (r: Result<(Overflow, &'a str), ValueErrorKind>) {
        parse_keyword::<Overflow>(text)
    }
}

impl Property for Overflow {
    open spec fn inherits() -> bool {
        false
    }

    open spec fn initial_view() -> Overflow {
        Overflow::Visible
    }

    open spec fn compute_view(v: Overflow, values: ComputedValuesView) -> Overflow {
        v
    }

    fn inherits_automatically() -> (b: bool) {
        false
    }

    fn initial() -> (d: Overflow) {
        Overflow::Visible
    }

    fn compute(&self, _values: &ComputedValues) -> (r: Overflow) {
        *self
    }

    fn duplicate(&self) -> (r: Overflow) {
        *self
    }
}

impl Default for Overflow {
    fn default() -> (d: Overflow)
        ensures
            d@ == Overflow::initial_view(),
    {
        Overflow::initial()
    }
}

/// The `visibility` property. Inherited; initially `visible`.
#[derive(Clone, Copy, Debug, PartialEq, Eq, Structural)]
pub enum Visibility {
    Visible,
    Hidden,
    Collapse,
}

impl View for Visibility {
    type V = Visibility;

    open spec fn view(&self) -> Visibility {
        *self
    }
}

impl Keyword for Visibility {
    open spec fn named(ident: Seq<char>) -> Option<Visibility> {
        if same_ignoring_case(ident, "visible"@) {
            Some(Visibility::Visible)
        } else if same_ignoring_case(ident, "hidden"@) {
            Some(Visibility::Hidden)
        } else if same_ignoring_case(ident, "collapse"@) {
            Some(Visibility::Collapse)
        } else {
            None
        }
    }

    fn from_ident(ident: &str) -> (r: Option<Visibility>) {
        if eq_ignore_ascii_case(ident, "visible") {
            Some(Visibility::Visible)
        } else if eq_ignore_ascii_case(ident, "hidden") {
            Some(Visibility::Hidden)
        } else if eq_ignore_ascii_case(ident, "collapse") {
            Some(Visibility::Collapse)
        } else {
            None
        }
    }
}

impl Parse for Visibility {
    open spec fn parsed(text: Seq<char>) -> Result<(Visibility, Seq<char>), ValueErrorKind> {
        parsed_keyword::<Visibility>(text)
    }

    fn parse<'a>(text: &'a str) -> (r: Result<(Visibility, &'a str), ValueErrorKind>) {
        parse_keyword::<Visibility>(text)
    }
}

impl Property for Visibility {
    open spec fn inherits() -> bool {
        true
    }

    open spec fn initial_view() -> Visibility {
        Visibility::Visible
    }

    open spec fn compute_view(v: Visibility, values: ComputedValuesView) -> Visibility {
        v
    }

    fn inherits_automatically() -> (b: bool) {
        true
    }

    fn initial() -> (d: Visibility) {
        Visibility::Visible
    }

    fn compute(&self, _values: &ComputedValues) -> (r: Visibility) {
        *self
    }

    fn duplicate(&self) -> (r: Visibility) {
        *self
    }
}

impl Default for Visibility {
    fn default() -> (d: Visibility)
        ensures
            d@ == Visibility::initial_view(),
    {
        Visibility::initial()
    }
}

} // verus!
