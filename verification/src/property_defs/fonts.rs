//! Properties of fonts.

use crate::computed::{ComputedValues, ComputedValuesView};
use crate::error::ValueErrorKind;
use crate::font::{parse_family, parsed_family, FontSizeSpec, FontWeightSpec};
use crate::length::{Length, LengthUnit};
use crate::number::Decimal;
use crate::parsers::{parse_keyword, parsed_keyword, Keyword, Parse};
use crate::property::Property;
use crate::text::{eq_ignore_ascii_case, same_ignoring_case};
use vstd::prelude::*;

verus! {

/// The `font-family` property. Inherited; initially `Times New Roman`.
#[derive(Clone, Debug, PartialEq, Eq)]
pub struct FontFamily(pub String);

impl View for FontFamily {
    type V = Seq<char>;

    open spec fn view(&self) -> Seq<char> {
        self.0@
    }
}

impl Parse for FontFamily {
    open spec fn parsed(text: Seq<char>) -> Result<(Seq<char>, Seq<char>), ValueErrorKind> {
        parsed_family(text)
    }

    fn parse<'a>(text: &'a str) -> (r: Result<(FontFamily, &'a str), ValueErrorKind>) {
        match parse_family(text) {
            Ok((name, rest)) => Ok((FontFamily(name), rest)),
            Err(e) => Err(e),
        }
    }
}

impl Property for FontFamily {
    open spec fn inherits() -> bool {
        true
    }

    open spec fn initial_view() -> Seq<char> {
        "Times New Roman"@
    }

    open spec fn compute_view(v: Seq<char>, values: ComputedValuesView) -> Seq<char> {
        v
    }

    fn inherits_automatically() -> (b: bool) {
        true
    }

    fn initial() -> (d: FontFamily) {
        FontFamily("Times New Roman".to_owned())
    }

    fn compute(&self, _values: &ComputedValues) -> (r: FontFamily) {
        FontFamily(self.0.clone())
    }

    fn duplicate(&self) -> (r: FontFamily) {
        FontFamily(self.0.clone())
    }
}

impl Default for FontFamily {
    fn default() -> (d: FontFamily)
        ensures
            d@ == FontFamily::initial_view(),
    {
        FontFamily::initial()
    }
}

/// The `font-size` property. Inherited; initially 12 pixels. A computed font
/// size is a length in a unit that depends on no other length.
#[derive(Clone, Copy, Debug, PartialEq, Eq, Structural)]
pub struct FontSize(pub FontSizeSpec);

impl View for FontSize {
    type V = FontSize;

    open spec fn view(&self) -> FontSize {
        *self
    }
}

/// The font size that stands in where one is needed and none was computed.
pub open spec fn initial_font_size() -> Length {
    Length { length: Decimal { micros: 12_000_000 }, unit: LengthUnit::Px }
}

impl FontSize {
    /// The length of a computed font size.
    pub open spec fn size(self) -> Length {
        match self.0 {
            FontSizeSpec::Value(size) => size,
            _ => initial_font_size(),
        }
    }

    /// The length of a computed font size.
    pub fn value(&self) -> (r: Length)
        ensures
            r == self.size(),
    {
        match self.0 {
            FontSizeSpec::Value(size) => size,
            _ => Length::new(Decimal::from_micros(12_000_000), LengthUnit::Px),
        }
    }
}

impl Parse for FontSize {
    open spec fn parsed(text: Seq<char>) -> Result<(FontSize, Seq<char>), ValueErrorKind> {
        match FontSizeSpec::parsed(text) {
            Ok((v, rest)) => Ok((FontSize(v), rest)),
            Err(e) => Err(e),
        }
    }

    fn parse<'a>(text: &'a str) -> (r: Result<(FontSize, &'a str), ValueErrorKind>) {
        match FontSizeSpec::parse(text) {
            Ok((v, rest)) => Ok((FontSize(v), rest)),
            Err(e) => Err(e),
        }
    }
}

impl Property for FontSize {
    open spec fn inherits() -> bool {
        true
    }

    open spec fn initial_view() -> FontSize {
        FontSize(FontSizeSpec::Value(initial_font_size()))
    }

    /// The size is resolved against the font size in `values`, which, when
    /// the font size itself is computed, is still that of the parent.
    open spec fn compute_view(v: FontSize, values: ComputedValuesView) -> FontSize {
        FontSize(FontSizeSpec::Value(v.0.resolved(values.font_size.size())))
    }

    fn inherits_automatically() -> (b: bool) {
        true
    }

    fn initial() -> (d: FontSize) {
        FontSize(FontSizeSpec::Value(Length::new(Decimal::from_micros(12_000_000), LengthUnit::Px)))
    }

    fn compute(&self, values: &ComputedValues) -> (r: FontSize) {
        FontSize(FontSizeSpec::Value(self.0.resolve(values.font_size.value())))
    }

    fn duplicate(&self) -> (r: FontSize) {
        *self
    }
}

impl Default for FontSize {
    fn default() -> (d: FontSize)
        ensures
            d@ == FontSize::initial_view(),
    {
        FontSize::initial()
    }
}

/// The `font-stretch` property. Inherited; initially `normal`.
#[derive(Clone, Copy, Debug, PartialEq, Eq, Structural)]
pub enum FontStretch {
    Normal,
    Wider,
    Narrower,
    UltraCondensed,
    ExtraCondensed,
    Condensed,
    SemiCondensed,
    SemiExpanded,
    Expanded,
    ExtraExpanded,
    UltraExpanded,
}

impl View for FontStretch {
    type V = FontStretch;

    open spec fn view(&self) -> FontStretch {
        *self
    }
}

impl Keyword for FontStretch {
    open spec fn named(ident: Seq<char>) -> Option<FontStretch> {
        if same_ignoring_case(ident, "normal"@) {
            Some(FontStretch::Normal)
        } else if same_ignoring_case(ident, "wider"@) {
            Some(FontStretch::Wider)
        } else if same_ignoring_case(ident, "narrower"@) {
            Some(FontStretch::Narrower)
        } else if same_ignoring_case(ident, "ultra-condensed"@) {
            Some(FontStretch::UltraCondensed)
        } else if same_ignoring_case(ident, "extra-condensed"@) {
            Some(FontStretch::ExtraCondensed)
        } else if same_ignoring_case(ident, "condensed"@) {
            Some(FontStretch::Condensed)
        } else if same_ignoring_case(ident, "semi-condensed"@) {
            Some(FontStretch::SemiCondensed)
        } else if same_ignoring_case(ident, "semi-expanded"@) {
            Some(FontStretch::SemiExpanded)
        } else if same_ignoring_case(ident, "expanded"@) {
            Some(FontStretch::Expanded)
        } else if same_ignoring_case(ident, "extra-expanded"@) {
            Some(FontStretch::ExtraExpanded)
        } else if same_ignoring_case(ident, "ultra-expanded"@) {
            Some(FontStretch::UltraExpanded)
        } else {
            None
        }
    }

    fn from_ident(ident: &str) -> (r: Option<FontStretch>) {
        if eq_ignore_ascii_case(ident, "normal") {
            Some(FontStretch::Normal)
        } else if eq_ignore_ascii_case(ident, "wider") {
            Some(FontStretch::Wider)
        } else if eq_ignore_ascii_case(ident, "narrower") {
            Some(FontStretch::Narrower)
        } else if eq_ignore_ascii_case(ident, "ultra-condensed") {
            Some(FontStretch::UltraCondensed)
        } else if eq_ignore_ascii_case(ident, "extra-condensed") {
            Some(FontStretch::ExtraCondensed)
        } else if eq_ignore_ascii_case(ident, "condensed") {
            Some(FontStretch::Condensed)
        } else if eq_ignore_ascii_case(ident, "semi-condensed") {
            Some(FontStretch::SemiCondensed)
        } else if eq_ignore_ascii_case(ident, "semi-expanded") {
            Some(FontStretch::SemiExpanded)
        } else if eq_ignore_ascii_case(ident, "expanded") {
            Some(FontStretch::Expanded)
        } else if eq_ignore_ascii_case(ident, "extra-expanded") {
            Some(FontStretch::ExtraExpanded)
        } else if eq_ignore_ascii_case(ident, "ultra-expanded") {
            Some(FontStretch::UltraExpanded)
        } else {
            None
        }
    }
}

impl Parse for FontStretch {
    open spec fn parsed(text: Seq<char>) -> Result<(FontStretch, Seq<char>), ValueErrorKind> {
        parsed_keyword::<FontStretch>(text)
    }

    fn parse<'a>(text: &'a str) -> (r: Result<(FontStretch, &'a str), ValueErrorKind>) {
        parse_keyword::<FontStretch>(text)
    }
}

impl Property for FontStretch {
    open spec fn inherits() -> bool {
        true
    }

    open spec fn initial_view() -> FontStretch {
        FontStretch::Normal
    }

    open spec fn compute_view(v: FontStretch, values: ComputedValuesView) -> FontStretch {
        v
    }

    fn inherits_automatically() -> (b: bool) {
        true
    }

    fn initial() -> (d: FontStretch) {
        FontStretch::Normal
    }

    fn compute(&self, _values: &ComputedValues) -> (r: FontStretch) {
        *self
    }

    fn duplicate(&self) -> (r: FontStretch) {
        *self
    }
}

impl Default for FontStretch {
    fn default() -> (d: FontStretch)
        ensures
            d@ == FontStretch::initial_view(),
    {
        FontStretch::initial()
    }
}

/// The `font-style` property. Inherited; initially `normal`.
#[derive(Clone, Copy, Debug, PartialEq, Eq, Structural)]
pub enum FontStyle {
    Normal,
    Italic,
    Oblique,
}

impl View for FontStyle {
    type V = FontStyle;

    open spec fn view(&self) -> FontStyle {
        *self
    }
}

impl Keyword for FontStyle {
    open spec fn named(ident: Seq<char>) -> Option<FontStyle> {
        if same_ignoring_case(ident, "normal"@) {
            Some(FontStyle::Normal)
        } else if same_ignoring_case(ident, "italic"@) {
            Some(FontStyle::Italic)
        } else if same_ignoring_case(ident, "oblique"@) {
            Some(FontStyle::Oblique)
        } else {
            None
        }
    }

    fn from_ident(ident: &str) -> (r: Option<FontStyle>) {
        if eq_ignore_ascii_case(ident, "normal") {
            Some(FontStyle::Normal)
        } else if eq_ignore_ascii_case(ident, "italic") {
            Some(FontStyle::Italic)
        } else if eq_ignore_ascii_case(ident, "oblique") {
            Some(FontStyle::Oblique)
        } else {
            None
        }
    }
}

impl Parse for FontStyle {
    open spec fn parsed(text: Seq<char>) -> Result<(FontStyle, Seq<char>), ValueErrorKind> {
        parsed_keyword::<FontStyle>(text)
    }

    fn parse<'a>(text: &'a str) -> (r: Result<(FontStyle, &'a str), ValueErrorKind>) {
        parse_keyword::<FontStyle>(text)
    }
}

impl Property for FontStyle {
    open spec fn inherits() -> bool {
        true
    }

    open spec fn initial_view() -> FontStyle {
        FontStyle::Normal
    }

    open spec fn compute_view(v: FontStyle, values: ComputedValuesView) -> FontStyle {
        v
    }

    fn inherits_automatically() -> (b: bool) {
        true
    }

    fn initial() -> (d: FontStyle) {
        FontStyle::Normal
    }

    fn compute(&self, _values: &ComputedValues) -> (r: FontStyle) {
        *self
    }

    fn duplicate(&self) -> (r: FontStyle) {
        *self
    }
}

impl Default for FontStyle {
    fn default() -> (d: FontStyle)
        ensures
            d@ == FontStyle::initial_view(),
    {
        FontStyle::initial()
    }
}

/// The `font-variant` property. Inherited; initially `normal`.
#[derive(Clone, Copy, Debug, PartialEq, Eq, Structural)]
pub enum FontVariant {
    Normal,
    SmallCaps,
}

impl View for FontVariant {
    type V = FontVariant;

    open spec fn view(&self) -> FontVariant {
        *self
    }
}

impl Keyword for FontVariant {
    open spec fn named(ident: Seq<char>) -> Option<FontVariant> {
        if same_ignoring_case(ident, "normal"@) {
            Some(FontVariant::Normal)
        } else if same_ignoring_case(ident, "small-caps"@) {
            Some(FontVariant::SmallCaps)
        } else {
            None
        }
    }

    fn from_ident(ident: &str) -> (r: Option<FontVariant>) {
        if eq_ignore_ascii_case(ident, "normal") {
            Some(FontVariant::Normal)
        } else if eq_ignore_ascii_case(ident, "small-caps") {
            Some(FontVariant::SmallCaps)
        } else {
            None
        }
    }
}

impl Parse for FontVariant {
    open spec fn parsed(text: Seq<char>) -> Result<(FontVariant, Seq<char>), ValueErrorKind> {
        parsed_keyword::<FontVariant>(text)
    }

    fn parse<'a>(text: &'a str) -> (r: Result<(FontVariant, &'a str), ValueErrorKind>) {
        parse_keyword::<FontVariant>(text)
    }
}

impl Property for FontVariant {
    open spec fn inherits() -> bool {
        true
    }

    open spec fn initial_view() -> FontVariant {
        FontVariant::Normal
    }

    open spec fn compute_view(v: FontVariant, values: ComputedValuesView) -> FontVariant {
        v
    }

    fn inherits_automatically() -> (b: bool) {
        true
    }

    fn initial() -> (d: FontVariant) {
        FontVariant::Normal
    }

    fn compute(&self, _values: &ComputedValues) -> (r: FontVariant) {
        *self
    }

    fn duplicate(&self) -> (r: FontVariant) {
        *self
    }
}

impl Default for FontVariant {
    fn default() -> (d: FontVariant)
        ensures
            d@ == FontVariant::initial_view(),
    {
        FontVariant::initial()
    }
}

/// The `font-weight` property. Inherited; initially `normal`.
#[derive(Clone, Copy, Debug, PartialEq, Eq, Structural)]
pub struct FontWeight(pub FontWeightSpec);

impl View for FontWeight {
    type V = FontWeight;

    open spec fn view(&self) -> FontWeight {
        *self
    }
}

impl Parse for FontWeight {
    open spec fn parsed(text: Seq<char>) -> Result<(FontWeight, Seq<char>), ValueErrorKind> {
        match FontWeightSpec::parsed(text) {
            Ok((v, rest)) => Ok((FontWeight(v), rest)),
            Err(e) => Err(e),
        }
    }

    fn parse<'a>(text: &'a str) -> (r: Result<(FontWeight, &'a str), ValueErrorKind>) {
        match FontWeightSpec::parse(text) {
            Ok((v, rest)) => Ok((FontWeight(v), rest)),
            Err(e) => Err(e),
        }
    }
}

impl Property for FontWeight {
    open spec fn inherits() -> bool {
        true
    }

    open spec fn initial_view() -> FontWeight {
        FontWeight(FontWeightSpec::Normal)
    }

    open spec fn compute_view(v: FontWeight, values: ComputedValuesView) -> FontWeight {
        v
    }

    fn inherits_automatically() -> (b: bool) {
        true
    }

    fn initial() -> (d: FontWeight) {
        FontWeight(FontWeightSpec::Normal)
    }

    fn compute(&self, _values: &ComputedValues) -> (r: FontWeight) {
        *self
    }

    fn duplicate(&self) -> (r: FontWeight) {
        *self
    }
}

impl Default for FontWeight {
    fn default() -> (d: FontWeight)
        ensures
            d@ == FontWeight::initial_view(),
    {
        FontWeight::initial()
    }
}

} // verus!
