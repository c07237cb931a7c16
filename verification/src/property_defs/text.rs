//! Properties of how text is laid out, and the two attributes of the `xml` namespace.

use crate::computed::{ComputedValues, ComputedValuesView};
use crate::css::{css_exhausted, css_ident, expect_ident, is_exhausted};
use crate::error::ValueErrorKind;
use crate::font::{product, LetterSpacingSpec};
use crate::length::{Length, LengthUnit};
use crate::number::Decimal;
use crate::parsers::{after_word, expect_word, parse_keyword, parsed_keyword, starts_with_word, Keyword, Parse};
use crate::property::Property;
use crate::text::{eq_ignore_ascii_case, same_ignoring_case};
use vstd::prelude::*;

verus! {

/// The `baseline-shift` property. Inherited; initially zero. A percentage
/// counts in font sizes of the element.
#[derive(Clone, Copy, Debug, PartialEq, Eq, Structural)]
pub struct BaselineShift(pub Length);

impl View for BaselineShift {
    type V = BaselineShift;

    open spec fn view(&self) -> BaselineShift {
        *self
    }
}

/// A length that is the given part of the reference length.
pub open spec fn fraction(micros: int) -> Length {
    Length { length: Decimal { micros: micros as i64 }, unit: LengthUnit::Percent }
}

impl Keyword for BaselineShift {
    /// `baseline` is no shift; `sub` is a fifth of the font size downward
    /// and `super` two fifths upward.
    open spec fn named(ident: Seq<char>) -> Option<BaselineShift> {
        if same_ignoring_case(ident, "baseline"@) {
            Some(BaselineShift(fraction(0)))
        } else if same_ignoring_case(ident, "sub"@) {
            Some(BaselineShift(fraction(-200_000)))
        } else if same_ignoring_case(ident, "super"@) {
            Some(BaselineShift(fraction(400_000)))
        } else {
            None
        }
    }

    fn from_ident(ident: &str) -> (r: Option<BaselineShift>) {
        if eq_ignore_ascii_case(ident, "baseline") {
            Some(BaselineShift(Length::new(Decimal::from_micros(0), LengthUnit::Percent)))
        } else if eq_ignore_ascii_case(ident, "sub") {
            Some(BaselineShift(Length::new(Decimal::from_micros(-200_000), LengthUnit::Percent)))
        } else if eq_ignore_ascii_case(ident, "super") {
            Some(BaselineShift(Length::new(Decimal::from_micros(400_000), LengthUnit::Percent)))
        } else {
            None
        }
    }
}

impl Parse for BaselineShift {
    /// A length, or one of `baseline`, `sub` and `super`.
    open spec fn parsed(text: Seq<char>) -> Result<(BaselineShift, Seq<char>), ValueErrorKind> {
        match Length::parsed(text) {
            Ok((shift, rest)) => Ok((BaselineShift(shift), rest)),
            Err(_) => parsed_keyword::<BaselineShift>(text),
        }
    }

    fn parse<'a>(text: &'a str) -> (r: Result<(BaselineShift, &'a str), ValueErrorKind>) {
        match Length::parse(text) {
            Ok((shift, rest)) => Ok((BaselineShift(shift), rest)),
            Err(_) => parse_keyword::<BaselineShift>(text),
        }
    }
}

impl Property for BaselineShift {
    open spec fn inherits() -> bool {
        true
    }

    open spec fn initial_view() -> BaselineShift {
        BaselineShift(Length { length: Decimal { micros: 0 }, unit: LengthUnit::Px })
    }

    /// A percentage becomes that part of the computed font size; any other
    /// length stays as it is.
    open spec fn compute_view(v: BaselineShift, values: ComputedValuesView) -> BaselineShift {
        if v.0.unit is Percent {
            BaselineShift(
                Length {
                    length: product(v.0.length, values.font_size.size().length),
                    unit: values.font_size.size().unit,
                },
            )
        } else {
            v
        }
    }

    fn inherits_automatically() -> (b: bool) {
        true
    }

    fn initial() -> (d: BaselineShift) {
        BaselineShift(Length::new(Decimal::from_micros(0), LengthUnit::Px))
    }

    fn compute(&self, values: &ComputedValues) -> (r: BaselineShift) {
        match self.0.unit {
            LengthUnit::Percent => {
                let size = values.font_size.value();
                BaselineShift(Length::new(self.0.length.times(size.length), size.unit))
            },
            _ => *self,
        }
    }

    fn duplicate(&self) -> (r: BaselineShift) {
        *self
    }
}

impl Default for BaselineShift {
    fn default() -> (d: BaselineShift)
        ensures
            d@ == BaselineShift::initial_view(),
    {
        BaselineShift::initial()
    }
}

/// The `direction` property. Inherited; initially `ltr`.
#[derive(Clone, Copy, Debug, PartialEq, Eq, Structural)]
pub enum Direction {
    Ltr,
    Rtl,
}

impl View for Direction {
    type V = Direction;

    open spec fn view(&self) -> Direction {
        *self
    }
}

impl Keyword for Direction {
    open spec fn named(ident: Seq<char>) -> Option<Direction> {
        if same_ignoring_case(ident, "ltr"@) {
            Some(Direction::Ltr)
        } else if same_ignoring_case(ident, "rtl"@) {
            Some(Direction::Rtl)
        } else {
            None
        }
    }

    fn from_ident(ident: &str) -> (r: Option<Direction>) {
        if eq_ignore_ascii_case(ident, "ltr") {
            Some(Direction::Ltr)
        } else if eq_ignore_ascii_case(ident, "rtl") {
            Some(Direction::Rtl)
        } else {
            None
        }
    }
}

impl Parse for Direction {
    open spec fn parsed(text: Seq<char>) -> Result<(Direction, Seq<char>), ValueErrorKind> {
        parsed_keyword::<Direction>(text)
    }

    fn parse<'a>(text: &'a str) -> (r: Result<(Direction, &'a str), ValueErrorKind>) {
        parse_keyword::<Direction>(text)
    }
}

impl Property for Direction {
    open spec fn inherits() -> bool {
        true
    }

    open spec fn initial_view() -> Direction {
        Direction::Ltr
    }

    open spec fn compute_view(v: Direction, values: ComputedValuesView) -> Direction {
        v
    }

    fn inherits_automatically() -> (b: bool) {
        true
    }

    fn initial() -> (d: Direction) {
        Direction::Ltr
    }

    fn compute(&self, _values: &ComputedValues) -> (r: Direction) {
        *self
    }

    fn duplicate(&self) -> (r: Direction) {
        *self
    }
}

impl Default for Direction {
    fn default() -> (d: Direction)
        ensures
            d@ == Direction::initial_view(),
    {
        Direction::initial()
    }
}

/// The `letter-spacing` property. Inherited; initially `normal`.
#[derive(Clone, Copy, Debug, PartialEq, Eq, Structural)]
pub struct LetterSpacing(pub LetterSpacingSpec);

impl View for LetterSpacing {
    type V = LetterSpacing;

    open spec fn view(&self) -> LetterSpacing {
        *self
    }
}

impl Parse for LetterSpacing {
    open spec fn parsed(text: Seq<char>) -> Result<(LetterSpacing, Seq<char>), ValueErrorKind> {
        match LetterSpacingSpec::parsed(text) {
            Ok((v, rest)) => Ok((LetterSpacing(v), rest)),
            Err(e) => Err(e),
        }
    }

    fn parse<'a>(text: &'a str) -> (r: Result<(LetterSpacing, &'a str), ValueErrorKind>) {
        match LetterSpacingSpec::parse(text) {
            Ok((v, rest)) => Ok((LetterSpacing(v), rest)),
            Err(e) => Err(e),
        }
    }
}

impl Property for LetterSpacing {
    open spec fn inherits() -> bool {
        true
    }

    open spec fn initial_view() -> LetterSpacing {
        LetterSpacing(LetterSpacingSpec::Normal)
    }

    open spec fn compute_view(v: LetterSpacing, values: ComputedValuesView) -> LetterSpacing {
        v
    }

    fn inherits_automatically() -> (b: bool) {
        true
    }

    fn initial() -> (d: LetterSpacing) {
        LetterSpacing(LetterSpacingSpec::Normal)
    }

    fn compute(&self, _values: &ComputedValues) -> (r: LetterSpacing) {
        *self
    }

    fn duplicate(&self) -> (r: LetterSpacing) {
        *self
    }
}

impl Default for LetterSpacing {
    fn default() -> (d: LetterSpacing)
        ensures
            d@ == LetterSpacing::initial_view(),
    {
        LetterSpacing::initial()
    }
}

/// The `text-anchor` property. Inherited; initially `start`.
#[derive(Clone, Copy, Debug, PartialEq, Eq, Structural)]
pub enum TextAnchor {
    Start,
    Middle,
    End,
}

impl View for TextAnchor {
    type V = TextAnchor;

    open spec fn view(&self) -> TextAnchor {
        *self
    }
}

impl Keyword for TextAnchor {
    open spec fn named(ident: Seq<char>) -> Option<TextAnchor> {
        if same_ignoring_case(ident, "start"@) {
            Some(TextAnchor::Start)
        } else if same_ignoring_case(ident, "middle"@) {
            Some(TextAnchor::Middle)
        } else if same_ignoring_case(ident, "end"@) {
            Some(TextAnchor::End)
        } else {
            None
        }
    }

    fn from_ident(ident: &str) -> (r: Option<TextAnchor>) {
        if eq_ignore_ascii_case(ident, "start") {
            Some(TextAnchor::Start)
        } else if eq_ignore_ascii_case(ident, "middle") {
            Some(TextAnchor::Middle)
        } else if eq_ignore_ascii_case(ident, "end") {
            Some(TextAnchor::End)
        } else {
            None
        }
    }
}

impl Parse for TextAnchor {
    open spec fn parsed(text: Seq<char>) -> Result<(TextAnchor, Seq<char>), ValueErrorKind> {
        parsed_keyword::<TextAnchor>(text)
    }

    fn parse<'a>(text: &'a str) -> (r: Result<(TextAnchor, &'a str), ValueErrorKind>) {
        parse_keyword::<TextAnchor>(text)
    }
}

impl Property for TextAnchor {
    open spec fn inherits() -> bool {
        true
    }

    open spec fn initial_view() -> TextAnchor {
        TextAnchor::Start
    }

    open spec fn compute_view(v: TextAnchor, values: ComputedValuesView) -> TextAnchor {
        v
    }

    fn inherits_automatically() -> (b: bool) {
        true
    }

    fn initial() -> (d: TextAnchor) {
        TextAnchor::Start
    }

    fn compute(&self, _values: &ComputedValues) -> (r: TextAnchor) {
        *self
    }

    fn duplicate(&self) -> (r: TextAnchor) {
        *self
    }
}

impl Default for TextAnchor {
    fn default() -> (d: TextAnchor)
        ensures
            d@ == TextAnchor::initial_view(),
    {
        TextAnchor::initial()
    }
}

/// The `text-decoration` property. Not inherited; initially no line.
#[derive(Clone, Copy, Debug, PartialEq, Eq, Structural)]
pub struct TextDecoration {
    pub overline: bool,
    pub underline: bool,
    pub strike: bool,
}

impl View for TextDecoration {
    type V = TextDecoration;

    open spec fn view(&self) -> TextDecoration {
        *self
    }
}

impl TextDecoration {
    /// No line at all.
    pub open spec fn plain() -> TextDecoration {
        TextDecoration { overline: false, underline: false, strike: false }
    }

    /// This decoration with the line that `ident` names added; `None` where
    /// it names no line.
    pub open spec fn with_line(self, ident: Seq<char>) -> Option<TextDecoration> {
        if same_ignoring_case(ident, "overline"@) {
            Some(TextDecoration { overline: true, ..self })
        } else if same_ignoring_case(ident, "underline"@) {
            Some(TextDecoration { underline: true, ..self })
        } else if same_ignoring_case(ident, "line-through"@) {
            Some(TextDecoration { strike: true, ..self })
        } else {
            None
        }
    }

    /// Adds the line that `ident` names.
    pub fn add_line(self, ident: &str) -> (r: Option<TextDecoration>)
        ensures
            r == self.with_line(ident@),
    {
        if eq_ignore_ascii_case(ident, "overline") {
            Some(TextDecoration { overline: true, underline: self.underline, strike: self.strike })
        } else if eq_ignore_ascii_case(ident, "underline") {
            Some(TextDecoration { overline: self.overline, underline: true, strike: self.strike })
        } else if eq_ignore_ascii_case(ident, "line-through") {
            Some(TextDecoration { overline: self.overline, underline: self.underline, strike: true })
        } else {
            None
        }
    }
}

/// The decoration `so_far` with the lines added that the rest of a value
/// names: `text` must hold one name of a line at least, and nothing else.
pub open spec fn parsed_lines(so_far: TextDecoration, text: Seq<char>) -> Result<
    (TextDecoration, Seq<char>),
    ValueErrorKind,
>
    decreases text.len(),
{
    match css_ident(text) {
        Ok((ident, rest)) => match so_far.with_line(ident) {
            Some(decoration) => if css_exhausted(rest) {
                Ok((decoration, rest))
            } else if rest.len() < text.len() {
                parsed_lines(decoration, rest)
            } else {
                Err(ValueErrorKind::UnexpectedToken)
            },
            None => Err(ValueErrorKind::UnexpectedToken),
        },
        Err(e) => Err(e),
    }
}

impl Parse for TextDecoration {
    /// `none`, or the names of lines up to the end of the value.
    open spec fn parsed(text: Seq<char>) -> Result<(TextDecoration, Seq<char>), ValueErrorKind> {
        if starts_with_word(text, "none"@) {
            Ok((TextDecoration::plain(), after_word(text)))
        } else {
            parsed_lines(TextDecoration::plain(), text)
        }
    }

    fn parse<'a>(text: &'a str) -> (r: Result<(TextDecoration, &'a str), ValueErrorKind>) {
        if let Some(rest) = expect_word(text, "none") {
            return Ok(
                (TextDecoration { overline: false, underline: false, strike: false }, rest),
            );
        }
        let mut decoration = TextDecoration { overline: false, underline: false, strike: false };
        let mut current: &'a str = text;
        loop
            invariant
                current@.len() <= text@.len(),
                !starts_with_word(text@, "none"@),
                parsed_lines(TextDecoration::plain(), text@) == parsed_lines(decoration, current@),
            decreases current@.len(),
        {
            match expect_ident(current) {
                Ok((ident, rest)) => match decoration.add_line(ident.as_str()) {
                    Some(with_line) => {
                        if is_exhausted(rest) {
                            return Ok((with_line, rest));
                        }
                        decoration = with_line;
                        current = rest;
                    },
                    None => {
                        return Err(ValueErrorKind::UnexpectedToken);
                    },
                },
                Err(e) => {
                    return Err(e);
                },
            }
        }
    }
}

impl Property for TextDecoration {
    open spec fn inherits() -> bool {
        false
    }

    open spec fn initial_view() -> TextDecoration {
        TextDecoration::plain()
    }

    open spec fn compute_view(v: TextDecoration, values: ComputedValuesView) -> TextDecoration {
        v
    }

    fn inherits_automatically() -> (b: bool) {
        false
    }

    fn initial() -> (d: TextDecoration) {
        TextDecoration { overline: false, underline: false, strike: false }
    }

    fn compute(&self, _values: &ComputedValues) -> (r: TextDecoration) {
        *self
    }

    fn duplicate(&self) -> (r: TextDecoration) {
        *self
    }
}

impl Default for TextDecoration {
    fn default() -> (d: TextDecoration)
        ensures
            d@ == TextDecoration::initial_view(),
    {
        TextDecoration::initial()
    }
}

/// The `text-rendering` property. Inherited; initially `auto`.
#[derive(Clone, Copy, Debug, PartialEq, Eq, Structural)]
pub enum TextRendering {
    Auto,
    OptimizeSpeed,
    OptimizeLegibility,
    GeometricPrecision,
}

impl View for TextRendering {
    type V = TextRendering;

    open spec fn view(&self) -> TextRendering {
        *self
    }
}

impl Keyword for TextRendering {
    open spec fn named(ident: Seq<char>) -> Option<TextRendering> {
        if same_ignoring_case(ident, "auto"@) {
            Some(TextRendering::Auto)
        } else if same_ignoring_case(ident, "optimizeSpeed"@) {
            Some(TextRendering::OptimizeSpeed)
        } else if same_ignoring_case(ident, "optimizeLegibility"@) {
            Some(TextRendering::OptimizeLegibility)
        } else if same_ignoring_case(ident, "geometricPrecision"@) {
            Some(TextRendering::GeometricPrecision)
        } else {
            None
        }
    }

    fn from_ident(ident: &str) -> (r: Option<TextRendering>) {
        if eq_ignore_ascii_case(ident, "auto") {
            Some(TextRendering::Auto)
        } else if eq_ignore_ascii_case(ident, "optimizeSpeed") {
            Some(TextRendering::OptimizeSpeed)
        } else if eq_ignore_ascii_case(ident, "optimizeLegibility") {
            Some(TextRendering::OptimizeLegibility)
        } else if eq_ignore_ascii_case(ident, "geometricPrecision") {
            Some(TextRendering::GeometricPrecision)
        } else {
            None
        }
    }
}

impl Parse for TextRendering {
    open spec fn parsed(text: Seq<char>) -> Result<(TextRendering, Seq<char>), ValueErrorKind> {
        parsed_keyword::<TextRendering>(text)
    }

    fn parse<'a>(text: &'a str) -> (r: Result<(TextRendering, &'a str), ValueErrorKind>) {
        parse_keyword::<TextRendering>(text)
    }
}

impl Property for TextRendering {
    open spec fn inherits() -> bool {
        true
    }

    open spec fn initial_view() -> TextRendering {
        TextRendering::Auto
    }

    open spec fn compute_view(v: TextRendering, values: ComputedValuesView) -> TextRendering {
        v
    }

    fn inherits_automatically() -> (b: bool) {
        true
    }

    fn initial() -> (d: TextRendering) {
        TextRendering::Auto
    }

    fn compute(&self, _values: &ComputedValues) -> (r: TextRendering) {
        *self
    }

    fn duplicate(&self) -> (r: TextRendering) {
        *self
    }
}

impl Default for TextRendering {
    fn default() -> (d: TextRendering)
        ensures
            d@ == TextRendering::initial_view(),
    {
        TextRendering::initial()
    }
}

/// The `unicode-bidi` property. Not inherited; initially `normal`.
#[derive(Clone, Copy, Debug, PartialEq, Eq, Structural)]
pub enum UnicodeBidi {
    Normal,
    Embed,
    /// Written `bidi-override`.
    Override,
}

impl View for UnicodeBidi {
    type V = UnicodeBidi;

    open spec fn view(&self) -> UnicodeBidi {
        *self
    }
}

impl Keyword for UnicodeBidi {
    open spec fn named(ident: Seq<char>) -> Option<UnicodeBidi> {
        if same_ignoring_case(ident, "normal"@) {
            Some(UnicodeBidi::Normal)
        } else if same_ignoring_case(ident, "embed"@) {
            Some(UnicodeBidi::Embed)
        } else if same_ignoring_case(ident, "bidi-override"@) {
            Some(UnicodeBidi::Override)
        } else {
            None
        }
    }

    fn from_ident(ident: &str) -> (r: Option<UnicodeBidi>) {
        if eq_ignore_ascii_case(ident, "normal") {
            Some(UnicodeBidi::Normal)
        } else if eq_ignore_ascii_case(ident, "embed") {
            Some(UnicodeBidi::Embed)
        } else if eq_ignore_ascii_case(ident, "bidi-override") {
            Some(UnicodeBidi::Override)
        } else {
            None
        }
    }
}

impl Parse for UnicodeBidi {
    open spec fn parsed(text: Seq<char>) -> Result<(UnicodeBidi, Seq<char>), ValueErrorKind> {
        parsed_keyword::<UnicodeBidi>(text)
    }

    fn parse<'a>(text: &'a str) -> (r: Result<(UnicodeBidi, &'a str), ValueErrorKind>) {
        parse_keyword::<UnicodeBidi>(text)
    }
}

impl Property for UnicodeBidi {
    open spec fn inherits() -> bool {
        false
    }

    open spec fn initial_view() -> UnicodeBidi {
        UnicodeBidi::Normal
    }

    open spec fn compute_view(v: UnicodeBidi, values: ComputedValuesView) -> UnicodeBidi {
        v
    }

    fn inherits_automatically() -> (b: bool) {
        false
    }

    fn initial() -> (d: UnicodeBidi) {
        UnicodeBidi::Normal
    }

    fn compute(&self, _values: &ComputedValues) -> (r: UnicodeBidi) {
        *self
    }

    fn duplicate(&self) -> (r: UnicodeBidi) {
        *self
    }
}

impl Default for UnicodeBidi {
    fn default() -> (d: UnicodeBidi)
        ensures
            d@ == UnicodeBidi::initial_view(),
    {
        UnicodeBidi::initial()
    }
}

/// The `writing-mode` property. Inherited; initially `lr-tb`.
#[derive(Clone, Copy, Debug, PartialEq, Eq, Structural)]
pub enum WritingMode {
    LrTb,
    RlTb,
    TbRl,
    Lr,
    Rl,
    Tb,
}

impl View for WritingMode {
    type V = WritingMode;

    open spec fn view(&self) -> WritingMode {
        *self
    }
}

impl Keyword for WritingMode {
    open spec fn named(ident: Seq<char>) -> Option<WritingMode> {
        if same_ignoring_case(ident, "lr-tb"@) {
            Some(WritingMode::LrTb)
        } else if same_ignoring_case(ident, "rl-tb"@) {
            Some(WritingMode::RlTb)
        } else if same_ignoring_case(ident, "tb-rl"@) {
            Some(WritingMode::TbRl)
        } else if same_ignoring_case(ident, "lr"@) {
            Some(WritingMode::Lr)
        } else if same_ignoring_case(ident, "rl"@) {
            Some(WritingMode::Rl)
        } else if same_ignoring_case(ident, "tb"@) {
            Some(WritingMode::Tb)
        } else {
            None
        }
    }

    fn from_ident(ident: &str) -> (r: Option<WritingMode>) {
        if eq_ignore_ascii_case(ident, "lr-tb") {
            Some(WritingMode::LrTb)
        } else if eq_ignore_ascii_case(ident, "rl-tb") {
            Some(WritingMode::RlTb)
        } else if eq_ignore_ascii_case(ident, "tb-rl") {
            Some(WritingMode::TbRl)
        } else if eq_ignore_ascii_case(ident, "lr") {
            Some(WritingMode::Lr)
        } else if eq_ignore_ascii_case(ident, "rl") {
            Some(WritingMode::Rl)
        } else if eq_ignore_ascii_case(ident, "tb") {
            Some(WritingMode::Tb)
        } else {
            None
        }
    }
}

impl Parse for WritingMode {
    open spec fn parsed(text: Seq<char>) -> Result<(WritingMode, Seq<char>), ValueErrorKind> {
        parsed_keyword::<WritingMode>(text)
    }

    fn parse<'a>(text: &'a str) -> (r: Result<(WritingMode, &'a str), ValueErrorKind>) {
        parse_keyword::<WritingMode>(text)
    }
}

impl Property for WritingMode {
    open spec fn inherits() -> bool {
        true
    }

    open spec fn initial_view() -> WritingMode {
        WritingMode::LrTb
    }

    open spec fn compute_view(v: WritingMode, values: ComputedValuesView) -> WritingMode {
        v
    }

    fn inherits_automatically() -> (b: bool) {
        true
    }

    fn initial() -> (d: WritingMode) {
        WritingMode::LrTb
    }

    fn compute(&self, _values: &ComputedValues) -> (r: WritingMode) {
        *self
    }

    fn duplicate(&self) -> (r: WritingMode) {
        *self
    }
}

impl Default for WritingMode {
    fn default() -> (d: WritingMode)
        ensures
            d@ == WritingMode::initial_view(),
    {
        WritingMode::initial()
    }
}

/// The `xml:lang` attribute, kept with the properties because it is
/// inherited as they are. Initially empty.
#[derive(Clone, Debug, PartialEq, Eq)]
pub struct XmlLang(pub String);

impl View for XmlLang {
    type V = Seq<char>;

    open spec fn view(&self) -> Seq<char> {
        self.0@
    }
}

impl XmlLang {
    /// The language that an attribute's text names: the text as it is.
    pub fn from_text(text: &str) -> (r: XmlLang)
        ensures
            r@ == text@,
    {
        XmlLang(text.to_owned())
    }
}

impl Property for XmlLang {
    open spec fn inherits() -> bool {
        true
    }

    open spec fn initial_view() -> Seq<char> {
        Seq::empty()
    }

    open spec fn compute_view(v: Seq<char>, values: ComputedValuesView) -> Seq<char> {
        v
    }

    fn inherits_automatically() -> (b: bool) {
        true
    }

    fn initial() -> (d: XmlLang) {
        XmlLang(String::new())
    }

    fn compute(&self, _values: &ComputedValues) -> (r: XmlLang) {
        XmlLang(self.0.clone())
    }

    fn duplicate(&self) -> (r: XmlLang) {
        XmlLang(self.0.clone())
    }
}

impl Default for XmlLang {
    fn default() -> (d: XmlLang)
        ensures
            d@ == XmlLang::initial_view(),
    {
        XmlLang::initial()
    }
}

/// The `xml:space` property. Inherited; initially `default`.
#[derive(Clone, Copy, Debug, PartialEq, Eq, Structural)]
pub enum XmlSpace {
    Default,
    Preserve,
}

impl View for XmlSpace {
    type V = XmlSpace;

    open spec fn view(&self) -> XmlSpace {
        *self
    }
}

impl Keyword for XmlSpace {
    open spec fn named(ident: Seq<char>) -> Option<XmlSpace> {
        if same_ignoring_case(ident, "default"@) {
            Some(XmlSpace::Default)
        } else if same_ignoring_case(ident, "preserve"@) {
            Some(XmlSpace::Preserve)
        } else {
            None
        }
    }

    fn from_ident(ident: &str) -> (r: Option<XmlSpace>) {
        if eq_ignore_ascii_case(ident, "default") {
            Some(XmlSpace::Default)
        } else if eq_ignore_ascii_case(ident, "preserve") {
            Some(XmlSpace::Preserve)
        } else {
            None
        }
    }
}

impl Parse for XmlSpace {
    open spec fn parsed(text: Seq<char>) -> Result<(XmlSpace, Seq<char>), ValueErrorKind> {
        parsed_keyword::<XmlSpace>(text)
    }

    fn parse<'a>(text: &'a str) -> (r: Result<(XmlSpace, &'a str), ValueErrorKind>) {
        parse_keyword::<XmlSpace>(text)
    }
}

impl Property for XmlSpace {
    open spec fn inherits() -> bool {
        true
    }

    open spec fn initial_view() -> XmlSpace {
        XmlSpace::Default
    }

    open spec fn compute_view(v: XmlSpace, values: ComputedValuesView) -> XmlSpace {
        v
    }

    fn inherits_automatically() -> (b: bool) {
        true
    }

    fn initial() -> (d: XmlSpace) {
        XmlSpace::Default
    }

    fn compute(&self, _values: &ComputedValues) -> (r: XmlSpace) {
        *self
    }

    fn duplicate(&self) -> (r: XmlSpace) {
        *self
    }
}

impl Default for XmlSpace {
    fn default() -> (d: XmlSpace)
        ensures
            d@ == XmlSpace::initial_view(),
    {
        XmlSpace::initial()
    }
}

} // verus!
