//! Lengths.

use crate::css::{css_numeric, next_numeric, Numeric, NumericKind, NumericKindView, NumericView};
use crate::error::ValueErrorKind;
use crate::number::Decimal;
use crate::parsers::Parse;
use crate::text::{eq_ignore_ascii_case, same_ignoring_case};
use crate::written::{decimal_written, percent_written};
use vstd::prelude::*;

verus! {

/// Units of length.
#[derive(Clone, Copy, Debug, PartialEq, Eq, Structural)]
pub enum LengthUnit {
    /// A fraction of a reference length: `1` is 100%.
    Percent,
    Px,
    Em,
    Ex,
    In,
    Cm,
    Mm,
    Pt,
    Pc,
}

impl LengthUnit {
    /// The unit that `name` stands for.
    pub open spec fn named(name: Seq<char>) -> Option<LengthUnit> {
        if same_ignoring_case(name, "px"@) {
            Some(LengthUnit::Px)
        } else if same_ignoring_case(name, "em"@) {
            Some(LengthUnit::Em)
        } else if same_ignoring_case(name, "ex"@) {
            Some(LengthUnit::Ex)
        } else if same_ignoring_case(name, "in"@) {
            Some(LengthUnit::In)
        } else if same_ignoring_case(name, "cm"@) {
            Some(LengthUnit::Cm)
        } else if same_ignoring_case(name, "mm"@) {
            Some(LengthUnit::Mm)
        } else if same_ignoring_case(name, "pt"@) {
            Some(LengthUnit::Pt)
        } else if same_ignoring_case(name, "pc"@) {
            Some(LengthUnit::Pc)
        } else {
            None
        }
    }

    /// Looks up the unit that `name` stands for.
    pub fn from_name(name: &str) -> (r: Option<LengthUnit>)
        ensures
            r == LengthUnit::named(name@),
    {
        if eq_ignore_ascii_case(name, "px") {
            Some(LengthUnit::Px)
        } else if eq_ignore_ascii_case(name, "em") {
            Some(LengthUnit::Em)
        } else if eq_ignore_ascii_case(name, "ex") {
            Some(LengthUnit::Ex)
        } else if eq_ignore_ascii_case(name, "in") {
            Some(LengthUnit::In)
        } else if eq_ignore_ascii_case(name, "cm") {
            Some(LengthUnit::Cm)
        } else if eq_ignore_ascii_case(name, "mm") {
            Some(LengthUnit::Mm)
        } else if eq_ignore_ascii_case(name, "pt") {
            Some(LengthUnit::Pt)
        } else if eq_ignore_ascii_case(name, "pc") {
            Some(LengthUnit::Pc)
        } else {
            None
        }
    }

    /// Whether a length in this unit depends on a font size or a reference
    /// length.
    pub open spec fn is_relative(self) -> bool {
        self is Percent || self is Em || self is Ex
    }
}

/// A number with a unit.
#[derive(Clone, Copy, Debug, PartialEq, Eq, Structural)]
pub struct Length {
    pub length: Decimal,
    pub unit: LengthUnit,
}

impl View for Length {
    type V = Length;

    open spec fn view(&self) -> Length {
        *self
    }
}

impl Length {
    pub fn new(length: Decimal, unit: LengthUnit) -> (r: Length)
        ensures
            r == (Length { length, unit }),
    {
        Length { length, unit }
    }

    /// The length that a numeric token denotes: a bare number counts in
    /// pixels, a percentage is kept as a fraction, and a dimension must have
    /// one of the known units.
    pub open spec fn of_numeric(token: NumericView) -> Result<Length, ValueErrorKind> {
        match token.kind {
            NumericKindView::Number(_) => Ok(
                Length { length: decimal_written(token.written), unit: LengthUnit::Px },
            ),
            NumericKindView::Percentage => Ok(
                Length { length: percent_written(token.written), unit: LengthUnit::Percent },
            ),
            NumericKindView::Dimension(unit) => match LengthUnit::named(unit) {
                Some(unit) => Ok(Length { length: decimal_written(token.written), unit }),
                None => Err(ValueErrorKind::UnexpectedToken),
            },
        }
    }

    /// Turns a numeric token into a length.
    pub fn from_numeric(token: &Numeric) -> (r: Result<Length, ValueErrorKind>)
        ensures
            r == Length::of_numeric(token@),
    {
        match &token.kind {
            NumericKind::Number(_) => Ok(
                Length::new(Decimal::from_written(token.written.as_str()), LengthUnit::Px),
            ),
            NumericKind::Percentage => Ok(
                Length::new(
                    Decimal::from_written_percent(token.written.as_str()),
                    LengthUnit::Percent,
                ),
            ),
            NumericKind::Dimension(unit) => match LengthUnit::from_name(unit.as_str()) {
                Some(unit) => Ok(Length::new(Decimal::from_written(token.written.as_str()), unit)),
                None => Err(ValueErrorKind::UnexpectedToken),
            },
        }
    }
}

impl Parse for Length {
    open spec fn parsed(text: Seq<char>) -> Result<(Length, Seq<char>), ValueErrorKind> {
        match css_numeric(text) {
            Ok((token, rest)) => match Length::of_numeric(token) {
                Ok(length) => Ok((length, rest)),
                Err(e) => Err(e),
            },
            Err(e) => Err(e),
        }
    }

    fn parse<'a>(text: &'a str) -> (r: Result<(Length, &'a str), ValueErrorKind>) {
        match next_numeric(text) {
            Ok((token, rest)) => match Length::from_numeric(&token) {
                Ok(length) => Ok((length, rest)),
                Err(e) => Err(e),
            },
            Err(e) => Err(e),
        }
    }
}

} // verus!
