//! Numbers between zero and one.

use crate::css::{css_numeric, next_numeric, Numeric, NumericKind, NumericKindView, NumericView};
use crate::error::ValueErrorKind;
use crate::number::{Decimal, MICROS_PER_UNIT};
use crate::parsers::Parse;
use crate::written::decimal_written;
use vstd::prelude::*;

verus! {

/// The number that a number token denotes; the other numeric tokens denote
/// none.
pub open spec fn number_of(token: NumericView) -> Result<Decimal, ValueErrorKind> {
    match token.kind {
        NumericKindView::Number(_) => Ok(decimal_written(token.written)),
        _ => Err(ValueErrorKind::UnexpectedToken),
    }
}

impl Decimal {
    /// Turns a number token into a number.
    pub fn from_numeric(token: &Numeric) -> (r: Result<Decimal, ValueErrorKind>)
        ensures
            r == number_of(token@),
    {
        match &token.kind {
            NumericKind::Number(_) => Ok(Decimal::from_written(token.written.as_str())),
            _ => Err(ValueErrorKind::UnexpectedToken),
        }
    }
}

impl Parse for Decimal {
    open spec fn parsed(text: Seq<char>) -> Result<(Decimal, Seq<char>), ValueErrorKind> {
        match css_numeric(text) {
            Ok((token, rest)) => match number_of(token) {
                Ok(number) => Ok((number, rest)),
                Err(e) => Err(e),
            },
            Err(e) => Err(e),
        }
    }

    fn parse<'a>(text: &'a str) -> (r: Result<(Decimal, &'a str), ValueErrorKind>) {
        match next_numeric(text) {
            Ok((token, rest)) => match Decimal::from_numeric(&token) {
                Ok(number) => Ok((number, rest)),
                Err(e) => Err(e),
            },
            Err(e) => Err(e),
        }
    }
}

/// A number from zero to one.
#[derive(Clone, Copy, Debug, PartialEq, Eq, Structural)]
pub struct UnitInterval(pub Decimal);

impl View for UnitInterval {
    type V = UnitInterval;

    open spec fn view(&self) -> UnitInterval {
        *self
    }
}

impl UnitInterval {
    /// The number nearest to `number` that is neither below zero nor above
    /// one.
    pub open spec fn nearest(number: Decimal) -> UnitInterval {
        if number.micros < 0 {
            UnitInterval(Decimal { micros: 0 })
        } else if number.micros > MICROS_PER_UNIT {
            UnitInterval(Decimal { micros: MICROS_PER_UNIT })
        } else {
            UnitInterval(number)
        }
    }

    /// Brings `number` into the range from zero to one.
    pub fn clamp(number: Decimal) -> (r: UnitInterval)
        ensures
            r == UnitInterval::nearest(number),
    {
        if number.micros < 0 {
            UnitInterval(Decimal { micros: 0 })
        } else if number.micros > MICROS_PER_UNIT {
            UnitInterval(Decimal { micros: MICROS_PER_UNIT })
        } else {
            UnitInterval(number)
        }
    }
}

impl Parse for UnitInterval {
    /// A number; one outside of the range stands for the nearest end.
    open spec fn parsed(text: Seq<char>) -> Result<(UnitInterval, Seq<char>), ValueErrorKind> {
        match Decimal::parsed(text) {
            Ok((number, rest)) => Ok((UnitInterval::nearest(number), rest)),
            Err(e) => Err(e),
        }
    }

    fn parse<'a>(text: &'a str) -> (r: Result<(UnitInterval, &'a str), ValueErrorKind>) {
        match Decimal::parse(text) {
            Ok((number, rest)) => Ok((UnitInterval::clamp(number), rest)),
            Err(e) => Err(e),
        }
    }
}

} // verus!
