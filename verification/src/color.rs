//! Colors.

use crate::css::{
    css_color, exponent_at, exponent_in_function, parenthesis_before, parse_color, read_view,
};
use crate::error::ValueErrorKind;
use crate::parsers::Parse;
use crate::written::is_digit_char;
use vstd::prelude::*;

verus! {

/// A color with red, green, blue and alpha components, a byte each.
#[derive(Clone, Copy, Debug, PartialEq, Eq, Structural)]
pub struct Rgba {
    pub red: u8,
    pub green: u8,
    pub blue: u8,
    pub alpha: u8,
}

impl View for Rgba {
    type V = Rgba;

    open spec fn view(&self) -> Rgba {
        *self
    }
}

impl Rgba {
    pub fn new(red: u8, green: u8, blue: u8, alpha: u8) -> (c: Rgba)
        ensures
            c == (Rgba { red, green, blue, alpha }),
    {
        Rgba { red, green, blue, alpha }
    }
}

/// A `<color>` value: a color of its own, or the value of the `color`
/// property of the element it is used on.
#[derive(Clone, Copy, Debug, PartialEq, Eq, Structural)]
pub enum CssColor {
    CurrentColor,
    Rgba(Rgba),
}

impl View for CssColor {
    type V = CssColor;

    open spec fn view(&self) -> CssColor {
        *self
    }
}

/// The color that stands at the start of `text`, with the text after it.
/// A text in which a number with an exponent may be the argument of a
/// function holds no color.
pub open spec fn parsed_color(text: Seq<char>) -> Result<(CssColor, Seq<char>), ValueErrorKind> {
    if exponent_in_function(text) {
        Err(ValueErrorKind::Value)
    } else {
        css_color(text)
    }
}

fn has_exponent_at(s: &str, j: usize, n: usize) -> (r: bool)
    requires
        n == s@.len(),
        j < n,
    ensures
        r == exponent_at(s@, j as int),
{
    if n - j < 3 {
        return false;
    }
    if !is_digit_char(s.get_char(j)) {
        return false;
    }
    let mark: char = s.get_char(j + 1);
    if mark != 'e' && mark != 'E' {
        return false;
    }
    let next: char = s.get_char(j + 2);
    if is_digit_char(next) {
        return true;
    }
    (next == '+' || next == '-') && n - j > 3 && is_digit_char(s.get_char(j + 3))
}

/// Tells whether a number with an exponent is written in `text` after an
/// opening parenthesis.
pub fn writes_exponent_in_function(text: &str) -> (r: bool)
    ensures
        r == exponent_in_function(text@),
{
    let n: usize = text.unicode_len();
    let mut seen: bool = false;
    let mut j: usize = 0;
    while j < n
        invariant
            j <= n,
            n == text@.len(),
            seen == parenthesis_before(text@, j as int),
            forall|k: int| 0 <= k < j ==> !(parenthesis_before(text@, k) && exponent_at(text@, k)),
        decreases n - j,
    {
        if seen && has_exponent_at(text, j, n) {
            return true;
        }
        let ghost before = parenthesis_before(text@, j as int);
        if text.get_char(j) == '(' {
            seen = true;
        }
        proof {
            if before {
                let i = choose|i: int| 0 <= i < j && text@[i] == '(';
                assert(0 <= i < j + 1 && text@[i] == '(');
            }
            if parenthesis_before(text@, j + 1) && !before {
                let i = choose|i: int| 0 <= i < j + 1 && text@[i] == '(';
                assert(i == j);
            }
        }
        j += 1;
    }
    proof {
        if exponent_in_function(text@) {
            let k = choose|k: int| parenthesis_before(text@, k) && exponent_at(text@, k);
            assert(0 <= k < n);
        }
    }
    false
}

/// Reads a color from the start of `text`.
pub fn read_color<'a>(text: &'a str) -> (r: Result<(CssColor, &'a str), ValueErrorKind>)
    ensures
        read_view(r) == parsed_color(text@),
        r matches Ok((_, rest)) ==> rest@.len() < text@.len(),
        r matches Err(e) ==> !(e is UnknownProperty),
{
    if writes_exponent_in_function(text) {
        Err(ValueErrorKind::Value)
    } else {
        parse_color(text)
    }
}

impl Parse for CssColor {
    open spec fn parsed(text: Seq<char>) -> Result<(CssColor, Seq<char>), ValueErrorKind> {
        parsed_color(text)
    }

    fn parse<'a>(text: &'a str) -> (r: Result<(CssColor, &'a str), ValueErrorKind>) {
        read_color(text)
    }
}

impl CssColor {
    /// The color that this value is by itself: `currentColor` is none.
    pub open spec fn own(self) -> Result<Rgba, ValueErrorKind> {
        match self {
            CssColor::Rgba(rgba) => Ok(rgba),
            CssColor::CurrentColor => Err(ValueErrorKind::Value),
        }
    }

    /// The color that this value is by itself.
    pub fn into_rgba(self) -> (r: Result<Rgba, ValueErrorKind>)
        ensures
            r == self.own(),
    {
        match self {
            CssColor::Rgba(rgba) => Ok(rgba),
            CssColor::CurrentColor => Err(ValueErrorKind::Value),
        }
    }
}

impl Parse for Rgba {
    /// A color that does not depend on the element it is used on.
    open spec fn parsed(text: Seq<char>) -> Result<(Rgba, Seq<char>), ValueErrorKind> {
        match parsed_color(text) {
            Ok((color, rest)) => match color.own() {
                Ok(rgba) => Ok((rgba, rest)),
                Err(e) => Err(e),
            },
            Err(e) => Err(e),
        }
    }

    fn parse<'a>(text: &'a str) -> (r: Result<(Rgba, &'a str), ValueErrorKind>) {
        match read_color(text) {
            Ok((color, rest)) => match color.into_rgba() {
                Ok(rgba) => Ok((rgba, rest)),
                Err(e) => Err(e),
            },
            Err(e) => Err(e),
        }
    }
}

} // verus!
