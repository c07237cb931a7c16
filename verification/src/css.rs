//! Tokens of CSS syntax, read from text by the `cssparser` crate.
//!
//! Every function here makes a parser over the text it is given, asks it one
//! question, and hands back the answer together with the text that the
//! parser has not consumed. The answers are not derived in this crate; each
//! has a name, and what the crate's parsers return is stated over the names.
//!
//! Where the parser fails, it fails for one of two reasons: the text is at
//! its end, or a token stands in it that was not asked for. The functions
//! here report the first as `EndOfInput` and any other as `UnexpectedToken`,
//! and no other error.

use crate::color::{CssColor, Rgba};
use crate::error::ValueErrorKind;
use crate::written::{is_digit, is_sign};
use cssparser::{BasicParseErrorKind, Delimiter, Parser, ParserInput, Token};
use vstd::prelude::*;

verus! {

/// The kinds of numeric tokens. A number has its value as an integer where
/// it is written without a fraction and without an exponent. A dimension
/// has its unit.
#[derive(Clone, Debug, PartialEq, Eq)]
pub enum NumericKind {
    Number(Option<i32>),
    Percentage,
    Dimension(String),
}

pub enum NumericKindView {
    Number(Option<i32>),
    Percentage,
    Dimension(Seq<char>),
}

impl View for NumericKind {
    type V = NumericKindView;

    open spec fn view(&self) -> NumericKindView {
        match *self {
            NumericKind::Number(whole) => NumericKindView::Number(whole),
            NumericKind::Percentage => NumericKindView::Percentage,
            NumericKind::Dimension(unit) => NumericKindView::Dimension(unit@),
        }
    }
}

/// A numeric token: its kind, and the token as it is written in the text,
/// from its sign or first digit to the end of its unit or its percent sign.
#[derive(Clone, Debug, PartialEq, Eq)]
pub struct Numeric {
    pub kind: NumericKind,
    pub written: String,
}

pub struct NumericView {
    pub kind: NumericKindView,
    pub written: Seq<char>,
}

impl View for Numeric {
    type V = NumericView;

    open spec fn view(&self) -> NumericView {
        NumericView { kind: self.kind@, written: self.written@ }
    }
}

/// What `Parser::expect_ident` returns on `text`: the identifier and the
/// text after it.
pub uninterp spec fn css_ident(text: Seq<char>) -> Result<(Seq<char>, Seq<char>), ValueErrorKind>;

/// What `Parser::next` returns on `text` where the token is a number, a
/// percentage or a dimension, with the text after it. Two things are named
/// of the one token that the one run of the parser yields: its kind, and the
/// stretch of the text that it takes up.
pub uninterp spec fn css_numeric(text: Seq<char>) -> Result<(NumericView, Seq<char>), ValueErrorKind>;

/// What `Parser::expect_url` returns on `text`: the address and the text
/// after it.
pub uninterp spec fn css_url(text: Seq<char>) -> Result<(Seq<char>, Seq<char>), ValueErrorKind>;

/// What `Parser::expect_string` returns on `text`: the contents of the quoted
/// string and the text after it.
pub uninterp spec fn css_string(text: Seq<char>) -> Result<(Seq<char>, Seq<char>), ValueErrorKind>;

/// What `Color::parse` returns on `text`: the color and the text after it.
pub uninterp spec fn css_color(text: Seq<char>) -> Result<(CssColor, Seq<char>), ValueErrorKind>;

/// Whether a number with an exponent is written in `s` at `j`, counted from
/// the last digit before the exponent: a digit, `e` or `E`, and a digit or
/// a sign and a digit.
pub open spec fn exponent_at(s: Seq<char>, j: int) -> bool {
    &&& 0 <= j && j + 2 < s.len()
    &&& is_digit(s[j])
    &&& s[j + 1] == 'e' || s[j + 1] == 'E'
    &&& is_digit(s[j + 2]) || (is_sign(s[j + 2]) && j + 3 < s.len() && is_digit(s[j + 3]))
}

/// Whether an opening parenthesis stands in `s` before `j`.
pub open spec fn parenthesis_before(s: Seq<char>, j: int) -> bool {
    exists|i: int| 0 <= i < j && s[i] == '('
}

/// Whether a number with an exponent is written in `s` after an opening
/// parenthesis: as the argument of a function, it may be.
pub open spec fn exponent_in_function(s: Seq<char>) -> bool {
    exists|j: int| parenthesis_before(s, j) && exponent_at(s, j)
}

/// What `Parser::expect_comma` returns on `text`: the text after the comma.
pub uninterp spec fn css_comma(text: Seq<char>) -> Result<Seq<char>, ValueErrorKind>;

/// What `Parser::expect_colon` returns on `text`: the text after the colon.
pub uninterp spec fn css_colon(text: Seq<char>) -> Result<Seq<char>, ValueErrorKind>;

/// What `Parser::expect_semicolon` returns on `text`: the text after the
/// semicolon.
pub uninterp spec fn css_semicolon(text: Seq<char>) -> Result<Seq<char>, ValueErrorKind>;

/// What `parse_important` returns on `text`: the text after `!important`.
pub uninterp spec fn css_important(text: Seq<char>) -> Result<Seq<char>, ValueErrorKind>;

/// What `Parser::is_exhausted` returns on `text`: whether nothing but
/// white space and comments is left.
pub uninterp spec fn css_exhausted(text: Seq<char>) -> bool;

/// Where `Parser::parse_until_before` stops on `text` when it looks for a
/// semicolon outside of any block: the text before that place and the text
/// from it on.
pub uninterp spec fn css_until_semicolon(text: Seq<char>) -> (Seq<char>, Seq<char>);

/// Where `Parser::parse_until_after` stops on `text` behind an at-keyword,
/// when it looks for a semicolon or a block in curly brackets outside of any
/// other block: the text after the semicolon or after the block. `None`
/// where the first token of the text is no at-keyword.
pub uninterp spec fn css_after_at_rule(text: Seq<char>) -> Option<Seq<char>>;

/// A result in which the value read and the remaining text stand for their views.
pub open spec fn read_view<T: View>(r: Result<(T, &str), ValueErrorKind>) -> Result<
    (T::V, Seq<char>),
    ValueErrorKind,
> {
    match r {
        Ok((v, rest)) => Ok((v@, rest@)),
        Err(e) => Err(e),
    }
}

/// A result in which the remaining text stands for its view.
pub open spec fn rest_view(r: Result<&str, ValueErrorKind>) -> Result<Seq<char>, ValueErrorKind> {
    match r {
        Ok(rest) => Ok(rest@),
        Err(e) => Err(e),
    }
}

/// Calls `cssparser::Parser::expect_ident` on a parser over `text`. Claimed:
/// the result is `css_ident` of the text, and an identifier takes up at
/// least one character.
#[verifier::external_body]
pub(crate) fn expect_ident<'a>(text: &'a str) -> (r: Result<(String, &'a str), ValueErrorKind>)
    ensures
        read_view(r) == css_ident(text@),
        r matches Ok((_, rest)) ==> rest@.len() < text@.len(),
        r matches Err(e) ==> e is UnexpectedToken || e is EndOfInput,
{
    let mut input = ParserInput::new(text);
    let mut parser = Parser::new(&mut input);
    match parser.expect_ident() {
        Ok(ident) => {
            let ident = ident.to_string();
            Ok((ident, &text[parser.position().byte_index()..]))
        },
        Err(e) => match e.kind {
            BasicParseErrorKind::EndOfInput => Err(ValueErrorKind::EndOfInput),
            _ => Err(ValueErrorKind::UnexpectedToken),
        },
    }
}

/// Calls `cssparser::Parser::next` on a parser over `text`, after the white
/// space and the comments before the token are skipped, and keeps the token
/// if it is a number, a percentage or a dimension; another token is an
/// unexpected one. Of the token its kind is kept and, by way of
/// `Parser::slice_from`, the stretch of the text that it takes up; the
/// value that the parser computes in floating point is not. Claimed: the
/// result is `css_numeric` of the text, and a token takes up at least one
/// character.
#[verifier::external_body]
pub(crate) fn next_numeric<'a>(text: &'a str) -> (r: Result<(Numeric, &'a str), ValueErrorKind>)
    ensures
        read_view(r) == css_numeric(text@),
        r matches Ok((_, rest)) ==> rest@.len() < text@.len(),
        r matches Err(e) ==> e is UnexpectedToken || e is EndOfInput,
{
    let mut input = ParserInput::new(text);
    let mut parser = Parser::new(&mut input);
    parser.skip_whitespace();
    let start = parser.position();
    let kind = match parser.next() {
        Ok(Token::Number { int_value, .. }) => NumericKind::Number(*int_value),
        Ok(Token::Percentage { .. }) => NumericKind::Percentage,
        Ok(Token::Dimension { unit, .. }) => NumericKind::Dimension(unit.to_string()),
        Ok(_) => return Err(ValueErrorKind::UnexpectedToken),
        Err(_) => return Err(ValueErrorKind::EndOfInput),
    };
    let written = parser.slice_from(start).to_string();
    Ok((Numeric { kind, written }, &text[parser.position().byte_index()..]))
}

/// Calls `cssparser::Parser::expect_url` on a parser over `text`. Claimed:
/// the result is `css_url` of the text, and a URL takes up at least one
/// character.
#[verifier::external_body]
pub(crate) fn expect_url<'a>(text: &'a str) -> (r: Result<(String, &'a str), ValueErrorKind>)
    ensures
        read_view(r) == css_url(text@),
        r matches Ok((_, rest)) ==> rest@.len() < text@.len(),
        r matches Err(e) ==> e is UnexpectedToken || e is EndOfInput,
{
    let mut input = ParserInput::new(text);
    let mut parser = Parser::new(&mut input);
    match parser.expect_url() {
        Ok(url) => {
            let url = url.to_string();
            Ok((url, &text[parser.position().byte_index()..]))
        },
        Err(e) => match e.kind {
            BasicParseErrorKind::EndOfInput => Err(ValueErrorKind::EndOfInput),
            _ => Err(ValueErrorKind::UnexpectedToken),
        },
    }
}

/// Calls `cssparser::Parser::expect_string` on a parser over `text`.
/// Claimed: the result is `css_string` of the text, and a quoted string
/// takes up at least one character.
#[verifier::external_body]
pub(crate) fn expect_string<'a>(text: &'a str) -> (r: Result<(String, &'a str), ValueErrorKind>)
    ensures
        read_view(r) == css_string(text@),
        r matches Ok((_, rest)) ==> rest@.len() < text@.len(),
        r matches Err(e) ==> e is UnexpectedToken || e is EndOfInput,
{
    let mut input = ParserInput::new(text);
    let mut parser = Parser::new(&mut input);
    match parser.expect_string() {
        Ok(string) => {
            let string = string.to_string();
            Ok((string, &text[parser.position().byte_index()..]))
        },
        Err(e) => match e.kind {
            BasicParseErrorKind::EndOfInput => Err(ValueErrorKind::EndOfInput),
            _ => Err(ValueErrorKind::UnexpectedToken),
        },
    }
}

/// Calls `cssparser::Color::parse` on a parser over `text`. The parser
/// computes the components of a color in functional notation in floating
/// point, and the value of a number with an exponent by a power, the
/// precision of which is not fixed: texts in which such a number may be the
/// argument of a function are left out. Claimed: the result is `css_color`
/// of the text, and a color takes up at least one character.
#[verifier::external_body]
pub(crate) fn parse_color<'a>(text: &'a str) -> (r: Result<(CssColor, &'a str), ValueErrorKind>)
    requires
        !exponent_in_function(text@),
    ensures
        read_view(r) == css_color(text@),
        r matches Ok((_, rest)) ==> rest@.len() < text@.len(),
        r matches Err(e) ==> e is UnexpectedToken || e is EndOfInput,
{
    let mut input = ParserInput::new(text);
    let mut parser = Parser::new(&mut input);
    let color = match cssparser::Color::parse(&mut parser) {
        Ok(cssparser::Color::CurrentColor) => CssColor::CurrentColor,
        Ok(cssparser::Color::RGBA(c)) => CssColor::Rgba(Rgba::new(c.red, c.green, c.blue, c.alpha)),
        Err(e) => match e.kind {
            BasicParseErrorKind::EndOfInput => return Err(ValueErrorKind::EndOfInput),
            _ => return Err(ValueErrorKind::UnexpectedToken),
        },
    };
    Ok((color, &text[parser.position().byte_index()..]))
}

/// Calls `cssparser::Parser::expect_comma` on a parser over `text`.
/// Claimed: the result is `css_comma` of the text, and a comma takes up a
/// character.
#[verifier::external_body]
pub(crate) fn expect_comma<'a>(text: &'a str) -> (r: Result<&'a str, ValueErrorKind>)
    ensures
        rest_view(r) == css_comma(text@),
        r matches Ok(rest) ==> rest@.len() < text@.len(),
        r matches Err(e) ==> e is UnexpectedToken || e is EndOfInput,
{
    let mut input = ParserInput::new(text);
    let mut parser = Parser::new(&mut input);
    match parser.expect_comma() {
        Ok(()) => Ok(&text[parser.position().byte_index()..]),
        Err(e) => match e.kind {
            BasicParseErrorKind::EndOfInput => Err(ValueErrorKind::EndOfInput),
            _ => Err(ValueErrorKind::UnexpectedToken),
        },
    }
}

/// Calls `cssparser::Parser::expect_colon` on a parser over `text`.
/// Claimed: the result is `css_colon` of the text, and a colon takes up a
/// character.
#[verifier::external_body]
pub(crate) fn expect_colon<'a>(text: &'a str) -> (r: Result<&'a str, ValueErrorKind>)
    ensures
        rest_view(r) == css_colon(text@),
        r matches Ok(rest) ==> rest@.len() < text@.len(),
        r matches Err(e) ==> e is UnexpectedToken || e is EndOfInput,
{
    let mut input = ParserInput::new(text);
    let mut parser = Parser::new(&mut input);
    match parser.expect_colon() {
        Ok(()) => Ok(&text[parser.position().byte_index()..]),
        Err(e) => match e.kind {
            BasicParseErrorKind::EndOfInput => Err(ValueErrorKind::EndOfInput),
            _ => Err(ValueErrorKind::UnexpectedToken),
        },
    }
}

/// Calls `cssparser::Parser::expect_semicolon` on a parser over `text`.
/// Claimed: the result is `css_semicolon` of the text, and a semicolon
/// takes up a character.
#[verifier::external_body]
pub(crate) fn expect_semicolon<'a>(text: &'a str) -> (r: Result<&'a str, ValueErrorKind>)
    ensures
        rest_view(r) == css_semicolon(text@),
        r matches Ok(rest) ==> rest@.len() < text@.len(),
        r matches Err(e) ==> e is UnexpectedToken || e is EndOfInput,
{
    let mut input = ParserInput::new(text);
    let mut parser = Parser::new(&mut input);
    match parser.expect_semicolon() {
        Ok(()) => Ok(&text[parser.position().byte_index()..]),
        Err(e) => match e.kind {
            BasicParseErrorKind::EndOfInput => Err(ValueErrorKind::EndOfInput),
            _ => Err(ValueErrorKind::UnexpectedToken),
        },
    }
}

/// Calls `cssparser::parse_important` on a parser over `text`. Claimed: the
/// result is `css_important` of the text, and the two tokens take up at
/// least one character.
#[verifier::external_body]
pub(crate) fn parse_important<'a>(text: &'a str) -> (r: Result<&'a str, ValueErrorKind>)
    ensures
        rest_view(r) == css_important(text@),
        r matches Ok(rest) ==> rest@.len() < text@.len(),
        r matches Err(e) ==> e is UnexpectedToken || e is EndOfInput,
{
    let mut input = ParserInput::new(text);
    let mut parser = Parser::new(&mut input);
    match cssparser::parse_important(&mut parser) {
        Ok(()) => Ok(&text[parser.position().byte_index()..]),
        Err(e) => match e.kind {
            BasicParseErrorKind::EndOfInput => Err(ValueErrorKind::EndOfInput),
            _ => Err(ValueErrorKind::UnexpectedToken),
        },
    }
}

/// Calls `cssparser::Parser::is_exhausted` on a parser over `text`.
/// Claimed: the result is `css_exhausted` of the text.
#[verifier::external_body]
pub(crate) fn is_exhausted(text: &str) -> (r: bool)
    ensures
        r == css_exhausted(text@),
{
    let mut input = ParserInput::new(text);
    let mut parser = Parser::new(&mut input);
    parser.is_exhausted()
}

/// Calls `cssparser::Parser::parse_until_before` on a parser over `text`,
/// with the semicolon as the delimiter and a closure that reads nothing,
/// and splits the text where the parser then stands. Claimed: the two parts
/// are `css_until_semicolon` of the text, and the second is no longer than
/// the text.
#[verifier::external_body]
pub(crate) fn until_semicolon<'a>(text: &'a str) -> (r: (&'a str, &'a str))
    ensures
        (r.0@, r.1@) == css_until_semicolon(text@),
        r.1@.len() <= text@.len(),
{
    let mut input = ParserInput::new(text);
    let mut parser = Parser::new(&mut input);
    let _ = parser.parse_until_before(Delimiter::Semicolon, |p| {
        Err::<(), _>(p.new_custom_error::<(), ()>(()))
    });
    text.split_at(parser.position().byte_index())
}

/// Calls `cssparser::Parser::next` on a parser over `text` and, if the token
/// is an at-keyword, `cssparser::Parser::parse_until_after` with the
/// semicolon and the block in curly brackets as delimiters and a closure
/// that reads nothing: this is how far the parser of a list of declarations
/// goes for an at-rule that it does not know. Claimed: the text that is left
/// is `css_after_at_rule` of the text, and an at-keyword takes up at least
/// one character.
#[verifier::external_body]
pub(crate) fn skip_at_rule<'a>(text: &'a str) -> (r: Option<&'a str>)
    ensures
        match r {
            Some(rest) => css_after_at_rule(text@) == Some(rest@) && rest@.len() < text@.len(),
            None => css_after_at_rule(text@).is_none(),
        },
{
    let mut input = ParserInput::new(text);
    let mut parser = Parser::new(&mut input);
    match parser.next() {
        Ok(Token::AtKeyword(_)) => {},
        _ => return None,
    }
    let _ = parser.parse_until_after(Delimiter::Semicolon | Delimiter::CurlyBracketBlock, |p| {
        Err::<(), _>(p.new_custom_error::<(), ()>(()))
    });
    Some(&text[parser.position().byte_index()..])
}

} // verus!
