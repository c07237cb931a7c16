//! Reading values from text.

use crate::css::{css_exhausted, css_ident, expect_ident, is_exhausted, read_view};
use crate::error::ValueErrorKind;
use crate::text::{eq_ignore_ascii_case, same_ignoring_case};
use vstd::prelude::*;

verus! {

/// A result in which the value stands for its view.
pub open spec fn value_view<T: View>(r: Result<T, ValueErrorKind>) -> Result<T::V, ValueErrorKind> {
    match r {
        Ok(v) => Ok(v@),
        Err(e) => Err(e),
    }
}

/// What reading a whole text gives, where `read` is what reading a value at
/// its start gives: the value, provided that nothing follows it.
pub open spec fn entire<V>(read: Result<(V, Seq<char>), ValueErrorKind>) -> Result<
    V,
    ValueErrorKind,
> {
    match read {
        Ok((v, rest)) => if css_exhausted(rest) {
            Ok(v)
        } else {
            Err(ValueErrorKind::UnexpectedToken)
        },
        Err(e) => Err(e),
    }
}

/// A type whose values are written in CSS syntax.
pub trait Parse: View + Sized {
    /// The value that stands at the start of `text`, with the text after it.
    spec fn parsed(text: Seq<char>) -> Result<(Self::V, Seq<char>), ValueErrorKind>;

    /// Reads a value from the start of `text` and returns it with the rest of
    /// the text. A text that holds no value is never reported as an unknown
    /// property.
    fn parse<'a>(text: &'a str) -> (r: Result<(Self, &'a str), ValueErrorKind>)
        ensures
            read_view(r) == Self::parsed(text@),
            r matches Ok((_, rest)) ==> rest@.len() < text@.len(),
            r matches Err(e) ==> !(e is UnknownProperty),
    ;

    /// Reads a value that takes up the whole of `text`.
    fn parse_str(text: &str) -> (r: Result<Self, ValueErrorKind>)
        ensures
            value_view(r) == entire(Self::parsed(text@)),
            r matches Err(e) ==> !(e is UnknownProperty),
    {
        match Self::parse(text) {
            Ok((v, rest)) => {
                if is_exhausted(rest) {
                    Ok(v)
                } else {
                    Err(ValueErrorKind::UnexpectedToken)
                }
            },
            Err(e) => Err(e),
        }
    }
}

/// A type whose values are keywords.
pub trait Keyword: View<V = Self> + Sized {
    /// The value that the identifier `ident` names.
    spec fn named(ident: Seq<char>) -> Option<Self>;

    /// Looks up the value that `ident` names.
    fn from_ident(ident: &str) -> (r: Option<Self>)
        ensures
            r == Self::named(ident@),
    ;
}

/// What reading a keyword of type `T` from the start of `text` gives.
pub open spec fn parsed_keyword<T: Keyword>(text: Seq<char>) -> Result<
    (T, Seq<char>),
    ValueErrorKind,
> {
    match css_ident(text) {
        Ok((ident, rest)) => match T::named(ident) {
            Some(v) => Ok((v@, rest)),
            None => Err(ValueErrorKind::UnexpectedToken),
        },
        Err(e) => Err(e),
    }
}

/// Reads one identifier and looks up the value of type `T` that it names.
pub fn parse_keyword<'a, T: Keyword>(text: &'a str) -> (r: Result<(T, &'a str), ValueErrorKind>)
    ensures
        read_view(r) == parsed_keyword::<T>(text@),
        r matches Ok((_, rest)) ==> rest@.len() < text@.len(),
        r matches Err(e) ==> !(e is UnknownProperty),
{
    match expect_ident(text) {
        Ok((ident, rest)) => match T::from_ident(ident.as_str()) {
            Some(v) => Ok((v, rest)),
            None => Err(ValueErrorKind::UnexpectedToken),
        },
        Err(e) => Err(e),
    }
}

/// Whether `text` starts with the identifier `word`, in any case.
pub open spec fn starts_with_word(text: Seq<char>, word: Seq<char>) -> bool {
    css_ident(text) matches Ok((ident, _)) && same_ignoring_case(ident, word)
}

/// The text after the identifier at the start of `text`.
pub open spec fn after_word(text: Seq<char>) -> Seq<char> {
    css_ident(text)->Ok_0.1
}

/// Reads the identifier `word`, in any case, from the start of `text`, and
/// returns the text after it.
pub fn expect_word<'a>(text: &'a str, word: &str) -> (r: Option<&'a str>)
    ensures
        match r {
            Some(rest) => starts_with_word(text@, word@) && rest@ == after_word(text@)
                && rest@.len() < text@.len(),
            None => !starts_with_word(text@, word@),
        },
{
    match expect_ident(text) {
        Ok((ident, rest)) => {
            if eq_ignore_ascii_case(ident.as_str(), word) {
                Some(rest)
            } else {
                None
            }
        },
        Err(_) => None,
    }
}

} // verus!
