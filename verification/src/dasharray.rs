//! Patterns of dashes and gaps.

use crate::css::{css_comma, css_exhausted, expect_comma, is_exhausted, read_view};
use crate::error::ValueErrorKind;
use crate::length::Length;
use crate::parsers::{after_word, expect_word, starts_with_word, Parse};
use vstd::prelude::*;

verus! {

/// The lengths of the dashes and gaps of a stroked outline.
#[derive(Clone, Debug, PartialEq, Eq)]
pub enum Dasharray {
    /// Written `none`: the outline is drawn without gaps.
    Solid,
    Array(Vec<Length>),
}

pub enum DasharrayView {
    Solid,
    Array(Seq<Length>),
}

impl View for Dasharray {
    type V = DasharrayView;

    open spec fn view(&self) -> DasharrayView {
        match *self {
            Dasharray::Solid => DasharrayView::Solid,
            Dasharray::Array(dashes) => DasharrayView::Array(dashes@),
        }
    }
}

/// The text at which the next item of a list starts, where `text` follows
/// an item: a comma between two items is optional.
pub open spec fn after_separator(text: Seq<char>) -> Seq<char> {
    match css_comma(text) {
        Ok(after) => after,
        Err(_) => text,
    }
}

/// The list of lengths that makes up the whole of `text`: one length at
/// least, none of them negative, with or without commas between them. The
/// second component is what is left of the text, which holds no token.
pub open spec fn parsed_dashes(text: Seq<char>) -> Result<(Seq<Length>, Seq<char>), ValueErrorKind>
    decreases text.len(),
{
    match Length::parsed(text) {
        Err(e) => Err(e),
        Ok((dash, rest)) => if dash.length.micros < 0 {
            Err(ValueErrorKind::Value)
        } else if css_exhausted(rest) {
            Ok((seq![dash], rest))
        } else if after_separator(rest).len() < text.len() {
            match parsed_dashes(after_separator(rest)) {
                Ok((more, rest)) => Ok((seq![dash] + more, rest)),
                Err(e) => Err(e),
            }
        } else {
            Err(ValueErrorKind::UnexpectedToken)
        },
    }
}

/// What `parsed_dashes` gives on a text when `dashes` have been read and
/// `then` is what it gives on the text that follows them.
spec fn continued(dashes: Seq<Length>, then: Result<(Seq<Length>, Seq<char>), ValueErrorKind>) -> Result<
    (Seq<Length>, Seq<char>),
    ValueErrorKind,
> {
    match then {
        Ok((more, rest)) => Ok((dashes + more, rest)),
        Err(e) => Err(e),
    }
}

fn parse_dashes<'a>(text: &'a str) -> (r: Result<(Vec<Length>, &'a str), ValueErrorKind>)
    ensures
        read_view(r) == parsed_dashes(text@),
        r matches Ok((_, rest)) ==> rest@.len() < text@.len(),
        r matches Err(e) ==> !(e is UnknownProperty),
{
    let mut dashes: Vec<Length> = Vec::new();
    let mut current: &'a str = text;
    assert(Seq::<Length>::empty() + parsed_dashes(text@)->Ok_0.0 == parsed_dashes(text@)->Ok_0.0);
    loop
        invariant
            current@.len() <= text@.len(),
            parsed_dashes(text@) == continued(dashes@, parsed_dashes(current@)),
        decreases current@.len(),
    {
        match Length::parse(current) {
            Err(e) => {
                return Err(e);
            },
            Ok((dash, rest)) => {
                if dash.length.is_negative() {
                    return Err(ValueErrorKind::Value);
                }
                let ghost before = dashes@;
                dashes.push(dash);
                if is_exhausted(rest) {
                    assert(before + seq![dash] == dashes@);
                    return Ok((dashes, rest));
                }
                let next: &'a str = match expect_comma(rest) {
                    Ok(after) => after,
                    Err(_) => rest,
                };
                proof {
                    assert(next@ == after_separator(rest@));
                    match parsed_dashes(next@) {
                        Ok((more, _)) => {
                            assert(before + (seq![dash] + more) == dashes@ + more);
                        },
                        Err(_) => {},
                    }
                }
                current = next;
            },
        }
    }
}

impl Dasharray {
    pub fn duplicate(&self) -> (r: Dasharray)
        ensures
            r@ == self@,
    {
        match self {
            Dasharray::Solid => Dasharray::Solid,
            Dasharray::Array(dashes) => {
                let mut copy: Vec<Length> = Vec::new();
                let mut i: usize = 0;
                while i < dashes.len()
                    invariant
                        i <= dashes.len(),
                        copy@ == dashes@.subrange(0, i as int),
                    decreases dashes.len() - i,
                {
                    copy.push(dashes[i]);
                    assert(copy@ == dashes@.subrange(0, i + 1));
                    i += 1;
                }
                assert(copy@ == dashes@);
                Dasharray::Array(copy)
            },
        }
    }
}

impl Parse for Dasharray {
    /// `none`, or a list of lengths.
    open spec fn parsed(text: Seq<char>) -> Result<(DasharrayView, Seq<char>), ValueErrorKind> {
        if starts_with_word(text, "none"@) {
            Ok((DasharrayView::Solid, after_word(text)))
        } else {
            match parsed_dashes(text) {
                Ok((dashes, rest)) => Ok((DasharrayView::Array(dashes), rest)),
                Err(e) => Err(e),
            }
        }
    }

    fn parse<'a>(text: &'a str) -> (r: Result<(Dasharray, &'a str), ValueErrorKind>) {
        if let Some(rest) = expect_word(text, "none") {
            return Ok((Dasharray::Solid, rest));
        }
        match parse_dashes(text) {
            Ok((dashes, rest)) => Ok((Dasharray::Array(dashes), rest)),
            Err(e) => Err(e),
        }
    }
}

} // verus!
