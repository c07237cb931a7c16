//! What an outline or an interior is painted with.

use crate::color::{parsed_color, read_color, CssColor};
use crate::css::{css_exhausted, css_url, expect_url, is_exhausted, read_view};
use crate::error::ValueErrorKind;
use crate::iri::{fragment_of, Fragment, FragmentView};
use crate::parsers::{after_word, expect_word, starts_with_word, Parse};
use vstd::prelude::*;

verus! {

/// A paint: none, a paint server element with an optional color to use in
/// its place, or a color.
#[derive(Clone, Debug, PartialEq, Eq)]
pub enum PaintServer {
    /// Written `none`.
    NoPaint,
    Iri { iri: Fragment, alternate: Option<CssColor> },
    SolidColor(CssColor),
}

pub enum PaintServerView {
    NoPaint,
    Iri { iri: FragmentView, alternate: Option<CssColor> },
    SolidColor(CssColor),
}

impl View for PaintServer {
    type V = PaintServerView;

    open spec fn view(&self) -> PaintServerView {
        match *self {
            PaintServer::NoPaint => PaintServerView::NoPaint,
            PaintServer::Iri { iri, alternate } => PaintServerView::Iri { iri: iri@, alternate },
            PaintServer::SolidColor(color) => PaintServerView::SolidColor(color),
        }
    }
}

/// What may follow the URL of a paint server: nothing, `none`, or a color.
pub open spec fn parsed_alternate(text: Seq<char>) -> Result<
    (Option<CssColor>, Seq<char>),
    ValueErrorKind,
> {
    if css_exhausted(text) {
        Ok((None, text))
    } else if starts_with_word(text, "none"@) {
        Ok((None, after_word(text)))
    } else {
        match parsed_color(text) {
            Ok((color, rest)) => Ok((Some(color), rest)),
            Err(e) => Err(e),
        }
    }
}

fn parse_alternate<'a>(text: &'a str) -> (r: Result<(Option<CssColor>, &'a str), ValueErrorKind>)
    ensures
        read_view(r) == parsed_alternate(text@),
        r matches Ok((_, rest)) ==> rest@.len() <= text@.len(),
        r matches Err(e) ==> !(e is UnknownProperty),
{
    if is_exhausted(text) {
        return Ok((None, text));
    }
    if let Some(rest) = expect_word(text, "none") {
        return Ok((None, rest));
    }
    match read_color(text) {
        Ok((color, rest)) => Ok((Some(color), rest)),
        Err(e) => Err(e),
    }
}

impl PaintServer {
    pub fn duplicate(&self) -> (r: PaintServer)
        ensures
            r@ == self@,
    {
        match self {
            PaintServer::NoPaint => PaintServer::NoPaint,
            PaintServer::Iri { iri, alternate } => PaintServer::Iri {
                iri: iri.duplicate(),
                alternate: *alternate,
            },
            PaintServer::SolidColor(color) => PaintServer::SolidColor(*color),
        }
    }
}

impl Parse for PaintServer {
    /// `none`; or a URL with a fragment identifier and, after it, an optional
    /// `none` or color; or a color.
    open spec fn parsed(text: Seq<char>) -> Result<(PaintServerView, Seq<char>), ValueErrorKind> {
        if starts_with_word(text, "none"@) {
            Ok((PaintServerView::NoPaint, after_word(text)))
        } else {
            match css_url(text) {
                Ok((url, rest)) => match parsed_alternate(rest) {
                    Ok((alternate, rest)) => match fragment_of(url) {
                        Some(iri) => Ok((PaintServerView::Iri { iri, alternate }, rest)),
                        None => Err(ValueErrorKind::Value),
                    },
                    Err(e) => Err(e),
                },
                Err(_) => match parsed_color(text) {
                    Ok((color, rest)) => Ok((PaintServerView::SolidColor(color), rest)),
                    Err(e) => Err(e),
                },
            }
        }
    }

    fn parse<'a>(text: &'a str) -> (r: Result<(PaintServer, &'a str), ValueErrorKind>) {
        if let Some(rest) = expect_word(text, "none") {
            return Ok((PaintServer::NoPaint, rest));
        }
        match expect_url(text) {
            Ok((url, rest)) => match parse_alternate(rest) {
                Ok((alternate, rest)) => match Fragment::parse(url.as_str()) {
                    Some(iri) => Ok((PaintServer::Iri { iri, alternate }, rest)),
                    None => Err(ValueErrorKind::Value),
                },
                Err(e) => Err(e),
            },
            Err(_) => match read_color(text) {
                Ok((color, rest)) => Ok((PaintServer::SolidColor(color), rest)),
                Err(e) => Err(e),
            },
        }
    }
}

} // verus!
