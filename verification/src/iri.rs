//! References to other elements of a document.

use crate::css::{css_url, expect_url};
use crate::error::ValueErrorKind;
use crate::parsers::{after_word, expect_word, starts_with_word, Parse};
use crate::text::{last_position, lemma_last_position, rfind_char};
use vstd::prelude::*;

verus! {

/// The address of an element: an optional document, and the element's
/// identifier within it.
#[derive(Clone, Debug, PartialEq, Eq)]
pub struct Fragment {
    pub uri: Option<String>,
    pub fragment: String,
}

pub struct FragmentView {
    pub uri: Option<Seq<char>>,
    pub fragment: Seq<char>,
}

impl View for Fragment {
    type V = FragmentView;

    open spec fn view(&self) -> FragmentView {
        FragmentView {
            uri: match self.uri {
                Some(uri) => Some(uri@),
                None => None,
            },
            fragment: self.fragment@,
        }
    }
}

/// The address that `href` gives: what follows its last `#` is the
/// identifier, which must not be empty, and what stands before it, if
/// anything, is the document.
pub open spec fn fragment_of(href: Seq<char>) -> Option<FragmentView> {
    match last_position(href, '#') {
        Some(p) => if p + 1 < href.len() {
            Some(
                FragmentView {
                    uri: if p == 0 {
                        None
                    } else {
                        Some(href.subrange(0, p))
                    },
                    fragment: href.subrange(p + 1, href.len() as int),
                },
            )
        } else {
            None
        },
        None => None,
    }
}

impl Fragment {
    pub fn new(uri: Option<String>, fragment: String) -> (r: Fragment)
        ensures
            r == (Fragment { uri, fragment }),
    {
        Fragment { uri, fragment }
    }

    /// Splits `href` into a document and an identifier.
    pub fn parse(href: &str) -> (r: Option<Fragment>)
        ensures
            match r {
                Some(f) => fragment_of(href@) == Some(f@),
                None => fragment_of(href@).is_none(),
            },
    {
        let n: usize = href.unicode_len();
        match rfind_char(href, '#') {
            Some(p) => {
                proof {
                    lemma_last_position(href@, '#');
                }
                if p + 1 < n {
                    let uri: Option<String> = if p == 0 {
                        None
                    } else {
                        Some(href.substring_char(0, p).to_owned())
                    };
                    let fragment: String = href.substring_char(p + 1, n).to_owned();
                    Some(Fragment { uri, fragment })
                } else {
                    None
                }
            },
            None => None,
        }
    }

    pub fn duplicate(&self) -> (r: Fragment)
        ensures
            r@ == self@,
    {
        Fragment {
            uri: match &self.uri {
                Some(uri) => Some(uri.clone()),
                None => None,
            },
            fragment: self.fragment.clone(),
        }
    }
}

/// A reference to an element, or none.
#[derive(Clone, Debug, PartialEq, Eq)]
pub enum IRI {
    /// Written `none`.
    NoResource,
    Resource(Fragment),
}

pub enum IriView {
    NoResource,
    Resource(FragmentView),
}

impl View for IRI {
    type V = IriView;

    open spec fn view(&self) -> IriView {
        match *self {
            IRI::NoResource => IriView::NoResource,
            IRI::Resource(f) => IriView::Resource(f@),
        }
    }
}

impl IRI {
    pub fn duplicate(&self) -> (r: IRI)
        ensures
            r@ == self@,
    {
        match self {
            IRI::NoResource => IRI::NoResource,
            IRI::Resource(f) => IRI::Resource(f.duplicate()),
        }
    }
}

impl Parse for IRI {
    /// `none`, or a URL with a fragment identifier.
    open spec fn parsed(text: Seq<char>) -> Result<(IriView, Seq<char>), ValueErrorKind> {
        if starts_with_word(text, "none"@) {
            Ok((IriView::NoResource, after_word(text)))
        } else {
            match css_url(text) {
                Ok((url, rest)) => match fragment_of(url) {
                    Some(f) => Ok((IriView::Resource(f), rest)),
                    None => Err(ValueErrorKind::Value),
                },
                Err(e) => Err(e),
            }
        }
    }

    fn parse<'a>(text: &'a str) -> (r: Result<(IRI, &'a str), ValueErrorKind>) {
        if let Some(rest) = expect_word(text, "none") {
            return Ok((IRI::NoResource, rest));
        }
        match expect_url(text) {
            Ok((url, rest)) => match Fragment::parse(url.as_str()) {
                Some(f) => Ok((IRI::Resource(f), rest)),
                None => Err(ValueErrorKind::Value),
            },
            Err(e) => Err(e),
        }
    }
}

} // verus!
