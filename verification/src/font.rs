//! Values of the font properties.

use crate::css::{
    css_ident, css_numeric, css_string, expect_ident, expect_string, next_numeric, read_view,
    Numeric, NumericKind, NumericKindView, NumericView,
};
use crate::error::ValueErrorKind;
use crate::length::{Length, LengthUnit};
use crate::number::{product_micros, Decimal};
use crate::parsers::{parse_keyword, parsed_keyword, Keyword, Parse};
use crate::text::{eq_ignore_ascii_case, same_ignoring_case};
use vstd::prelude::*;
use vstd::string::StringExecFns;

verus! {

/// A font size as it is written: relative to that of the parent, by name,
/// or as a length.
#[derive(Clone, Copy, Debug, PartialEq, Eq, Structural)]
pub enum FontSizeSpec {
    Smaller,
    Larger,
    XXSmall,
    XSmall,
    Small,
    Medium,
    Large,
    XLarge,
    XXLarge,
    Value(Length),
}

impl View for FontSizeSpec {
    type V = FontSizeSpec;

    open spec fn view(&self) -> FontSizeSpec {
        *self
    }
}

/// The factor between one named size and the next: 1.2.
pub const LARGER: i64 = 1_200_000;

/// The inverse of `LARGER`.
pub const SMALLER: i64 = 833_333;

/// The `ex` unit as a part of the `em` unit: one half.
pub const EX_PER_EM: i64 = 500_000;

/// The product of two numbers.
pub open spec fn product(a: Decimal, b: Decimal) -> Decimal {
    Decimal { micros: product_micros(a.micros as int, b.micros as int) as i64 }
}

/// A length in inches.
pub open spec fn inches(micros: i64) -> Length {
    Length { length: Decimal { micros }, unit: LengthUnit::In }
}

impl FontSizeSpec {
    /// The length that this font size comes to where the font size of the
    /// parent is `parent`. The named sizes are 12 points times a power of
    /// 1.2, from the third negative to the third positive, in inches.
    pub open spec fn resolved(self, parent: Length) -> Length {
        match self {
            FontSizeSpec::Smaller => Length {
                length: product(parent.length, Decimal { micros: SMALLER }),
                unit: parent.unit,
            },
            FontSizeSpec::Larger => Length {
                length: product(parent.length, Decimal { micros: LARGER }),
                unit: parent.unit,
            },
            FontSizeSpec::XXSmall => inches(96_451),
            FontSizeSpec::XSmall => inches(115_741),
            FontSizeSpec::Small => inches(138_889),
            FontSizeSpec::Medium => inches(166_667),
            FontSizeSpec::Large => inches(200_000),
            FontSizeSpec::XLarge => inches(240_000),
            FontSizeSpec::XXLarge => inches(288_000),
            FontSizeSpec::Value(size) => match size.unit {
                LengthUnit::Percent | LengthUnit::Em => Length {
                    length: product(parent.length, size.length),
                    unit: parent.unit,
                },
                LengthUnit::Ex => Length {
                    length: product(
                        product(parent.length, size.length),
                        Decimal { micros: EX_PER_EM },
                    ),
                    unit: parent.unit,
                },
                _ => size,
            },
        }
    }

    /// Computes the length that this font size comes to under a parent
    /// whose font size is `parent`.
    pub fn resolve(self, parent: Length) -> (r: Length)
        ensures
            r == self.resolved(parent),
    {
        match self {
            FontSizeSpec::Smaller => Length::new(
                parent.length.times(Decimal::from_micros(SMALLER)),
                parent.unit,
            ),
            FontSizeSpec::Larger => Length::new(
                parent.length.times(Decimal::from_micros(LARGER)),
                parent.unit,
            ),
            FontSizeSpec::XXSmall => Length::new(Decimal::from_micros(96_451), LengthUnit::In),
            FontSizeSpec::XSmall => Length::new(Decimal::from_micros(115_741), LengthUnit::In),
            FontSizeSpec::Small => Length::new(Decimal::from_micros(138_889), LengthUnit::In),
            FontSizeSpec::Medium => Length::new(Decimal::from_micros(166_667), LengthUnit::In),
            FontSizeSpec::Large => Length::new(Decimal::from_micros(200_000), LengthUnit::In),
            FontSizeSpec::XLarge => Length::new(Decimal::from_micros(240_000), LengthUnit::In),
            FontSizeSpec::XXLarge => Length::new(Decimal::from_micros(288_000), LengthUnit::In),
            FontSizeSpec::Value(size) => match size.unit {
                LengthUnit::Percent | LengthUnit::Em => Length::new(
                    parent.length.times(size.length),
                    parent.unit,
                ),
                LengthUnit::Ex => Length::new(
                    parent.length.times(size.length).times(Decimal::from_micros(EX_PER_EM)),
                    parent.unit,
                ),
                _ => size,
            },
        }
    }
}

impl Keyword for FontSizeSpec {
    open spec fn named(ident: Seq<char>) -> Option<FontSizeSpec> {
        if same_ignoring_case(ident, "smaller"@) {
            Some(FontSizeSpec::Smaller)
        } else if same_ignoring_case(ident, "larger"@) {
            Some(FontSizeSpec::Larger)
        } else if same_ignoring_case(ident, "xx-small"@) {
            Some(FontSizeSpec::XXSmall)
        } else if same_ignoring_case(ident, "x-small"@) {
            Some(FontSizeSpec::XSmall)
        } else if same_ignoring_case(ident, "small"@) {
            Some(FontSizeSpec::Small)
        } else if same_ignoring_case(ident, "medium"@) {
            Some(FontSizeSpec::Medium)
        } else if same_ignoring_case(ident, "large"@) {
            Some(FontSizeSpec::Large)
        } else if same_ignoring_case(ident, "x-large"@) {
            Some(FontSizeSpec::XLarge)
        } else if same_ignoring_case(ident, "xx-large"@) {
            Some(FontSizeSpec::XXLarge)
        } else {
            None
        }
    }

    fn from_ident(ident: &str) -> (r: Option<FontSizeSpec>) {
        if eq_ignore_ascii_case(ident, "smaller") {
            Some(FontSizeSpec::Smaller)
        } else if eq_ignore_ascii_case(ident, "larger") {
            Some(FontSizeSpec::Larger)
        } else if eq_ignore_ascii_case(ident, "xx-small") {
            Some(FontSizeSpec::XXSmall)
        } else if eq_ignore_ascii_case(ident, "x-small") {
            Some(FontSizeSpec::XSmall)
        } else if eq_ignore_ascii_case(ident, "small") {
            Some(FontSizeSpec::Small)
        } else if eq_ignore_ascii_case(ident, "medium") {
            Some(FontSizeSpec::Medium)
        } else if eq_ignore_ascii_case(ident, "large") {
            Some(FontSizeSpec::Large)
        } else if eq_ignore_ascii_case(ident, "x-large") {
            Some(FontSizeSpec::XLarge)
        } else if eq_ignore_ascii_case(ident, "xx-large") {
            Some(FontSizeSpec::XXLarge)
        } else {
            None
        }
    }
}

impl Parse for FontSizeSpec {
    /// A length, or the name of a size.
    open spec fn parsed(text: Seq<char>) -> Result<(FontSizeSpec, Seq<char>), ValueErrorKind> {
        match Length::parsed(text) {
            Ok((size, rest)) => Ok((FontSizeSpec::Value(size), rest)),
            Err(_) => parsed_keyword::<FontSizeSpec>(text),
        }
    }

    fn parse<'a>(text: &'a str) -> (r: Result<(FontSizeSpec, &'a str), ValueErrorKind>) {
        match Length::parse(text) {
            Ok((size, rest)) => Ok((FontSizeSpec::Value(size), rest)),
            Err(_) => parse_keyword::<FontSizeSpec>(text),
        }
    }
}

/// A font weight as it is written.
#[derive(Clone, Copy, Debug, PartialEq, Eq, Structural)]
pub enum FontWeightSpec {
    Normal,
    Bold,
    Bolder,
    Lighter,
    W100,
    W200,
    W300,
    W400,
    W500,
    W600,
    W700,
    W800,
    W900,
}

impl View for FontWeightSpec {
    type V = FontWeightSpec;

    open spec fn view(&self) -> FontWeightSpec {
        *self
    }
}

impl Keyword for FontWeightSpec {
    open spec fn named(ident: Seq<char>) -> Option<FontWeightSpec> {
        if same_ignoring_case(ident, "normal"@) {
            Some(FontWeightSpec::Normal)
        } else if same_ignoring_case(ident, "bold"@) {
            Some(FontWeightSpec::Bold)
        } else if same_ignoring_case(ident, "bolder"@) {
            Some(FontWeightSpec::Bolder)
        } else if same_ignoring_case(ident, "lighter"@) {
            Some(FontWeightSpec::Lighter)
        } else {
            None
        }
    }

    fn from_ident(ident: &str) -> (r: Option<FontWeightSpec>) {
        if eq_ignore_ascii_case(ident, "normal") {
            Some(FontWeightSpec::Normal)
        } else if eq_ignore_ascii_case(ident, "bold") {
            Some(FontWeightSpec::Bold)
        } else if eq_ignore_ascii_case(ident, "bolder") {
            Some(FontWeightSpec::Bolder)
        } else if eq_ignore_ascii_case(ident, "lighter") {
            Some(FontWeightSpec::Lighter)
        } else {
            None
        }
    }
}

impl FontWeightSpec {
    /// The weight that a whole number stands for: one of the hundreds from
    /// 100 to 900.
    pub open spec fn numbered(number: i32) -> Option<FontWeightSpec> {
        if number == 100 {
            Some(FontWeightSpec::W100)
        } else if number == 200 {
            Some(FontWeightSpec::W200)
        } else if number == 300 {
            Some(FontWeightSpec::W300)
        } else if number == 400 {
            Some(FontWeightSpec::W400)
        } else if number == 500 {
            Some(FontWeightSpec::W500)
        } else if number == 600 {
            Some(FontWeightSpec::W600)
        } else if number == 700 {
            Some(FontWeightSpec::W700)
        } else if number == 800 {
            Some(FontWeightSpec::W800)
        } else if number == 900 {
            Some(FontWeightSpec::W900)
        } else {
            None
        }
    }

    /// Looks up the weight that a whole number stands for.
    pub fn from_number(number: i32) -> (r: Option<FontWeightSpec>)
        ensures
            r == FontWeightSpec::numbered(number),
    {
        if number == 100 {
            Some(FontWeightSpec::W100)
        } else if number == 200 {
            Some(FontWeightSpec::W200)
        } else if number == 300 {
            Some(FontWeightSpec::W300)
        } else if number == 400 {
            Some(FontWeightSpec::W400)
        } else if number == 500 {
            Some(FontWeightSpec::W500)
        } else if number == 600 {
            Some(FontWeightSpec::W600)
        } else if number == 700 {
            Some(FontWeightSpec::W700)
        } else if number == 800 {
            Some(FontWeightSpec::W800)
        } else if number == 900 {
            Some(FontWeightSpec::W900)
        } else {
            None
        }
    }

    /// The weight that a numeric token denotes: the token must be a number
    /// written without a fraction and without an exponent.
    pub open spec fn of_numeric(token: NumericView) -> Result<FontWeightSpec, ValueErrorKind> {
        match token.kind {
            NumericKindView::Number(Some(number)) => match FontWeightSpec::numbered(number) {
                Some(weight) => Ok(weight),
                None => Err(ValueErrorKind::Value),
            },
            _ => Err(ValueErrorKind::UnexpectedToken),
        }
    }

    /// Turns a numeric token into a weight.
    pub fn from_numeric(token: &Numeric) -> (r: Result<FontWeightSpec, ValueErrorKind>)
        ensures
            r == FontWeightSpec::of_numeric(token@),
    {
        match &token.kind {
            NumericKind::Number(Some(number)) => match FontWeightSpec::from_number(*number) {
                Some(weight) => Ok(weight),
                None => Err(ValueErrorKind::Value),
            },
            _ => Err(ValueErrorKind::UnexpectedToken),
        }
    }
}

impl Parse for FontWeightSpec {
    /// The name of a weight, or one of the hundreds from 100 to 900.
    open spec fn parsed(text: Seq<char>) -> Result<(FontWeightSpec, Seq<char>), ValueErrorKind> {
        match css_ident(text) {
            Ok(_) => parsed_keyword::<FontWeightSpec>(text),
            Err(_) => match css_numeric(text) {
                Ok((token, rest)) => match FontWeightSpec::of_numeric(token) {
                    Ok(weight) => Ok((weight, rest)),
                    Err(e) => Err(e),
                },
                Err(e) => Err(e),
            },
        }
    }

    fn parse<'a>(text: &'a str) -> (r: Result<(FontWeightSpec, &'a str), ValueErrorKind>) {
        match expect_ident(text) {
            Ok(_) => parse_keyword::<FontWeightSpec>(text),
            Err(_) => match next_numeric(text) {
                Ok((token, rest)) => match FontWeightSpec::from_numeric(&token) {
                    Ok(weight) => Ok((weight, rest)),
                    Err(e) => Err(e),
                },
                Err(e) => Err(e),
            },
        }
    }
}

/// The space between letters as it is written.
#[derive(Clone, Copy, Debug, PartialEq, Eq, Structural)]
pub enum LetterSpacingSpec {
    Normal,
    Value(Length),
}

impl View for LetterSpacingSpec {
    type V = LetterSpacingSpec;

    open spec fn view(&self) -> LetterSpacingSpec {
        *self
    }
}

impl Keyword for LetterSpacingSpec {
    open spec fn named(ident: Seq<char>) -> Option<LetterSpacingSpec> {
        if same_ignoring_case(ident, "normal"@) {
            Some(LetterSpacingSpec::Normal)
        } else {
            None
        }
    }

    fn from_ident(ident: &str) -> (r: Option<LetterSpacingSpec>) {
        if eq_ignore_ascii_case(ident, "normal") {
            Some(LetterSpacingSpec::Normal)
        } else {
            None
        }
    }
}

impl Parse for LetterSpacingSpec {
    /// A length, or `normal`.
    open spec fn parsed(text: Seq<char>) -> Result<(LetterSpacingSpec, Seq<char>), ValueErrorKind> {
        match Length::parsed(text) {
            Ok((space, rest)) => Ok((LetterSpacingSpec::Value(space), rest)),
            Err(_) => parsed_keyword::<LetterSpacingSpec>(text),
        }
    }

    fn parse<'a>(text: &'a str) -> (r: Result<(LetterSpacingSpec, &'a str), ValueErrorKind>) {
        match Length::parse(text) {
            Ok((space, rest)) => Ok((LetterSpacingSpec::Value(space), rest)),
            Err(_) => parse_keyword::<LetterSpacingSpec>(text),
        }
    }
}

/// The name `name` with every identifier that stands at the start of `text`
/// added to it, a space before each; and the text after the last of them.
pub open spec fn with_more_words(name: Seq<char>, text: Seq<char>) -> (Seq<char>, Seq<char>)
    decreases text.len(),
{
    match css_ident(text) {
        Ok((word, rest)) => if rest.len() < text.len() {
            with_more_words(name + " "@ + word, rest)
        } else {
            (name, text)
        },
        Err(_) => (name, text),
    }
}

/// The name of a font family at the start of `text`: a quoted string, or
/// one identifier or more.
pub open spec fn parsed_family(text: Seq<char>) -> Result<(Seq<char>, Seq<char>), ValueErrorKind> {
    match css_string(text) {
        Ok(quoted) => Ok(quoted),
        Err(_) => match css_ident(text) {
            Ok((first, rest)) => Ok(with_more_words(first, rest)),
            Err(e) => Err(e),
        },
    }
}

/// Reads the name of a font family from the start of `text`.
pub fn parse_family<'a>(text: &'a str) -> (r: Result<(String, &'a str), ValueErrorKind>)
    ensures
        read_view(r) == parsed_family(text@),
        r matches Ok((_, rest)) ==> rest@.len() < text@.len(),
        r matches Err(e) ==> !(e is UnknownProperty),
{
    if let Ok(quoted) = expect_string(text) {
        return Ok(quoted);
    }
    match expect_ident(text) {
        Ok((first, rest)) => {
            let mut name: String = first;
            let ghost first = name@;
            let mut current: &'a str = rest;
            loop
                invariant
                    current@.len() < text@.len(),
                    css_string(text@) is Err,
                    css_ident(text@) == Ok::<_, ValueErrorKind>((first, rest@)),
                    with_more_words(first, rest@) == with_more_words(name@, current@),
                decreases current@.len(),
            {
                match expect_ident(current) {
                    Ok((word, after)) => {
                        name.append(" ");
                        name.append(word.as_str());
                        current = after;
                    },
                    Err(_) => {
                        return Ok((name, current));
                    },
                }
            }
        },
        Err(e) => Err(e),
    }
}

} // verus!
