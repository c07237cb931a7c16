//! What all property kinds have in common, and the three states of a
//! declared value.

use crate::computed::{ComputedValues, ComputedValuesView};
use crate::css::read_view;
use crate::error::ValueErrorKind;
use crate::parsers::{after_word, expect_word, starts_with_word, Parse};
use vstd::prelude::*;

verus! {

/// A kind of property. Its values have a type, it is inherited from the
/// parent element or not where an element declares nothing, it has an
/// initial value, and a value of it may need other computed values of the
/// same element to be finished.
pub trait Property: View + Sized {
    /// Whether an element that declares no value takes that of its parent.
    spec fn inherits() -> bool;

    /// The value of an element that neither declares nor inherits one.
    spec fn initial_view() -> Self::V;

    /// The value `v` as it is computed for an element whose computed values
    /// are, so far, `values`.
    spec fn compute_view(v: Self::V, values: ComputedValuesView) -> Self::V;

    fn inherits_automatically() -> (b: bool)
        ensures
            b == Self::inherits(),
    ;

    fn initial() -> (d: Self)
        ensures
            d@ == Self::initial_view(),
    ;

    fn compute(&self, values: &ComputedValues) -> (r: Self)
        ensures
            r@ == Self::compute_view(self@, values@),
    ;

    fn duplicate(&self) -> (r: Self)
        ensures
            r@ == self@,
    ;
}

/// A declared value of a property.
///
/// `Unspecified` says that no declaration applies. `Inherit` asks for the
/// value of the parent element, whatever the kind of the property.
/// `Specified` holds a value that a declaration gave.
#[derive(Clone, Debug, PartialEq, Eq)]
pub enum SpecifiedValue<T> {
    Unspecified,
    Inherit,
    Specified(T),
}

impl<T: View> View for SpecifiedValue<T> {
    type V = SpecifiedValue<T::V>;

    open spec fn view(&self) -> SpecifiedValue<T::V> {
        match *self {
            SpecifiedValue::Unspecified => SpecifiedValue::Unspecified,
            SpecifiedValue::Inherit => SpecifiedValue::Inherit,
            SpecifiedValue::Specified(v) => SpecifiedValue::Specified(v@),
        }
    }
}

impl<T> Default for SpecifiedValue<T> {
    fn default() -> (s: SpecifiedValue<T>)
        ensures
            s is Unspecified,
    {
        SpecifiedValue::Unspecified
    }
}

/// The value that a declared value `s` of kind `T` resolves to, before it is
/// finished: `src` is the value of the parent element.
pub open spec fn resolved_value<T: Property>(s: SpecifiedValue<T::V>, src: T::V) -> T::V {
    match s {
        SpecifiedValue::Unspecified => if T::inherits() {
            src
        } else {
            T::initial_view()
        },
        SpecifiedValue::Inherit => src,
        SpecifiedValue::Specified(v) => v,
    }
}

/// The computed value of kind `T` of an element that declares `s`, whose
/// parent has the value `src`, and whose computed values are, so far,
/// `values`.
pub open spec fn computed_value<T: Property>(
    s: SpecifiedValue<T::V>,
    src: T::V,
    values: ComputedValuesView,
) -> T::V {
    T::compute_view(resolved_value::<T>(s, src), values)
}

/// What reading a declared value of kind `T` from the start of `text`
/// gives: `inherit`, or a value of the kind.
pub open spec fn parsed_input<T: Parse>(text: Seq<char>) -> Result<
    (SpecifiedValue<T::V>, Seq<char>),
    ValueErrorKind,
> {
    if starts_with_word(text, "inherit"@) {
        Ok((SpecifiedValue::Inherit, after_word(text)))
    } else {
        match T::parsed(text) {
            Ok((v, rest)) => Ok((SpecifiedValue::Specified(v), rest)),
            Err(e) => Err(e),
        }
    }
}

/// Reads a declared value of kind `T` from the start of `text`, `inherit`
/// included.
pub fn parse_input<'a, T: Parse>(text: &'a str) -> (r: Result<
    (SpecifiedValue<T>, &'a str),
    ValueErrorKind,
>)
    ensures
        read_view(r) == parsed_input::<T>(text@),
        r matches Ok((_, rest)) ==> rest@.len() < text@.len(),
        r matches Err(e) ==> !(e is UnknownProperty),
{
    if let Some(rest) = expect_word(text, "inherit") {
        return Ok((SpecifiedValue::Inherit, rest));
    }
    match T::parse(text) {
        Ok((v, rest)) => Ok((SpecifiedValue::Specified(v), rest)),
        Err(e) => Err(e),
    }
}

impl<T: Property> SpecifiedValue<T> {
    /// Resolves this declared value against the parent's value `src` and
    /// finishes it against the computed values `src_values`.
    pub fn compute(&self, src: &T, src_values: &ComputedValues) -> (r: T)
        ensures
            r@ == computed_value::<T>(self@, src@, src_values@),
    {
        let value: T = match self {
            SpecifiedValue::Unspecified => {
                if T::inherits_automatically() {
                    src.duplicate()
                } else {
                    T::initial()
                }
            },
            SpecifiedValue::Inherit => src.duplicate(),
            SpecifiedValue::Specified(v) => v.duplicate(),
        };
        value.compute(src_values)
    }

    pub fn duplicate(&self) -> (r: SpecifiedValue<T>)
        ensures
            r@ == self@,
    {
        match self {
            SpecifiedValue::Unspecified => SpecifiedValue::Unspecified,
            SpecifiedValue::Inherit => SpecifiedValue::Inherit,
            SpecifiedValue::Specified(v) => SpecifiedValue::Specified(v.duplicate()),
        }
    }
}

} // verus!
