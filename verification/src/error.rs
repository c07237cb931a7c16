//! Why a property value was not read.

use vstd::prelude::*;

verus! {

/// The ways in which reading a property from text fails.
#[derive(Clone, Copy, Debug, PartialEq, Eq, Structural)]
pub enum ValueErrorKind {
    /// The name is not that of a property.
    UnknownProperty,
    /// A token stands where the property's grammar has no use for it.
    UnexpectedToken,
    /// The text ends where the grammar asks for more.
    EndOfInput,
    /// The text follows the grammar, and the value it denotes is not one
    /// that the property accepts.
    Value,
}

} // verus!
