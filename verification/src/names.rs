//! Names of attributes and properties.

use vstd::prelude::*;

verus! {

/// The namespaces that a name of interest to this crate can be in.
#[derive(Clone, Copy, Debug, PartialEq, Eq, Structural)]
pub enum Namespace {
    /// The empty namespace, in which the properties are.
    Empty,
    /// The `xml` namespace.
    Xml,
    /// Any other namespace.
    Other,
}

/// A name with its namespace.
#[derive(Clone, Debug, PartialEq, Eq)]
pub struct QualName {
    pub ns: Namespace,
    pub local: String,
}

pub struct QualNameView {
    pub ns: Namespace,
    pub local: Seq<char>,
}

impl View for QualName {
    type V = QualNameView;

    open spec fn view(&self) -> QualNameView {
        QualNameView { ns: self.ns, local: self.local@ }
    }
}

impl QualName {
    pub fn new(ns: Namespace, local: &str) -> (name: QualName)
        ensures
            name@ == (QualNameView { ns, local: local@ }),
    {
        QualName { ns, local: local.to_owned() }
    }
}

} // verus!
