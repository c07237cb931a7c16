//! Presentation attributes: properties that are written as attributes of an
//! element.

use crate::css::is_exhausted;
use crate::error::ValueErrorKind;
use crate::names::{Namespace, QualName, QualNameView};
use crate::parse_property::{names_property, parse_property, parsed_property};
use crate::parsed::{ParsedProperty, ParsedPropertyView};
use crate::parsers::{entire, value_view, Parse};
use crate::property::SpecifiedValue;
use crate::property_defs::{XmlLang, XmlSpace};
use crate::specified::{set_all, Declarations, SpecifiedValues};
use crate::text::eq_str;
use vstd::prelude::*;

verus! {

/// An attribute of an element: its name and the text of its value.
#[derive(Clone, Debug, PartialEq, Eq)]
pub struct Attribute {
    pub name: QualName,
    pub value: String,
}

pub struct AttributeView {
    pub name: QualNameView,
    pub value: Seq<char>,
}

impl View for Attribute {
    type V = AttributeView;

    open spec fn view(&self) -> AttributeView {
        AttributeView { name: self.name@, value: self.value@ }
    }
}

impl Attribute {
    pub fn new(name: QualName, value: &str) -> (attribute: Attribute)
        ensures
            attribute@ == (AttributeView { name: name@, value: value@ }),
    {
        Attribute { name, value: value.to_owned() }
    }
}

/// An attribute that was left out of account because its value is not one
/// of its property.
#[derive(Clone, Copy, Debug, PartialEq, Eq, Structural)]
pub struct Ignored {
    /// The place of the attribute among those of the element.
    pub index: usize,
    /// What is wrong with the value.
    pub error: ValueErrorKind,
}

/// The declaration that a presentation attribute makes: the value of the
/// property that the attribute names, which takes up the whole text. The
/// shorthand is no presentation attribute.
pub open spec fn presentation(name: QualNameView, value: Seq<char>) -> Result<
    ParsedPropertyView,
    ValueErrorKind,
> {
    entire(parsed_property(name, value, false))
}

/// The declaration that an attribute makes. The two attributes `lang` and
/// `space` of the `xml` namespace are no properties: their values are not
/// written as those of properties are, and cannot be `inherit`. The first
/// takes any text, the second one of its two keywords.
pub open spec fn attribute_declaration(attribute: AttributeView) -> Result<
    ParsedPropertyView,
    ValueErrorKind,
> {
    if attribute.name.ns is Xml && attribute.name.local == "lang"@ {
        Ok(ParsedPropertyView::XmlLang(SpecifiedValue::Specified(attribute.value)))
    } else if attribute.name.ns is Xml && attribute.name.local == "space"@ {
        match entire(XmlSpace::parsed(attribute.value)) {
            Ok(space) => Ok(ParsedPropertyView::XmlSpace(SpecifiedValue::Specified(space))),
            Err(e) => Err(e),
        }
    } else {
        presentation(attribute.name, attribute.value)
    }
}

/// The declarations `store` after an attribute is taken into account: what
/// it declares is set, over what was declared before; an attribute that
/// declares nothing changes nothing.
pub open spec fn with_attribute(store: Declarations, attribute: AttributeView) -> Declarations {
    match attribute_declaration(attribute) {
        Ok(prop) => set_all(store, prop, true),
        Err(_) => store,
    }
}

/// The declarations `store` after the attributes are taken into account,
/// one after the other.
pub open spec fn with_attributes(store: Declarations, attributes: Seq<Attribute>) -> Declarations
    decreases attributes.len(),
{
    if attributes.len() == 0 {
        store
    } else {
        with_attribute(with_attributes(store, attributes.drop_last()), attributes.last()@)
    }
}

/// Whether an attribute is reported: it names a property, or is one of the
/// two of the `xml` namespace, and its value is not one of that property.
pub open spec fn is_ignored(attribute: AttributeView) -> bool {
    attribute_declaration(attribute) matches Err(e) && !(e is UnknownProperty)
}

/// The reports on the attributes: one for each that is ignored, in their
/// order.
pub open spec fn ignored_among(attributes: Seq<Attribute>) -> Seq<Ignored>
    decreases attributes.len(),
{
    if attributes.len() == 0 {
        Seq::empty()
    } else if is_ignored(attributes.last()@) {
        ignored_among(attributes.drop_last()).push(
            Ignored {
                index: (attributes.len() - 1) as usize,
                error: attribute_declaration(attributes.last()@)->Err_0,
            },
        )
    } else {
        ignored_among(attributes.drop_last())
    }
}

/// Whether `name` is that of an attribute that declares a property: a
/// presentation attribute, or one of the two of the `xml` namespace.
pub open spec fn declares_property(name: QualNameView) -> bool {
    ||| name.ns is Xml && (name.local == "lang"@ || name.local == "space"@)
    ||| names_property(name, false)
}

/// Reads the declaration that a presentation attribute makes. The result is
/// that the property is unknown if and only if the name is that of no
/// presentation attribute.
pub fn read_presentation(attr: &QualName, value: &str) -> (r: Result<ParsedProperty, ValueErrorKind>)
    ensures
        value_view(r) == presentation(attr@, value@),
        names_property(attr@, false) <==> !(r matches Err(e) && e is UnknownProperty),
{
    // A presentation attribute is never a shorthand: there is no attribute
    // `marker`, it has to be set in a style declaration.
    match parse_property(attr, value, false) {
        Ok((prop, rest)) => {
            if is_exhausted(rest) {
                Ok(prop)
            } else {
                Err(ValueErrorKind::UnexpectedToken)
            }
        },
        Err(e) => Err(e),
    }
}

/// Reads the declaration that an attribute makes. The result is that the
/// property is unknown if and only if the attribute is none that declares a
/// property.
pub fn read_attribute(attribute: &Attribute) -> (r: Result<ParsedProperty, ValueErrorKind>)
    ensures
        value_view(r) == attribute_declaration(attribute@),
        declares_property(attribute@.name) <==> !(r matches Err(e) && e is UnknownProperty),
{
    match attribute.name.ns {
        Namespace::Xml => {
            if eq_str(attribute.name.local.as_str(), "lang") {
                let lang = XmlLang::from_text(attribute.value.as_str());
                return Ok(ParsedProperty::XmlLang(SpecifiedValue::Specified(lang)));
            }
            if eq_str(attribute.name.local.as_str(), "space") {
                return match XmlSpace::parse_str(attribute.value.as_str()) {
                    Ok(space) => Ok(ParsedProperty::XmlSpace(SpecifiedValue::Specified(space))),
                    Err(e) => Err(e),
                };
            }
        },
        _ => {},
    }
    read_presentation(&attribute.name, attribute.value.as_str())
}

/// The report that is made of a declaration that was read: none of a
/// declaration, none of a name that is that of no property, and what is
/// wrong with the value otherwise.
pub open spec fn report_of<T>(declaration: Result<T, ValueErrorKind>) -> Option<ValueErrorKind> {
    match declaration {
        Ok(_) => None,
        Err(e) => if e is UnknownProperty {
            None
        } else {
            Some(e)
        },
    }
}

impl SpecifiedValues {
    /// Sets what an attribute declares, if it declares anything, and returns
    /// the report that is to be made of it. An attribute that names no
    /// property is passed over. One whose value is not one of its property
    /// changes nothing either, and what is wrong with the value is the
    /// report.
    fn set_declared(&mut self, declaration: Result<ParsedProperty, ValueErrorKind>) -> (r: Option<
        ValueErrorKind,
    >)
        requires
            old(self).wf(),
        ensures
            final(self).wf(),
            r == report_of(declaration),
            match declaration {
                Ok(prop) => final(self)@ == set_all(old(self)@, prop@, true),
                Err(_) => final(self)@ == old(self)@,
            },
    {
        match declaration {
            Ok(prop) => {
                self.set_parsed_property(&prop);
                None
            },
            // not a property; just ignore it
            Err(ValueErrorKind::UnknownProperty) => None,
            // an illegal value does not put the whole element in error
            Err(e) => Some(e),
        }
    }

    /// Takes a presentation attribute into account. This never fails: the
    /// first component of the result is `Ok` whatever the name and the value
    /// are. An attribute that names no property is passed over. One that
    /// names a property and whose value is not one of that property changes
    /// nothing either, and what is wrong with the value is handed back as
    /// the second component, for a diagnostic to be made of it.
    pub fn parse_one_presentation_attribute(&mut self, attr: &QualName, value: &str) -> (r: (
        Result<(), ValueErrorKind>,
        Option<ValueErrorKind>,
    ))
        requires
            old(self).wf(),
        ensures
            final(self).wf(),
            r.0 is Ok,
            r.1 == report_of(presentation(attr@, value@)),
            match presentation(attr@, value@) {
                Ok(prop) => final(self)@ == set_all(old(self)@, prop, true),
                Err(_) => final(self)@ == old(self)@,
            },
            names_property(attr@, false) ==> (r.1 is None <==> presentation(attr@, value@) is Ok),
            !names_property(attr@, false) ==> r.1 is None && presentation(attr@, value@) is Err,
    {
        let report = self.set_declared(read_presentation(attr, value));
        (Ok(()), report)
    }

    /// Takes the attributes of an element into account, in their order, and
    /// returns a report on each that was ignored for its value: on each that
    /// declares a property and whose value is not one of it, and on no
    /// other.
    pub fn parse_presentation_attributes(&mut self, pbag: &Vec<Attribute>) -> (ignored: Vec<Ignored>)
        requires
            old(self).wf(),
        ensures
            final(self).wf(),
            final(self)@ == with_attributes(old(self)@, pbag@),
            ignored@ == ignored_among(pbag@),
            forall|i: int|
                0 <= i < pbag@.len() ==> (is_ignored(#[trigger] pbag@[i]@) <==> declares_property(
                    pbag@[i]@.name,
                ) && attribute_declaration(pbag@[i]@) is Err),
    {
        let mut ignored: Vec<Ignored> = Vec::new();
        let mut i: usize = 0;
        assert(pbag@.subrange(0, 0).len() == 0);
        while i < pbag.len()
            invariant
                i <= pbag.len(),
                self.wf(),
                self@ == with_attributes(old(self)@, pbag@.subrange(0, i as int)),
                ignored@ == ignored_among(pbag@.subrange(0, i as int)),
                forall|j: int|
                    0 <= j < i ==> (is_ignored(#[trigger] pbag@[j]@) <==> declares_property(
                        pbag@[j]@.name,
                    ) && attribute_declaration(pbag@[j]@) is Err),
            decreases pbag.len() - i,
        {
            let ghost so_far = pbag@.subrange(0, i as int);
            let ghost next = pbag@.subrange(0, i + 1);
            assert(next.drop_last() == so_far);
            assert(next.last() == pbag@[i as int]);
            match self.set_declared(read_attribute(&pbag[i])) {
                None => {},
                Some(error) => {
                    ignored.push(Ignored { index: i, error });
                },
            }
            i += 1;
        }
        assert(pbag@.subrange(0, pbag.len() as int) == pbag@);
        ignored
    }
}

} // verus!
