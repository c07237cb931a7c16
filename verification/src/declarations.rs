//! Declarations of style sheets and of `style` attributes, and how they are
//! merged into the declared values of an element.

use crate::css::{
    css_after_at_rule, css_colon, css_exhausted, css_ident, css_important, css_semicolon,
    css_until_semicolon, expect_colon, expect_ident, expect_semicolon, is_exhausted,
    parse_important, skip_at_rule, until_semicolon,
};
use crate::error::ValueErrorKind;
use crate::names::{Namespace, QualName, QualNameView};
use crate::parse_property::{names_property, parse_property, parsed_property};
use crate::parsed::{ParsedProperty, ParsedPropertyView};
use crate::property_id::PropertyId;
use crate::specified::{set_all, Declarations, SpecifiedValues};
use std::collections::HashSet;
use vstd::prelude::*;
use vstd::std_specs::hash::group_hash_axioms;

verus! {

/// Where a declaration comes from.
#[derive(Clone, Copy, Debug, PartialEq, Eq, Structural)]
pub enum Origin {
    /// The style sheet that the user agent brings along: its declarations
    /// are defaults.
    UserAgent,
    /// The author of the document.
    Author,
}

/// A declaration of a style sheet: a declared value, and whether it is
/// marked `!important`.
#[derive(Clone, Debug, PartialEq, Eq)]
pub struct Declaration {
    pub property: ParsedProperty,
    pub important: bool,
}

pub struct DeclarationView {
    pub property: ParsedPropertyView,
    pub important: bool,
}

impl View for Declaration {
    type V = DeclarationView;

    open spec fn view(&self) -> DeclarationView {
        DeclarationView { property: self.property@, important: self.important }
    }
}

/// The properties that an important declaration has set in the course of
/// one merge.
pub struct ImportantStyles {
    numbers: HashSet<u8>,
}

impl View for ImportantStyles {
    type V = Set<PropertyId>;

    closed spec fn view(&self) -> Set<PropertyId> {
        Set::new(|id: PropertyId| self.numbers@.contains(id.index() as u8))
    }
}

impl ImportantStyles {
    /// The empty set, with which a merge begins.
    pub fn new() -> (styles: ImportantStyles)
        ensures
            styles@ == Set::<PropertyId>::empty(),
    {
        let styles = ImportantStyles { numbers: HashSet::new() };
        assert(styles@ =~= Set::<PropertyId>::empty());
        styles
    }

    /// Tells whether an important declaration has set the property `id`.
    pub fn contains(&self, id: PropertyId) -> (r: bool)
        ensures
            r == self@.contains(id),
    {
        broadcast use group_hash_axioms;

        let number: u8 = id.as_u8();
        self.numbers.contains(&number)
    }

    /// Records that an important declaration has set the property `id`.
    pub fn insert(&mut self, id: PropertyId)
        ensures
            final(self)@ == old(self)@.insert(id),
    {
        broadcast use group_hash_axioms;

        let ghost before = self@;
        let number: u8 = id.as_u8();
        self.numbers.insert(number);
        proof {
            assert forall|other: PropertyId| self@.contains(other) <==> before.insert(id).contains(
                other,
            ) by {
                PropertyId::lemma_index_is_one_to_one(other, id);
            }
            assert(self@ =~= before.insert(id));
        }
    }
}

/// What an element declares, together with the properties that an important
/// declaration has set: the state of a merge.
pub struct Merge {
    pub store: Declarations,
    pub important: Set<PropertyId>,
}

/// Whether a declaration is dropped: it is not important, and an important
/// one has set its property before.
pub open spec fn is_overridden(important: Set<PropertyId>, declaration: DeclarationView) -> bool {
    !declaration.important && important.contains(declaration.property.id())
}

/// The state of a merge after one declaration. A declaration that is not
/// dropped is set: one of the user agent yields to what is declared
/// already, one of the author overrides it. An important declaration is
/// recorded, whatever its origin.
pub open spec fn merged(before: Merge, declaration: DeclarationView, origin: Origin) -> Merge {
    if is_overridden(before.important, declaration) {
        before
    } else {
        Merge {
            store: set_all(before.store, declaration.property, !(origin is UserAgent)),
            important: if declaration.important {
                before.important.insert(declaration.property.id())
            } else {
                before.important
            },
        }
    }
}

/// The state of a merge after the declarations, one after the other.
pub open spec fn merged_all(before: Merge, declarations: Seq<DeclarationView>, origin: Origin) -> Merge
    decreases declarations.len(),
{
    if declarations.len() == 0 {
        before
    } else {
        merged(merged_all(before, declarations.drop_last(), origin), declarations.last(), origin)
    }
}

/// The text after `!important`, if the text starts with it, and else the
/// text itself.
pub open spec fn after_important(text: Seq<char>) -> Seq<char> {
    match css_important(text) {
        Ok(after) => after,
        Err(_) => text,
    }
}

/// The declaration that is written in `text`: the name of a property, a
/// colon, a value of the property, which may be that of a shorthand, and
/// an optional `!important`, with nothing after it.
pub open spec fn parsed_declaration(text: Seq<char>) -> Result<DeclarationView, ValueErrorKind> {
    match css_ident(text) {
        Ok((name, rest)) => match css_colon(rest) {
            Ok(rest) => match parsed_property(
                QualNameView { ns: Namespace::Empty, local: name },
                rest,
                true,
            ) {
                Ok((property, rest)) => if css_exhausted(after_important(rest)) {
                    Ok(DeclarationView { property, important: css_important(rest) is Ok })
                } else {
                    Err(ValueErrorKind::UnexpectedToken)
                },
                Err(e) => Err(e),
            },
            Err(e) => Err(e),
        },
        Err(e) => Err(e),
    }
}

/// Whether `text` begins with a name and a colon, and the name is that of no
/// property.
pub open spec fn begins_with_unknown_name(text: Seq<char>) -> bool {
    css_ident(text) matches Ok((name, rest)) && css_colon(rest) is Ok && !names_property(
        QualNameView { ns: Namespace::Empty, local: name },
        true,
    )
}

/// Reads the one declaration that is written in `text`. A text that is no
/// declaration is reported as one of an unknown property if and only if a
/// name and a colon stand at its beginning and the name is that of no
/// property.
pub fn parse_declaration(text: &str) -> (r: Result<Declaration, ValueErrorKind>)
    ensures
        match r {
            Ok(declaration) => parsed_declaration(text@) == Ok::<_, ValueErrorKind>(declaration@),
            Err(e) => parsed_declaration(text@) == Err::<DeclarationView, _>(e),
        },
        begins_with_unknown_name(text@) <==> (r matches Err(e) && e is UnknownProperty),
{
    match expect_ident(text) {
        Ok((name, rest)) => match expect_colon(rest) {
            Ok(rest) => {
                let name = QualName { ns: Namespace::Empty, local: name };
                match parse_property(&name, rest, true) {
                    Ok((property, rest)) => {
                        let (important, rest) = match parse_important(rest) {
                            Ok(after) => (true, after),
                            Err(_) => (false, rest),
                        };
                        if is_exhausted(rest) {
                            Ok(Declaration { property, important })
                        } else {
                            Err(ValueErrorKind::UnexpectedToken)
                        }
                    },
                    Err(e) => Err(e),
                }
            },
            Err(e) => Err(e),
        },
        Err(e) => Err(e),
    }
}

/// What is wrong with an at-rule in a list of declarations: there is none
/// that is known here, so that its keyword is a token out of place.
pub open spec fn at_rule_error() -> Result<DeclarationView, ValueErrorKind> {
    Err(ValueErrorKind::UnexpectedToken)
}

/// The items of a list of declarations: what is written between its
/// semicolons, without the stretches that hold no token. An item is a
/// declaration, or what is wrong with it. An item that begins with an
/// at-keyword ends with the first semicolon or with the first block in
/// curly brackets, and is never a declaration.
pub open spec fn parsed_items(text: Seq<char>) -> Seq<Result<DeclarationView, ValueErrorKind>>
    decreases text.len(),
{
    match css_after_at_rule(text) {
        Some(after) => if after.len() < text.len() {
            seq![at_rule_error()] + parsed_items(after)
        } else {
            seq![at_rule_error()]
        },
        None => {
            let (item, rest) = css_until_semicolon(text);
            let first = if css_exhausted(item) {
                Seq::empty()
            } else {
                seq![parsed_declaration(item)]
            };
            match css_semicolon(rest) {
                Ok(after) => if after.len() < text.len() {
                    first + parsed_items(after)
                } else {
                    first
                },
                Err(_) => first,
            }
        },
    }
}

/// The declarations among the items of a list.
pub open spec fn declarations_among(
    items: Seq<Result<DeclarationView, ValueErrorKind>>,
) -> Seq<DeclarationView>
    decreases items.len(),
{
    if items.len() == 0 {
        Seq::empty()
    } else {
        match items.last() {
            Ok(declaration) => declarations_among(items.drop_last()).push(declaration),
            Err(_) => declarations_among(items.drop_last()),
        }
    }
}

/// What is wrong with the items of a list that are no declarations.
pub open spec fn errors_among(items: Seq<Result<DeclarationView, ValueErrorKind>>) -> Seq<
    ValueErrorKind,
>
    decreases items.len(),
{
    if items.len() == 0 {
        Seq::empty()
    } else {
        match items.last() {
            Ok(_) => errors_among(items.drop_last()),
            Err(e) => errors_among(items.drop_last()).push(e),
        }
    }
}

/// The items of a list with one more at their end.
proof fn lemma_among_push(
    items: Seq<Result<DeclarationView, ValueErrorKind>>,
    item: Result<DeclarationView, ValueErrorKind>,
)
    ensures
        declarations_among(items.push(item)) == match item {
            Ok(declaration) => declarations_among(items).push(declaration),
            Err(_) => declarations_among(items),
        },
        errors_among(items.push(item)) == match item {
            Ok(_) => errors_among(items),
            Err(e) => errors_among(items).push(e),
        },
{
    assert(items.push(item).drop_last() == items);
}

impl SpecifiedValues {
    /// Merges one declaration of a style sheet into the declared values.
    pub fn set_property_from_declaration(
        &mut self,
        declaration: &Declaration,
        origin: Origin,
        important_styles: &mut ImportantStyles,
    )
        requires
            old(self).wf(),
        ensures
            final(self).wf(),
            (Merge { store: final(self)@, important: final(important_styles)@ }) == merged(
                Merge { store: old(self)@, important: old(important_styles)@ },
                declaration@,
                origin,
            ),
    {
        let id = declaration.property.get_property_id();
        if !declaration.important && important_styles.contains(id) {
            return ;
        }
        if declaration.important {
            important_styles.insert(id);
        }
        match origin {
            Origin::UserAgent => self.set_parsed_property_user_agent(&declaration.property),
            Origin::Author => self.set_parsed_property(&declaration.property),
        }
    }

    /// Merges the declarations of a list into the declared values, in their
    /// order. An item of the list that is no declaration, an at-rule among
    /// them, is passed over, and what is wrong with it is returned. This is
    /// never a failure.
    pub fn parse_style_declarations(
        &mut self,
        declarations: &str,
        origin: Origin,
        important_styles: &mut ImportantStyles,
    ) -> (errors: Vec<ValueErrorKind>)
        requires
            old(self).wf(),
        ensures
            final(self).wf(),
            (Merge { store: final(self)@, important: final(important_styles)@ }) == merged_all(
                Merge { store: old(self)@, important: old(important_styles)@ },
                declarations_among(parsed_items(declarations@)),
                origin,
            ),
            errors@ == errors_among(parsed_items(declarations@)),
    {
        let mut errors: Vec<ValueErrorKind> = Vec::new();
        let mut current: &str = declarations;
        let ghost start = Merge { store: self@, important: important_styles@ };
        let ghost mut done: Seq<Result<DeclarationView, ValueErrorKind>> = Seq::empty();
        assert(done + parsed_items(current@) == parsed_items(declarations@));
        loop
            invariant
                self.wf(),
                start == (Merge { store: old(self)@, important: old(important_styles)@ }),
                current@.len() <= declarations@.len(),
                done + parsed_items(current@) == parsed_items(declarations@),
                (Merge { store: self@, important: important_styles@ }) == merged_all(
                    start,
                    declarations_among(done),
                    origin,
                ),
                errors@ == errors_among(done),
            decreases current@.len(),
        {
            if let Some(after) = skip_at_rule(current) {
                proof {
                    lemma_among_push(done, at_rule_error());
                    assert(parsed_items(current@) == seq![at_rule_error()] + parsed_items(after@));
                    assert((done + seq![at_rule_error()]) + parsed_items(after@) == done + (
                    seq![at_rule_error()] + parsed_items(after@)));
                    assert(done.push(at_rule_error()) == done + seq![at_rule_error()]);
                    done = done.push(at_rule_error());
                }
                errors.push(ValueErrorKind::UnexpectedToken);
                current = after;
                continue ;
            }
            let (item, rest) = until_semicolon(current);
            if !is_exhausted(item) {
                let parsed = parse_declaration(item);
                let ghost earlier = declarations_among(done);
                proof {
                    lemma_among_push(done, parsed_declaration(item@));
                    done = done.push(parsed_declaration(item@));
                }
                match parsed {
                    Ok(declaration) => {
                        assert(declarations_among(done) == earlier.push(declaration@));
                        assert(earlier.push(declaration@).drop_last() == earlier);
                        self.set_property_from_declaration(&declaration, origin, important_styles);
                    },
                    Err(e) => {
                        errors.push(e);
                    },
                }
            }
            match expect_semicolon(rest) {
                Ok(after) => {
                    assert(done + parsed_items(after@) == parsed_items(declarations@)) by {
                        let first = if css_exhausted(item@) {
                            Seq::empty()
                        } else {
                            seq![parsed_declaration(item@)]
                        };
                        assert(parsed_items(current@) == first + parsed_items(after@));
                        if css_exhausted(item@) {
                            assert(first + parsed_items(after@) == parsed_items(after@));
                        } else {
                            let before = done.drop_last();
                            assert(done == before + first);
                            assert((before + first) + parsed_items(after@) == before + (first
                                + parsed_items(after@)));
                        }
                    }
                    current = after;
                },
                Err(_) => {
                    assert(done == parsed_items(declarations@)) by {
                        let first = if css_exhausted(item@) {
                            Seq::empty()
                        } else {
                            seq![parsed_declaration(item@)]
                        };
                        assert(parsed_items(current@) == first);
                        if css_exhausted(item@) {
                            assert(done + first == done);
                        } else {
                            let before = done.drop_last();
                            assert(done == before + first);
                        }
                    }
                    return errors;
                },
            }
        }
    }
}

} // verus!
