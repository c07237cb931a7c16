//! What holds of the cascade and of the merging of declarations, whatever an
//! element declares.

use crate::apply_laws::{applies_well, is_settled, lemma_applies_well};
use crate::cascade::{cascade, cascade_through, lemma_turns, turn, CASCADE_ORDER, LONGHAND_COUNT};
use crate::computed::ComputedValuesView;
use crate::declarations::{merged, DeclarationView, Merge, Origin};
use crate::parsed::ParsedPropertyView;
use crate::property::SpecifiedValue;
use crate::property_id::PropertyId;
use crate::specified::{
    declared, declares, is_at, lemma_position, position, set_all, set_one, valid_declarations,
    Declarations,
};
use vstd::prelude::*;

verus! {

/// In valid declarations, what is declared of a property is a declaration
/// of that property.
pub proof fn lemma_declared_id(store: Declarations, id: PropertyId)
    requires
        valid_declarations(store),
        id.is_longhand(),
    ensures
        declared(store, id).id() == id,
{
    if declares(store, id) {
        assert(is_at(store, id, position(store, id)));
    }
}

/// Up to its turn in the order, a property has the value of the parent.
proof fn lemma_before_its_turn(
    store: Declarations,
    parent: ComputedValuesView,
    id: PropertyId,
    n: nat,
)
    requires
        valid_declarations(store),
        id.is_longhand(),
        n <= turn(id),
    ensures
        cascade_through(store, parent, n).get(id) == parent.get(id),
    decreases n,
{
    if n > 0 {
        let earlier = CASCADE_ORDER@[n - 1];
        lemma_turns(id, n - 1);
        lemma_turns(earlier, n - 1);
        lemma_declared_id(store, earlier);
        lemma_before_its_turn(store, parent, id, (n - 1) as nat);
        lemma_applies_well(
            declared(store, earlier),
            cascade_through(store, parent, (n - 1) as nat),
        );
    }
}

/// After its turn in the order, the value of a property stays.
proof fn lemma_after_its_turn(
    store: Declarations,
    parent: ComputedValuesView,
    id: PropertyId,
    n: nat,
)
    requires
        valid_declarations(store),
        id.is_longhand(),
        turn(id) < n <= LONGHAND_COUNT,
    ensures
        cascade_through(store, parent, n).get(id) == cascade_through(
            store,
            parent,
            (turn(id) + 1) as nat,
        ).get(id),
    decreases n,
{
    if n > turn(id) + 1 {
        let later = CASCADE_ORDER@[n - 1];
        lemma_turns(id, n - 1);
        lemma_turns(later, n - 1);
        lemma_declared_id(store, later);
        lemma_after_its_turn(store, parent, id, (n - 1) as nat);
        lemma_applies_well(declared(store, later), cascade_through(store, parent, (n - 1) as nat));
    }
}

/// The values of the parent with the font size replaced by `font_size`.
pub open spec fn with_font_size(
    parent: ComputedValuesView,
    font_size: crate::property_defs::FontSize,
) -> ComputedValuesView {
    ComputedValuesView { font_size, ..parent }
}

/// The font size of an element is computed first, against the values of the
/// parent alone. The value of every other property is computed as if
/// nothing but the font size of the element had been computed before it:
/// from the value that the parent has of the property, and against the
/// computed font size of the element, not that of the parent.
pub proof fn lemma_font_size_comes_first(
    store: Declarations,
    parent: ComputedValuesView,
    id: PropertyId,
)
    requires
        valid_declarations(store),
        id.is_longhand(),
    ensures
        CASCADE_ORDER@[0] == PropertyId::FontSize,
        cascade(store, parent).font_size == declared(store, PropertyId::FontSize).apply(
            parent,
        ).font_size,
        !(id is FontSize) ==> cascade(store, parent).get(id) == declared(store, id).apply(
            with_font_size(parent, cascade(store, parent).font_size),
        ).get(id),
{
    let font_size = PropertyId::FontSize;
    lemma_turns(id, 0);
    lemma_after_its_turn(store, parent, font_size, LONGHAND_COUNT as nat);
    assert(cascade_through(store, parent, 1) == declared(store, font_size).apply(
        cascade_through(store, parent, 0),
    ));
    if !(id is FontSize) {
        let k = turn(id) as nat;
        let before = cascade_through(store, parent, k);
        let given = with_font_size(parent, cascade(store, parent).font_size);
        lemma_after_its_turn(store, parent, id, LONGHAND_COUNT as nat);
        lemma_before_its_turn(store, parent, id, k);
        lemma_after_its_turn(store, parent, font_size, k);
        lemma_declared_id(store, id);
        lemma_applies_well(declared(store, id), given);
        assert(before.get(id) == given.get(id));
        assert(before.font_size == given.font_size);
    }
}

/// What is known of the computed value of one property: it is what the
/// declaration of the property gives on top of the values of the parent,
/// with the font size of the element in the place of that of the parent
/// where the property is not the font size itself.
proof fn lemma_computed_at(store: Declarations, parent: ComputedValuesView, id: PropertyId)
    requires
        valid_declarations(store),
        id.is_longhand(),
    ensures
        applies_well(
            declared(store, id),
            with_font_size(parent, cascade(store, parent).font_size),
        ),
        applies_well(declared(store, id), parent),
        declared(store, id).id() == id,
        with_font_size(parent, cascade(store, parent).font_size).get(id) == if id is FontSize {
            cascade(store, parent).get(id)
        } else {
            parent.get(id)
        },
        cascade(store, parent).get(id) == if id is FontSize {
            declared(store, id).apply(parent).get(id)
        } else {
            declared(store, id).apply(
                with_font_size(parent, cascade(store, parent).font_size),
            ).get(id)
        },
{
    lemma_font_size_comes_first(store, parent, id);
    lemma_declared_id(store, id);
    lemma_applies_well(
        declared(store, id),
        with_font_size(parent, cascade(store, parent).font_size),
    );
    lemma_applies_well(declared(store, id), parent);
}

/// An element that declares nothing of a property that is not inherited
/// has the initial value of the property, whatever value its parent has.
pub proof fn lemma_not_inherited_is_initial(
    store: Declarations,
    parent: ComputedValuesView,
    id: PropertyId,
)
    requires
        valid_declarations(store),
        id.is_longhand(),
        !id.inherits_automatically(),
        declared(store, id).state() is Unspecified,
    ensures
        cascade(store, parent).get(id) == ComputedValuesView::initial().get(id),
{
    lemma_computed_at(store, parent, id);
}

/// An element that declares `inherit` of a property has the value that its
/// parent has, whether the property is inherited or not, provided that the
/// value of the parent is settled.
pub proof fn lemma_inherit_is_parents(
    store: Declarations,
    parent: ComputedValuesView,
    id: PropertyId,
)
    requires
        valid_declarations(store),
        is_settled(parent, id),
        id.is_longhand(),
        declared(store, id).state() is Inherit,
    ensures
        cascade(store, parent).get(id) == parent.get(id),
{
    lemma_computed_at(store, parent, id);
}

/// An element that declares nothing of a property that is inherited has the
/// value that its parent has, provided that the value of the parent is
/// settled.
pub proof fn lemma_inherited_is_parents(
    store: Declarations,
    parent: ComputedValuesView,
    id: PropertyId,
)
    requires
        valid_declarations(store),
        is_settled(parent, id),
        id.is_longhand(),
        id.inherits_automatically(),
        declared(store, id).state() is Unspecified,
    ensures
        cascade(store, parent).get(id) == parent.get(id),
{
    lemma_computed_at(store, parent, id);
}

/// An element that specifies a value of a property has that value, but for
/// the font size and the baseline shift, which are finished against a font
/// size.
pub proof fn lemma_specified_is_computed(
    store: Declarations,
    parent: ComputedValuesView,
    id: PropertyId,
)
    requires
        valid_declarations(store),
        id.is_longhand(),
        !(id is FontSize),
        !(id is BaselineShift),
        declared(store, id).state() is Specified,
    ensures
        cascade(store, parent).get(id) == declared(store, id),
{
    lemma_computed_at(store, parent, id);
}

/// The values that a cascade computes on top of values as a cascade leaves
/// them are such values again.
pub proof fn lemma_cascade_resolves(store: Declarations, parent: ComputedValuesView)
    requires
        valid_declarations(store),
        parent.is_resolved(),
    ensures
        cascade(store, parent).is_resolved(),
{
    let computed = cascade(store, parent);
    lemma_font_size_comes_first(store, parent, PropertyId::FontSize);
    lemma_font_size_comes_first(store, parent, PropertyId::BaselineShift);
    lemma_declared_id(store, PropertyId::FontSize);
    lemma_declared_id(store, PropertyId::BaselineShift);
    reveal(ParsedPropertyView::apply);
    assert(computed.font_size.0 is Value);
    assert(!computed.font_size.size().unit.is_relative());
    assert(computed.get(PropertyId::BaselineShift) == ParsedPropertyView::BaselineShift(
        SpecifiedValue::Specified(computed.baseline_shift),
    ));
}

/// What setting one declaration of a property that is no shorthand does to
/// valid declarations. They stay valid. A declaration of the property that
/// was there is replaced in its place if the new one overrides, and stays
/// if it yields; the declarations of the other properties stay in their
/// places. A declaration of a property that was not declared comes after
/// all the others.
pub proof fn lemma_set_one(store: Declarations, prop: ParsedPropertyView, replace: bool)
    requires
        valid_declarations(store),
        prop.id().is_longhand(),
    ensures
        valid_declarations(set_one(store, prop, replace)),
        declares(set_one(store, prop, replace), prop.id()),
        forall|id: PropertyId|
            id != prop.id() ==> (#[trigger] declares(set_one(store, prop, replace), id)
                <==> declares(store, id)),
        forall|i: int|
            0 <= i < store.len() ==> #[trigger] set_one(store, prop, replace)[i] == if store[i].id()
                == prop.id() && replace {
                prop
            } else {
                store[i]
            },
        declares(store, prop.id()) ==> set_one(store, prop, replace).len() == store.len(),
        !declares(store, prop.id()) ==> set_one(store, prop, replace) == store.push(prop),
{
    let after = set_one(store, prop, replace);
    let own = prop.id();
    if declares(store, own) {
        let k = position(store, own);
        assert(is_at(store, own, k));
        assert(is_at(after, own, k));
        lemma_position(store, own, k);
        assert forall|i: int| 0 <= i < store.len() implies #[trigger] after[i] == if store[i].id()
            == own && replace {
            prop
        } else {
            store[i]
        } by {
            if store[i].id() == own {
                lemma_position(store, own, i);
            }
        }
        assert forall|i: int, j: int| 0 <= i < j < after.len() implies (#[trigger] after[i]).id() != (
        #[trigger] after[j]).id() by {
            assert(store[i].id() != store[j].id());
        }
    } else {
        let k = store.len() as int;
        assert(is_at(after, own, k));
        assert forall|i: int, j: int| 0 <= i < j < after.len() implies (#[trigger] after[i]).id() != (
        #[trigger] after[j]).id() by {
            if j < k {
                assert(store[i].id() != store[j].id());
            } else {
                assert(!is_at(store, own, i));
            }
        }
    }
    assert forall|id: PropertyId| id != own implies (#[trigger] declares(after, id) <==> declares(
        store,
        id,
    )) by {
        if declares(store, id) {
            let i = position(store, id);
            assert(is_at(store, id, i));
            assert(is_at(after, id, i));
        }
        if declares(after, id) {
            let i = position(after, id);
            assert(is_at(after, id, i));
            assert(is_at(store, id, i));
        }
    }
}

/// A declaration of a property that is declared already, at the place `i`:
/// if it overrides, it stands at the place `i` afterwards, and everything
/// else is as it was, the number of the declarations too; if it yields,
/// nothing changes at all.
pub proof fn lemma_set_in_place(store: Declarations, prop: ParsedPropertyView, i: int)
    requires
        valid_declarations(store),
        prop.id().is_longhand(),
        is_at(store, prop.id(), i),
    ensures
        set_one(store, prop, true) == store.update(i, prop),
        set_one(store, prop, true).len() == store.len(),
        set_one(store, prop, true)[i] == prop,
        forall|j: int| 0 <= j < store.len() && j != i ==> set_one(store, prop, true)[j] == store[j],
        set_one(store, prop, false) == store,
{
    lemma_position(store, prop.id(), i);
}

/// A declaration of a property that is not declared yet comes after all the
/// others, which stay as they are, whether it overrides or yields.
pub proof fn lemma_set_at_the_end(store: Declarations, prop: ParsedPropertyView, replace: bool)
    requires
        !declares(store, prop.id()),
    ensures
        set_one(store, prop, replace) == store.push(prop),
{
}

/// What is declared of the properties after one declaration of a property
/// that is no shorthand is set: of its own property, the new declaration,
/// unless it yields to an earlier one; of the others, what was declared.
pub proof fn lemma_declared_after(store: Declarations, prop: ParsedPropertyView, replace: bool)
    requires
        valid_declarations(store),
        prop.id().is_longhand(),
    ensures
        forall|id: PropertyId|
            id != prop.id() ==> #[trigger] declared(set_one(store, prop, replace), id) == declared(
                store,
                id,
            ),
        declared(set_one(store, prop, replace), prop.id()) == if replace || !declares(
            store,
            prop.id(),
        ) {
            prop
        } else {
            declared(store, prop.id())
        },
{
    let after = set_one(store, prop, replace);
    let own = prop.id();
    lemma_set_one(store, prop, replace);
    assert forall|id: PropertyId| id != own implies #[trigger] declared(after, id) == declared(
        store,
        id,
    ) by {
        if declares(store, id) {
            let i = position(store, id);
            assert(is_at(store, id, i));
            assert(is_at(after, id, i));
            lemma_position(after, id, i);
        }
    }
    if declares(store, own) {
        let k = position(store, own);
        assert(is_at(store, own, k));
        assert(is_at(after, own, k));
        lemma_position(after, own, k);
    } else {
        let k = store.len() as int;
        assert(is_at(after, own, k));
        lemma_position(after, own, k);
    }
}

/// Setting a declaration keeps declarations valid.
pub proof fn lemma_set_all_is_valid(store: Declarations, prop: ParsedPropertyView, replace: bool)
    requires
        valid_declarations(store),
    ensures
        valid_declarations(set_all(store, prop, replace)),
{
    match prop {
        ParsedPropertyView::Marker(v) => {
            let start = ParsedPropertyView::MarkerStart(v);
            let mid = ParsedPropertyView::MarkerMid(v);
            let end = ParsedPropertyView::MarkerEnd(v);
            lemma_set_one(store, start, replace);
            lemma_set_one(set_one(store, start, replace), mid, replace);
            lemma_set_one(set_one(set_one(store, start, replace), mid, replace), end, replace);
        },
        _ => {
            lemma_set_one(store, prop, replace);
        },
    }
}

/// Of two declarations of one property that is no shorthand, set one after
/// the other, the first overriding: if the second overrides too, the first
/// might as well not have been set; if it yields, it changes nothing.
proof fn lemma_set_twice(store: Declarations, first: ParsedPropertyView, second: ParsedPropertyView)
    requires
        valid_declarations(store),
        first.id() == second.id(),
        first.id().is_longhand(),
    ensures
        set_one(set_one(store, first, true), second, true) == set_one(store, second, true),
        set_one(set_one(store, first, true), second, false) == set_one(store, first, true),
{
    let once = set_one(store, first, true);
    lemma_set_one(store, first, true);
    lemma_set_one(store, second, true);
    lemma_set_one(once, second, true);
    lemma_set_one(once, second, false);
    assert(set_one(once, second, true) =~= set_one(store, second, true));
}

/// An overriding declaration of a property that is declared already can
/// change places with an overriding declaration of another property that
/// is set before it.
proof fn lemma_set_earlier(store: Declarations, other: ParsedPropertyView, prop: ParsedPropertyView)
    requires
        valid_declarations(store),
        other.id().is_longhand(),
        prop.id().is_longhand(),
        other.id() != prop.id(),
        declares(store, prop.id()),
    ensures
        set_one(set_one(store, other, true), prop, true) == set_one(
            set_one(store, prop, true),
            other,
            true,
        ),
{
    lemma_set_one(store, other, true);
    lemma_set_one(store, prop, true);
    lemma_set_one(set_one(store, other, true), prop, true);
    lemma_set_one(set_one(store, prop, true), other, true);
    assert(set_one(set_one(store, other, true), prop, true) =~= set_one(
        set_one(store, prop, true),
        other,
        true,
    ));
}

/// Of two declarations of the shorthand that are set one after the other,
/// the first overriding: if the second overrides too, the first might as
/// well not have been set; if it yields, it changes nothing.
proof fn lemma_shorthand_twice(
    store: Declarations,
    value: SpecifiedValue<crate::iri::IriView>,
    later: SpecifiedValue<crate::iri::IriView>,
)
    requires
        valid_declarations(store),
    ensures
        set_all(
            set_all(store, ParsedPropertyView::Marker(value), true),
            ParsedPropertyView::Marker(later),
            true,
        ) == set_all(store, ParsedPropertyView::Marker(later), true),
        set_all(
            set_all(store, ParsedPropertyView::Marker(value), true),
            ParsedPropertyView::Marker(later),
            false,
        ) == set_all(store, ParsedPropertyView::Marker(value), true),
{
    let start = ParsedPropertyView::MarkerStart(value);
    let mid = ParsedPropertyView::MarkerMid(value);
    let end = ParsedPropertyView::MarkerEnd(value);
    let later_start = ParsedPropertyView::MarkerStart(later);
    let later_mid = ParsedPropertyView::MarkerMid(later);
    let later_end = ParsedPropertyView::MarkerEnd(later);
    // the first shorthand, step by step
    let s1 = set_one(store, start, true);
    let s2 = set_one(s1, mid, true);
    let s3 = set_one(s2, end, true);
    lemma_set_one(store, start, true);
    lemma_set_one(s1, mid, true);
    lemma_set_one(s2, end, true);
    assert(declares(s3, start.id()) && declares(s3, mid.id()) && declares(s3, end.id()));
    // a second shorthand that yields finds all three declared
    assert(set_one(s3, later_start, false) == s3);
    assert(set_one(s3, later_mid, false) == s3);
    assert(set_one(s3, later_end, false) == s3);
    // a second shorthand that overrides: its start moves to the front
    let u1 = set_one(store, later_start, true);
    lemma_set_one(store, later_start, true);
    assert(set_one(s3, later_start, true) == set_one(set_one(u1, mid, true), end, true)) by {
        lemma_set_earlier(s2, end, later_start);
        lemma_set_earlier(s1, mid, later_start);
        lemma_set_twice(store, start, later_start);
    }
    // then its middle
    let u2 = set_one(u1, later_mid, true);
    lemma_set_one(u1, mid, true);
    lemma_set_one(u1, later_mid, true);
    assert(set_one(set_one(set_one(u1, mid, true), end, true), later_mid, true) == set_one(
        u2,
        end,
        true,
    )) by {
        lemma_set_earlier(set_one(u1, mid, true), end, later_mid);
        lemma_set_twice(u1, mid, later_mid);
    }
    // then its end
    assert(set_one(set_one(u2, end, true), later_end, true) == set_one(u2, later_end, true)) by {
        lemma_set_twice(u2, end, later_end);
    }
}

/// Of two declarations of one property that are set one after the other,
/// the first overriding: if the second overrides too, it is the one that
/// counts, and the first might as well not have been set; if the second
/// yields, the first is the one that counts. What an element computes to
/// follows what it declares.
pub proof fn lemma_last_override_wins(
    store: Declarations,
    first: ParsedPropertyView,
    second: ParsedPropertyView,
    parent: ComputedValuesView,
)
    requires
        valid_declarations(store),
        first.id() == second.id(),
    ensures
        set_all(set_all(store, first, true), second, true) == set_all(store, second, true),
        set_all(set_all(store, first, true), second, false) == set_all(store, first, true),
        cascade(set_all(set_all(store, first, true), second, true), parent) == cascade(
            set_all(store, second, true),
            parent,
        ),
        cascade(set_all(set_all(store, first, true), second, false), parent) == cascade(
            set_all(store, first, true),
            parent,
        ),
{
    match (first, second) {
        (ParsedPropertyView::Marker(v), ParsedPropertyView::Marker(w)) => {
            lemma_shorthand_twice(store, v, w);
        },
        _ => {
            lemma_set_twice(store, first, second);
        },
    }
}

/// An overriding declaration of a property with a computed value is what
/// the element declares of the property afterwards.
pub proof fn lemma_set_is_declared(store: Declarations, prop: ParsedPropertyView)
    requires
        valid_declarations(store),
        prop.id().is_longhand(),
    ensures
        declared(set_all(store, prop, true), prop.id()) == prop,
{
    lemma_declared_after(store, prop, true);
}

/// Setting the shorthand is setting each of the three marker properties to
/// the value of the shorthand, the start first and the end last, and leaves
/// no declaration of the shorthand itself; an overriding shorthand is what
/// the element declares of the three afterwards; and a shorthand that is
/// set later, overriding, replaces all three.
pub proof fn lemma_marker_shorthand(
    store: Declarations,
    value: SpecifiedValue<crate::iri::IriView>,
    later: SpecifiedValue<crate::iri::IriView>,
    replace: bool,
)
    requires
        valid_declarations(store),
    ensures
        set_all(store, ParsedPropertyView::Marker(value), replace) == set_all(
            set_all(
                set_all(store, ParsedPropertyView::MarkerStart(value), replace),
                ParsedPropertyView::MarkerMid(value),
                replace,
            ),
            ParsedPropertyView::MarkerEnd(value),
            replace,
        ),
        set_all(store, ParsedPropertyView::Marker(value), replace) == set_one(
            set_one(
                set_one(store, ParsedPropertyView::MarkerStart(value), replace),
                ParsedPropertyView::MarkerMid(value),
                replace,
            ),
            ParsedPropertyView::MarkerEnd(value),
            replace,
        ),
        !declares(
            set_all(store, ParsedPropertyView::Marker(value), replace),
            PropertyId::Marker,
        ),
        declared(
            set_all(store, ParsedPropertyView::Marker(value), true),
            PropertyId::MarkerStart,
        ) == ParsedPropertyView::MarkerStart(value),
        declared(set_all(store, ParsedPropertyView::Marker(value), true), PropertyId::MarkerMid)
            == ParsedPropertyView::MarkerMid(value),
        declared(set_all(store, ParsedPropertyView::Marker(value), true), PropertyId::MarkerEnd)
            == ParsedPropertyView::MarkerEnd(value),
        set_all(
            set_all(store, ParsedPropertyView::Marker(value), true),
            ParsedPropertyView::Marker(later),
            true,
        ) == set_all(store, ParsedPropertyView::Marker(later), true),
{
    let start = ParsedPropertyView::MarkerStart(value);
    let mid = ParsedPropertyView::MarkerMid(value);
    let end = ParsedPropertyView::MarkerEnd(value);
    let s1 = set_one(store, start, true);
    let s2 = set_one(s1, mid, true);
    lemma_set_one(store, start, true);
    lemma_set_one(s1, mid, true);
    lemma_declared_after(store, start, true);
    lemma_declared_after(s1, mid, true);
    lemma_declared_after(s2, end, true);
    lemma_shorthand_twice(store, value, later);
    let set = set_all(store, ParsedPropertyView::Marker(value), replace);
    lemma_set_all_is_valid(store, ParsedPropertyView::Marker(value), replace);
    if declares(set, PropertyId::Marker) {
        assert(is_at(set, PropertyId::Marker, position(set, PropertyId::Marker)));
    }
}

/// After an important declaration, whatever its origin, a declaration of
/// the same property that is not important changes nothing, whatever its
/// origin: neither what the element declares, nor what it computes to.
pub proof fn lemma_important_is_kept(
    before: Merge,
    important: DeclarationView,
    important_origin: Origin,
    later: DeclarationView,
    later_origin: Origin,
    parent: ComputedValuesView,
)
    requires
        important.important,
        !later.important,
        later.property.id() == important.property.id(),
    ensures
        merged(merged(before, important, important_origin), later, later_origin) == merged(
            before,
            important,
            important_origin,
        ),
        cascade(
            merged(merged(before, important, important_origin), later, later_origin).store,
            parent,
        ) == cascade(merged(before, important, important_origin).store, parent),
{
}

/// An important declaration of the user agent for a property of which
/// nothing is declared yet gives the element its value, and a later
/// declaration of the author that is not important does not take it away.
pub proof fn lemma_important_wins(
    before: Merge,
    important: DeclarationView,
    later: DeclarationView,
)
    requires
        important.important,
        !later.important,
        later.property.id() == important.property.id(),
        valid_declarations(before.store),
        important.property.id().is_longhand(),
        !declares(before.store, important.property.id()),
    ensures
        declared(
            merged(
                merged(before, important, Origin::UserAgent),
                later,
                Origin::Author,
            ).store,
            important.property.id(),
        ) == important.property,
{
    lemma_declared_after(before.store, important.property, false);
}

} // verus!
