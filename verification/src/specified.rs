//! The declared values of one element.

use crate::cascade::{cascade, cascade_through, lemma_order_is_of_longhands, CASCADE_ORDER, LONGHAND_COUNT};
use crate::computed::ComputedValues;
use crate::laws::lemma_cascade_resolves;
use crate::parsed::{ParsedProperty, ParsedPropertyView};
use crate::property::SpecifiedValue;
use crate::property_defs::{Marker, MarkerEnd, MarkerMid, MarkerStart, Overflow};
use crate::property_id::{PropertyId, PROPERTY_COUNT};
use vstd::prelude::*;
use vstd::set_lib::{lemma_int_range, lemma_len_subset, lemma_map_size, set_int_range};

verus! {

/// What an element declares: one declaration of each property at most, in
/// the order in which the properties were first declared.
pub type Declarations = Seq<ParsedPropertyView>;

/// Whether the declaration at the place `i` of `store` is that of the
/// property `id`.
pub open spec fn is_at(store: Declarations, id: PropertyId, i: int) -> bool {
    0 <= i < store.len() && store[i].id() == id
}

/// Whether no property is declared twice in `store`, and neither the
/// shorthand nor the identity of no property is declared at all.
pub open spec fn valid_declarations(store: Declarations) -> bool {
    &&& forall|i: int| 0 <= i < store.len() ==> (#[trigger] store[i]).id().is_longhand()
    &&& forall|i: int, j: int|
        0 <= i < j < store.len() ==> (#[trigger] store[i]).id() != (#[trigger] store[j]).id()
}

/// Whether the property `id` is declared in `store`.
pub open spec fn declares(store: Declarations, id: PropertyId) -> bool {
    exists|i: int| is_at(store, id, i)
}

/// The place in `store` of the declaration of the property `id`.
pub open spec fn position(store: Declarations, id: PropertyId) -> int {
    choose|i: int| is_at(store, id, i)
}

/// The declaration of the property `id` in `store`; where there is none, the
/// declaration that declares nothing.
pub open spec fn declared(store: Declarations, id: PropertyId) -> ParsedPropertyView {
    if declares(store, id) {
        store[position(store, id)]
    } else {
        ParsedPropertyView::unspecified(id)
    }
}

/// The declarations `store` after one declaration of a property that is no
/// shorthand is set. Where the property is declared already, the new
/// declaration takes the place of the old one if `replace` holds, and
/// changes nothing if it does not. Where it is not, the new declaration
/// comes after all the others.
pub open spec fn set_one(store: Declarations, prop: ParsedPropertyView, replace: bool) -> Declarations {
    if declares(store, prop.id()) {
        if replace {
            store.update(position(store, prop.id()), prop)
        } else {
            store
        }
    } else {
        store.push(prop)
    }
}

/// The declarations `store` after one declaration is set. A declaration of
/// the shorthand stands for one of each of the three marker properties,
/// with the value of the shorthand.
pub open spec fn set_all(store: Declarations, prop: ParsedPropertyView, replace: bool) -> Declarations {
    match prop {
        ParsedPropertyView::Marker(v) => set_one(
            set_one(
                set_one(store, ParsedPropertyView::MarkerStart(v), replace),
                ParsedPropertyView::MarkerMid(v),
                replace,
            ),
            ParsedPropertyView::MarkerEnd(v),
            replace,
        ),
        _ => set_one(store, prop, replace),
    }
}

/// In valid declarations, the declaration of a property has one place.
pub proof fn lemma_position(store: Declarations, id: PropertyId, i: int)
    requires
        valid_declarations(store),
        is_at(store, id, i),
    ensures
        declares(store, id),
        position(store, id) == i,
        declared(store, id) == store[i],
{
    let p = position(store, id);
    assert(is_at(store, id, p));
    if p < i {
        assert(store[p].id() != store[i].id());
    } else if i < p {
        assert(store[i].id() != store[p].id());
    }
}

/// Holds the declared values of an element.
///
/// The declarations are kept in the order in which they came. A table gives,
/// for the identity of each property, the place of its declaration among
/// them, or `PROPERTY_COUNT` where there is none.
#[derive(Clone, Debug)]
pub struct SpecifiedValues {
    indices: [u8; PROPERTY_COUNT],
    props: Vec<ParsedProperty>,
}

impl View for SpecifiedValues {
    type V = Declarations;

    closed spec fn view(&self) -> Declarations {
        Seq::new(self.props@.len(), |i: int| self.props@[i]@)
    }
}

impl Default for SpecifiedValues {
    fn default() -> (s: SpecifiedValues)
        ensures
            s.wf(),
            s@ == Declarations::empty(),
    {
        let s = SpecifiedValues { indices: [48u8; PROPERTY_COUNT], props: Vec::new() };
        assert(s@ =~= Declarations::empty());
        s
    }
}

impl SpecifiedValues {
    /// The entry of the table for the property `id`.
    pub closed spec fn slot(&self, id: PropertyId) -> int {
        self.indices@[id.index()] as int
    }

    /// The table and the declarations agree: an entry of the table points to
    /// the declaration of its property, the place of every declaration is in
    /// the table, and the shorthand has no entry.
    pub closed spec fn wf(&self) -> bool {
        &&& self.props@.len() < PROPERTY_COUNT
        &&& forall|id: PropertyId|
            id.is_longhand() && #[trigger] self.slot(id) != PROPERTY_COUNT ==> 0 <= self.slot(id)
                < self.props@.len() && self.props@[self.slot(id)]@.id() == id
        &&& self.slot(PropertyId::Marker) == PROPERTY_COUNT
        &&& forall|i: int|
            0 <= i < self.props@.len() ==> (#[trigger] self.props@[i])@.id().is_longhand()
                && self.slot(self.props@[i]@.id()) == i
    }

    /// What a well-formed store holds is valid, and there is room in it for
    /// a declaration of every property.
    pub proof fn lemma_valid(&self)
        requires
            self.wf(),
        ensures
            valid_declarations(self@),
            self@.len() < PROPERTY_COUNT,
    {
        assert forall|i: int| 0 <= i < self@.len() implies (#[trigger] self@[i]).id().is_longhand() by {
            assert(self.props@[i]@.id().is_longhand());
        }
        assert forall|i: int, j: int| 0 <= i < j < self@.len() implies (#[trigger] self@[i]).id() != (
        #[trigger] self@[j]).id() by {
            assert(self.slot(self.props@[i]@.id()) == i);
            assert(self.slot(self.props@[j]@.id()) == j);
        }
    }

    /// A store in which `id` has no declaration holds 46 declarations at
    /// most: each stands under its own identity, and neither under `id` nor
    /// under the shorthand.
    proof fn lemma_room(&self, id: PropertyId)
        requires
            self.wf(),
            id.is_longhand(),
            self.slot(id) == PROPERTY_COUNT,
        ensures
            self.props@.len() <= 46,
    {
        let n = self.props@.len() as int;
        let places = set_int_range(0, n);
        let number_of = |i: int| self.props@[i]@.id().index();
        let numbers = places.map(number_of);
        let free = set_int_range(0, 48).remove(id.index()).remove(PropertyId::Marker.index());
        lemma_int_range(0, n);
        lemma_int_range(0, 48);
        assert(vstd::relations::injective_on(number_of, places)) by {
            assert forall|i: int, j: int|
                places.contains(i) && places.contains(j) && #[trigger] number_of(i)
                    == #[trigger] number_of(j) implies i == j by {
                PropertyId::lemma_index_is_one_to_one(self.props@[i]@.id(), self.props@[j]@.id());
            }
        }
        lemma_map_size(places, numbers, number_of);
        assert(numbers.subset_of(free)) by {
            assert forall|k: int| numbers.contains(k) implies free.contains(k) by {
                let i = choose|i: int| places.contains(i) && number_of(i) == k;
                assert(self.props@[i]@.id().is_longhand());
                assert(self.slot(self.props@[i]@.id()) == i);
                PropertyId::lemma_index_is_one_to_one(self.props@[i]@.id(), id);
                PropertyId::lemma_index_is_one_to_one(
                    self.props@[i]@.id(),
                    PropertyId::Marker,
                );
            }
        }
        lemma_len_subset(numbers, free);
    }

    /// What the table says of a property is what the declarations say: the
    /// entry of a property that is declared is the place of its declaration,
    /// and the entry of any other is `PROPERTY_COUNT`. So the table follows
    /// from the declarations, and there is no entry that points nowhere.
    pub proof fn lemma_slot(&self, id: PropertyId)
        requires
            self.wf(),
            !(id is UnsetProperty),
        ensures
            self.slot(id) != PROPERTY_COUNT ==> is_at(self@, id, self.slot(id)) && position(
                self@,
                id,
            ) == self.slot(id),
            self.slot(id) == PROPERTY_COUNT ==> !declares(self@, id),
            self.slot(id) == if declares(self@, id) {
                position(self@, id)
            } else {
                PROPERTY_COUNT as int
            },
    {
        self.lemma_valid();
        if self.slot(id) != PROPERTY_COUNT {
            assert(self@[self.slot(id)] == self.props@[self.slot(id)]@);
            lemma_position(self@, id, self.slot(id));
        } else {
            assert forall|i: int| !is_at(self@, id, i) by {
                if 0 <= i < self@.len() {
                    assert(self.slot(self.props@[i]@.id()) == i);
                }
            }
        }
    }

    /// The place of the declaration of the property `id` among the
    /// declarations, if there is one: what the table says of the property.
    pub fn property_index(&self, id: PropertyId) -> (r: Option<usize>)
        requires
            self.wf(),
            !(id is UnsetProperty),
        ensures
            match r {
                Some(index) => is_at(self@, id, index as int) && position(self@, id) == index
                    && index == self.slot(id) && self@[index as int] == declared(self@, id),
                None => !declares(self@, id) && self.slot(id) == PROPERTY_COUNT,
            },
    {
        proof {
            PropertyId::lemma_index_is_one_to_one(id, id);
            self.lemma_slot(id);
        }
        let v: u8 = self.indices[id.as_usize()];
        assert(v == self.slot(id));
        if v == PropertyId::UnsetProperty.as_u8() {
            None
        } else {
            Some(v as usize)
        }
    }

    /// Putting a declaration in the place of the one of the same property
    /// keeps the store well-formed and is what `set_one` describes.
    proof fn lemma_replaced(before: SpecifiedValues, after: SpecifiedValues, prop: ParsedProperty)
        requires
            before.wf(),
            prop@.id().is_longhand(),
            before.slot(prop@.id()) != PROPERTY_COUNT,
            after.indices == before.indices,
            after.props@ == before.props@.update(before.slot(prop@.id()), prop),
        ensures
            after.wf(),
            after@ == set_one(before@, prop@, true),
            forall|other: PropertyId| #[trigger] after.slot(other) == before.slot(other),
    {
        let id = prop@.id();
        before.lemma_slot(id);
        assert forall|other: PropertyId|
            other.is_longhand() && #[trigger] after.slot(other) != PROPERTY_COUNT implies 0
            <= after.slot(other) < after.props@.len() && after.props@[after.slot(other)]@.id()
            == other by {
            assert(before.slot(other) == after.slot(other));
        }
        assert forall|i: int| 0 <= i < after.props@.len() implies (#[trigger] after.props@[i])@.id().is_longhand()
            && after.slot(after.props@[i]@.id()) == i by {
            assert(before.props@[i]@.id().is_longhand());
        }
        assert(after@ =~= before@.update(before.slot(id), prop@));
    }

    /// Adding the declaration of a property that has none, and entering its
    /// place in the table, keeps the store well-formed and is what `set_one`
    /// describes.
    proof fn lemma_appended(
        before: SpecifiedValues,
        after: SpecifiedValues,
        prop: ParsedProperty,
        replace: bool,
    )
        requires
            before.wf(),
            prop@.id().is_longhand(),
            before.slot(prop@.id()) == PROPERTY_COUNT,
            before.props@.len() <= 46,
            after.indices@ == before.indices@.update(
                prop@.id().index(),
                before.props@.len() as u8,
            ),
            after.props@ == before.props@.push(prop),
        ensures
            after.wf(),
            after@ == set_one(before@, prop@, replace),
            after.slot(prop@.id()) == before@.len(),
            forall|other: PropertyId|
                other != prop@.id() && !(other is UnsetProperty) ==> #[trigger] after.slot(other)
                    == before.slot(other),
    {
        let id = prop@.id();
        let pos = before.props@.len() as int;
        before.lemma_slot(id);
        PropertyId::lemma_index_is_one_to_one(id, id);
        assert forall|other: PropertyId| other != id && !(other is UnsetProperty) implies
            #[trigger] after.slot(other) == before.slot(other) by {
            PropertyId::lemma_index_is_one_to_one(other, id);
            PropertyId::lemma_index_is_one_to_one(other, other);
        }
        assert(after.slot(id) == pos);
        assert forall|other: PropertyId|
            other.is_longhand() && #[trigger] after.slot(other) != PROPERTY_COUNT implies 0
            <= after.slot(other) < after.props@.len() && after.props@[after.slot(other)]@.id()
            == other by {
            if other != id {
                assert(before.slot(other) == after.slot(other));
            }
        }
        assert forall|i: int| 0 <= i < after.props@.len() implies (#[trigger] after.props@[i])@.id().is_longhand()
            && after.slot(after.props@[i]@.id()) == i by {
            if i < pos {
                assert(before.props@[i]@.id().is_longhand());
                assert(before.slot(before.props@[i]@.id()) == i);
            }
        }
        assert(after@ =~= before@.push(prop@));
    }

    /// Sets one declaration of a property that is no shorthand. Where the
    /// property is declared already, the declaration takes the place of the
    /// old one if `replace` holds, and nothing changes if it does not. Where
    /// it is not, the declaration is added after the others, and its place
    /// is entered in the table.
    pub fn set_property(&mut self, prop: &ParsedProperty, replace: bool)
        requires
            old(self).wf(),
            !(prop@.id() is Marker),
        ensures
            final(self).wf(),
            final(self)@ == set_one(old(self)@, prop@, replace),
            forall|other: PropertyId|
                other != prop@.id() && !(other is UnsetProperty) ==> #[trigger] final(self).slot(
                    other,
                ) == old(self).slot(other),
            final(self).slot(prop@.id()) == if declares(old(self)@, prop@.id()) {
                old(self).slot(prop@.id())
            } else {
                old(self)@.len() as int
            },
    {
        let id = prop.get_property_id();
        proof {
            PropertyId::lemma_index_is_one_to_one(id, id);
        }
        let ghost before = *self;
        match self.property_index(id) {
            Some(index) => {
                if replace {
                    let copy = prop.duplicate();
                    self.props[index] = copy;
                    proof {
                        SpecifiedValues::lemma_replaced(before, *self, copy);
                    }
                }
            },
            None => {
                proof {
                    self.lemma_room(id);
                }
                let copy = prop.duplicate();
                self.props.push(copy);
                let pos: usize = self.props.len() - 1;
                self.indices[id.as_usize()] = pos as u8;
                proof {
                    SpecifiedValues::lemma_appended(before, *self, copy, replace);
                }
            },
        }
    }

    /// Sets one declaration. One of the shorthand is set as three: one of
    /// each marker property with the value of the shorthand, the start
    /// first and the end last, and none of the shorthand itself.
    pub fn set_property_expanding_shorthands(&mut self, prop: &ParsedProperty, replace: bool)
        requires
            old(self).wf(),
        ensures
            final(self).wf(),
            final(self)@ == set_all(old(self)@, prop@, replace),
    {
        match prop {
            ParsedProperty::Marker(value) => {
                let (start, mid, end) = match value {
                    SpecifiedValue::Unspecified => (
                        SpecifiedValue::Unspecified,
                        SpecifiedValue::Unspecified,
                        SpecifiedValue::Unspecified,
                    ),
                    SpecifiedValue::Inherit => (
                        SpecifiedValue::Inherit,
                        SpecifiedValue::Inherit,
                        SpecifiedValue::Inherit,
                    ),
                    SpecifiedValue::Specified(Marker(iri)) => (
                        SpecifiedValue::Specified(MarkerStart(iri.duplicate())),
                        SpecifiedValue::Specified(MarkerMid(iri.duplicate())),
                        SpecifiedValue::Specified(MarkerEnd(iri.duplicate())),
                    ),
                };
                self.set_property(&ParsedProperty::MarkerStart(start), replace);
                self.set_property(&ParsedProperty::MarkerMid(mid), replace);
                self.set_property(&ParsedProperty::MarkerEnd(end), replace);
            },
            _ => {
                self.set_property(prop, replace);
            },
        }
    }

    /// Sets a declaration that overrides an earlier one of the same property:
    /// one of an author's style sheet, or a presentation attribute.
    pub fn set_parsed_property(&mut self, prop: &ParsedProperty)
        requires
            old(self).wf(),
        ensures
            final(self).wf(),
            final(self)@ == set_all(old(self)@, prop@, true),
    {
        self.set_property_expanding_shorthands(prop, true);
    }

    /// Sets a declaration of the user agent's style sheet, which yields to
    /// any declaration of the same property that is there already.
    pub fn set_parsed_property_user_agent(&mut self, prop: &ParsedProperty)
        requires
            old(self).wf(),
        ensures
            final(self).wf(),
            final(self)@ == set_all(old(self)@, prop@, false),
    {
        self.set_property_expanding_shorthands(prop, false);
    }

    /// The identities of the declared properties, in the order of their
    /// declarations.
    pub fn ids(&self) -> (r: Vec<PropertyId>)
        requires
            self.wf(),
        ensures
            r@.len() == self@.len(),
            forall|i: int| 0 <= i < r@.len() ==> #[trigger] r@[i] == self@[i].id(),
    {
        let mut ids: Vec<PropertyId> = Vec::new();
        let mut i: usize = 0;
        while i < self.props.len()
            invariant
                i <= self.props.len(),
                ids@.len() == i,
                forall|j: int| 0 <= j < i ==> #[trigger] ids@[j] == self.props@[j]@.id(),
            decreases self.props.len() - i,
        {
            ids.push(self.props[i].get_property_id());
            i += 1;
        }
        ids
    }

    /// A copy of these declared values.
    pub fn duplicate(&self) -> (r: SpecifiedValues)
        requires
            self.wf(),
        ensures
            r.wf(),
            r@ == self@,
    {
        let mut props: Vec<ParsedProperty> = Vec::new();
        let mut i: usize = 0;
        while i < self.props.len()
            invariant
                i <= self.props.len(),
                props@.len() == i,
                forall|j: int| 0 <= j < i ==> (#[trigger] props@[j])@ == self.props@[j]@,
            decreases self.props.len() - i,
        {
            props.push(self.props[i].duplicate());
            i += 1;
        }
        let r = SpecifiedValues { indices: self.indices, props };
        proof {
            assert forall|id: PropertyId| #[trigger] r.slot(id) == self.slot(id) by {}
            assert forall|id: PropertyId|
                id.is_longhand() && #[trigger] r.slot(id) != PROPERTY_COUNT implies 0 <= r.slot(id)
                < r.props@.len() && r.props@[r.slot(id)]@.id() == id by {
                assert(self.slot(id) == r.slot(id));
            }
            assert forall|j: int| 0 <= j < r.props@.len() implies (#[trigger] r.props@[j])@.id().is_longhand()
                && r.slot(r.props@[j]@.id()) == j by {
                assert(self.props@[j]@.id().is_longhand());
            }
            assert(r@ =~= self@);
        }
        r
    }

    /// Computes the value of the property `id` from its declaration here, or
    /// from the declaration that declares nothing where there is none, and
    /// puts it in its place in `computed`.
    fn apply_declared(&self, id: PropertyId, computed: &mut ComputedValues)
        requires
            self.wf(),
            !(id is UnsetProperty),
        ensures
            final(computed)@ == declared(self@, id).apply(old(computed)@),
    {
        match self.property_index(id) {
            Some(index) => self.props[index].apply(computed),
            None => ParsedProperty::unspecified(id).apply(computed),
        }
    }

    /// Computes the values of the element from what it declares. On entry
    /// `computed` holds the computed values of the parent element, or the
    /// initial values for the root of a tree; on return it holds those of
    /// the element.
    pub fn to_computed_values(&self, computed: &mut ComputedValues)
        requires
            self.wf(),
        ensures
            final(computed)@ == cascade(self@, old(computed)@),
            old(computed)@.is_resolved() ==> final(computed)@.is_resolved(),
    {
        proof {
            self.lemma_valid();
            if old(computed)@.is_resolved() {
                lemma_cascade_resolves(self@, old(computed)@);
            }
        }
        let mut i: usize = 0;
        while i < LONGHAND_COUNT
            invariant
                i <= LONGHAND_COUNT,
                self.wf(),
                computed@ == cascade_through(self@, old(computed)@, i as nat),
            decreases LONGHAND_COUNT - i,
        {
            let id = CASCADE_ORDER[i];
            proof {
                lemma_order_is_of_longhands(i as int);
            }
            self.apply_declared(id, computed);
            i += 1;
        }
    }

    /// True where the declared `overflow` is `auto` or `visible`.
    pub fn is_overflow(&self) -> (r: bool)
        requires
            self.wf(),
        ensures
            r == declares_overflow(self@),
    {
        match self.property_index(PropertyId::Overflow) {
            Some(index) => match &self.props[index] {
                ParsedProperty::Overflow(SpecifiedValue::Specified(Overflow::Auto)) => true,
                ParsedProperty::Overflow(SpecifiedValue::Specified(Overflow::Visible)) => true,
                _ => false,
            },
            None => false,
        }
    }
}

/// Whether `store` declares `overflow` to be `auto` or `visible`.
pub open spec fn declares_overflow(store: Declarations) -> bool {
    declared(store, PropertyId::Overflow) matches ParsedPropertyView::Overflow(
        SpecifiedValue::Specified(overflow),
    ) && (overflow is Auto || overflow is Visible)
}

} // verus!
