//! A plain list of named values.
use vstd::prelude::*;
use crate::common::area::Area;
use crate::common::bytes::append_range;
use crate::common::name::{Name, NameView};
use crate::common::named_values::{has_field, joined, values_of, without_field, Fields, NamedValueVisitor};
use crate::common::options::Options;

verus! {

/// Named values, kept in the order in which they were added.
pub struct FieldList {
    items: Vec<(Name, Area)>,
}

/// What a list of pairs holds.
pub open spec fn pairs_view(items: Seq<(Name, Area)>) -> Fields {
    items.map_values(|p: (Name, Area)| (p.0@, p.1@))
}

/// Leaving fields out goes field by field.
proof fn lemma_without_push(fields: Fields, field: (NameView, Seq<u8>), name: NameView)
    ensures
        without_field(fields.push(field), name) == if name.matches(field.0) {
            without_field(fields, name)
        } else {
            without_field(fields, name).push(field)
        },
{
    assert(fields.push(field).drop_last() =~= fields);
}

/// Gathering values goes field by field.
proof fn lemma_values_push(fields: Fields, field: (NameView, Seq<u8>), name: NameView)
    ensures
        values_of(fields.push(field), name) == if name.matches(field.0) {
            values_of(fields, name).push(field.1)
        } else {
            values_of(fields, name)
        },
{
    assert(fields.push(field).drop_last() =~= fields);
}

/// Joining values goes value by value.
proof fn lemma_joined_push(values: Seq<Seq<u8>>, value: Seq<u8>)
    ensures
        joined(values.push(value)) == if values.len() == 0 {
            value
        } else {
            joined(values) + seq![0x2cu8, 0x20u8] + value
        },
{
    assert(values.push(value).drop_last() =~= values);
}

/// A field is in a list with one more field if it is that field or was in
/// the list.
proof fn lemma_has_push(fields: Fields, field: (NameView, Seq<u8>), name: NameView)
    ensures
        has_field(fields.push(field), name) == (has_field(fields, name) || name.matches(field.0)),
{
    let grown = fields.push(field);
    if has_field(fields, name) {
        let i = choose|i: int| 0 <= i < fields.len() && name.matches(#[trigger] fields[i].0);
        assert(name.matches(grown[i].0));
    }
    if name.matches(field.0) {
        assert(name.matches(grown[fields.len() as int].0));
    }
    if has_field(grown, name) {
        let i = choose|i: int| 0 <= i < grown.len() && name.matches(#[trigger] grown[i].0);
        if i < fields.len() {
            assert(name.matches(fields[i].0));
        }
    }
}

/// A list has values for a name exactly if it has a field of that name.
pub proof fn lemma_values_of_has(fields: Fields, name: NameView)
    ensures
        values_of(fields, name).len() > 0 <==> has_field(fields, name),
    decreases fields.len(),
{
    if fields.len() > 0 {
        lemma_values_of_has(fields.drop_last(), name);
        lemma_has_push(fields.drop_last(), fields.last(), name);
        assert(fields.drop_last().push(fields.last()) =~= fields);
    }
}

impl View for FieldList {
    type V = Fields;

    closed spec fn view(&self) -> Fields {
        pairs_view(self.items@)
    }
}

impl FieldList {
    /// An empty list.
    pub fn new() -> (list: FieldList)
        ensures
            list@ == Seq::<(NameView, Seq<u8>)>::empty(),
    {
        let list = FieldList { items: Vec::new() };
        assert(list@ =~= Seq::empty());
        list
    }

    /// The number of fields.
    pub fn len(&self) -> (n: usize)
        ensures
            n == self@.len(),
    {
        self.items.len()
    }

    /// Adds a field at the end.
    pub fn push(&mut self, name: Name, value: Area)
        ensures
            final(self)@ == old(self)@.push((name@, value@)),
    {
        self.items.push((name, value));
        assert(self@ =~= old(self)@.push((name@, value@)));
    }

    /// Is there a field that `name` equals?
    pub fn contains(&self, name: &Name) -> (r: bool)
        ensures
            r == has_field(self@, name@),
    {
        let mut i: usize = 0;
        while i < self.items.len()
            invariant
                i <= self.items@.len(),
                forall|k: int| 0 <= k < i ==> !name@.matches(#[trigger] self@[k].0),
            decreases self.items@.len() - i,
        {
            if *name == self.items[i].0 {
                assert(name@.matches(self@[i as int].0));
                return true;
            }
            i += 1;
        }
        false
    }

    /// The values of the fields that `name` equals, joined by ", ", or
    /// `None` where there is no such field.
    pub fn get(&self, name: &Name) -> (r: Option<Area>)
        ensures
            r is Some <==> has_field(self@, name@),
            r matches Some(value) ==> value@ == joined(values_of(self@, name@)),
    {
        let mut out: Vec<u8> = Vec::new();
        let mut found: bool = false;
        let mut i: usize = 0;
        while i < self.items.len()
            invariant
                i <= self.items@.len(),
                found == (values_of(self@.subrange(0, i as int), name@).len() > 0),
                out@ == joined(values_of(self@.subrange(0, i as int), name@)),
            decreases self.items@.len() - i,
        {
            proof {
                let front = self@.subrange(0, i as int);
                assert(self@.subrange(0, i + 1) =~= front.push(self@[i as int]));
                lemma_values_push(front, self@[i as int], name@);
                lemma_joined_push(values_of(front, name@), self@[i as int].1);
            }
            if *name == self.items[i].0 {
                if found {
                    out.push(0x2c);
                    out.push(0x20);
                }
                let value: &[u8] = self.items[i].1.as_bytes();
                append_range(&mut out, value, 0, value.len());
                proof {
                    assert(value@.subrange(0, value@.len() as int) =~= value@);
                    let before = joined(values_of(self@.subrange(0, i as int), name@));
                    assert(before.push(0x2cu8).push(0x20u8) =~= before + seq![0x2cu8, 0x20u8]);
                }
                found = true;
            }
            i += 1;
        }
        proof {
            assert(self@.subrange(0, self@.len() as int) =~= self@);
            lemma_values_of_has(self@, name@);
        }
        if found {
            Some(Area::from_bytes(out.as_slice()))
        } else {
            None
        }
    }

    /// Removes the fields that `name` equals.
    pub fn remove_any(&mut self, name: &Name)
        ensures
            final(self)@ == without_field(old(self)@, name@),
    {
        let mut kept: Vec<(Name, Area)> = Vec::new();
        let mut items: Vec<(Name, Area)> = Vec::new();
        core::mem::swap(&mut items, &mut self.items);
        let ghost all = pairs_view(items@);
        let mut i: usize = 0;
        while i < items.len()
            invariant
                i <= items@.len(),
                all == pairs_view(items@),
                pairs_view(kept@) == without_field(all.subrange(0, i as int), name@),
            decreases items@.len() - i,
        {
            proof {
                let front = all.subrange(0, i as int);
                assert(all.subrange(0, i + 1) =~= front.push(all[i as int]));
                lemma_without_push(front, all[i as int], name@);
            }
            if !(*name == items[i].0) {
                let copy: (Name, Area) = (items[i].0.clone(), items[i].1.clone());
                let ghost before = pairs_view(kept@);
                kept.push(copy);
                assert(pairs_view(kept@) =~= before.push(all[i as int]));
            }
            i += 1;
        }
        assert(all.subrange(0, all.len() as int) =~= all);
        self.items = kept;
    }

    /// Shows the visitor each field, in order.
    pub fn visit_each<V: NamedValueVisitor>(&self, visitor: &mut V)
        requires
            old(visitor).inv(),
        ensures
            final(visitor).inv(),
            final(visitor).visited() == old(visitor).visited() + self@,
    {
        let mut i: usize = 0;
        assert(old(visitor).visited() + self@.subrange(0, 0) =~= old(visitor).visited());
        while i < self.items.len()
            invariant
                i <= self.items@.len(),
                visitor.inv(),
                visitor.visited() == old(visitor).visited() + self@.subrange(0, i as int),
            decreases self.items@.len() - i,
        {
            visitor.visit(&self.items[i].0, &self.items[i].1);
            assert(old(visitor).visited() + self@.subrange(0, i + 1) =~= (old(visitor).visited()
                + self@.subrange(0, i as int)).push(self@[i as int]));
            i += 1;
        }
        assert(self@.subrange(0, self@.len() as int) =~= self@);
    }

    /// A list of its own with the same fields.
    pub fn duplicate(&self) -> (list: FieldList)
        ensures
            list@ == self@,
    {
        let mut items: Vec<(Name, Area)> = Vec::new();
        let mut i: usize = 0;
        while i < self.items.len()
            invariant
                i <= self.items@.len(),
                pairs_view(items@) == self@.subrange(0, i as int),
            decreases self.items@.len() - i,
        {
            let copy: (Name, Area) = (self.items[i].0.clone(), self.items[i].1.clone());
            let ghost before = pairs_view(items@);
            items.push(copy);
            assert(pairs_view(items@) =~= before.push(self@[i as int]));
            assert(self@.subrange(0, i + 1) =~= self@.subrange(0, i as int).push(self@[i as int]));
            i += 1;
        }
        assert(self@.subrange(0, self@.len() as int) =~= self@);
        FieldList { items }
    }
}

impl Options for FieldList {
    open spec fn entries(&self) -> Fields {
        self@
    }

    /// The value of the first option that `name` equals.
    fn option(&self, name: &Name) -> (r: Option<Area>) {
        let mut i: usize = 0;
        while i < self.items.len()
            invariant
                i <= self.items@.len(),
                forall|k: int| 0 <= k < i ==> !name@.matches(#[trigger] self@[k].0),
            decreases self.items@.len() - i,
        {
            if *name == self.items[i].0 {
                assert(name@.matches(self@[i as int].0));
                return Some(self.items[i].1.clone());
            }
            i += 1;
        }
        None
    }

    fn visit_each<V: NamedValueVisitor>(&self, visitor: &mut V) {
        FieldList::visit_each(self, visitor)
    }
}

} // verus!
