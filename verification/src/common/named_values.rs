//! Pairs of a name and a value, and those who read them.
use vstd::prelude::*;
use crate::common::area::Area;
use crate::common::name::{Name, NameView};

verus! {

/// A list of named values, in the order in which they are kept.
pub type Fields = Seq<(NameView, Seq<u8>)>;

/// Does `fields` hold a value under a name that `name` equals?
pub open spec fn has_field(fields: Fields, name: NameView) -> bool {
    exists|i: int| 0 <= i < fields.len() && name.matches(#[trigger] fields[i].0)
}

/// The fields whose names `name` does not equal, in their order.
pub open spec fn without_field(fields: Fields, name: NameView) -> Fields
    decreases fields.len(),
{
    if fields.len() == 0 {
        fields
    } else if name.matches(fields.last().0) {
        without_field(fields.drop_last(), name)
    } else {
        without_field(fields.drop_last(), name).push(fields.last())
    }
}

/// The values under the names that `name` equals, in their order.
pub open spec fn values_of(fields: Fields, name: NameView) -> Seq<Seq<u8>>
    decreases fields.len(),
{
    if fields.len() == 0 {
        Seq::empty()
    } else if name.matches(fields.last().0) {
        values_of(fields.drop_last(), name).push(fields.last().1)
    } else {
        values_of(fields.drop_last(), name)
    }
}

/// The values one after the other, with a comma and a space between two.
pub open spec fn joined(values: Seq<Seq<u8>>) -> Seq<u8>
    decreases values.len(),
{
    if values.len() == 0 {
        Seq::empty()
    } else if values.len() == 1 {
        values[0]
    } else {
        joined(values.drop_last()) + seq![0x2cu8, 0x20u8] + values.last()
    }
}

/// Reads named values, one at a time.
pub trait NamedValueVisitor {
    /// What holds of the visitor between two visits.
    spec fn inv(&self) -> bool;

    /// The pairs that the visitor was shown, in order.
    spec fn visited(&self) -> Fields;

    fn visit(&mut self, name: &Name, value: &Area)
        requires
            old(self).inv(),
        ensures
            final(self).inv(),
            final(self).visited() == old(self).visited().push((name@, value@)),
    ;
}

} // verus!
