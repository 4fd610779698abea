//! Configuration and meta-information.
use vstd::prelude::*;
use crate::common::area::Area;
use crate::common::name::Name;
use crate::common::named_values::{has_field, Fields, NamedValueVisitor};

verus! {

/// Reading of `(Name, Area)` pairs across the adapter/host boundary.
///
/// This is used to share configuration information and transaction
/// meta-information. The pairs come in no promised order, and a name may
/// come more than once.
pub trait Options {
    /// The pairs, in the order in which a visitor is shown them.
    spec fn entries(&self) -> Fields;

    /// Returns the value of the named option, or `None` where there is no
    /// option that `name` equals.
    fn option(&self, name: &Name) -> (r: Option<Area>)
        ensures
            r is Some <==> has_field(self.entries(), name@),
            r matches Some(value) ==> exists|i: int|
                0 <= i < self.entries().len() && name@.matches(#[trigger] self.entries()[i].0)
                    && self.entries()[i].1 == value@,
    ;

    /// Shows the visitor each pair, those with an unknown name too.
    fn visit_each<V: NamedValueVisitor>(&self, visitor: &mut V)
        requires
            old(visitor).inv(),
        ensures
            final(visitor).inv(),
            final(visitor).visited() == old(visitor).visited() + self.entries(),
    ;
}

} // verus!
