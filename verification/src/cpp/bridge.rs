//! The adapters that a host drives, behind their handles.
use vstd::prelude::*;
use crate::cpp::table::{Handle, Table};
use crate::erased::{BoxedService, BoxedTransaction};
use crate::host::host::Host;
use crate::Translator;

pub mod service;
pub mod transaction;

verus! {

/// The handle of a service.
pub type ServicePtr = Handle;

/// The handle of a transaction.
pub type TransactionPtr = Handle;

/// Why a call of the host was not carried out.
#[derive(Debug, Copy, Clone, PartialEq, Eq, Structural)]
pub enum ShimError {
    /// The handle stands for nothing: it was freed, or never given out.
    NoSuchHandle,
    /// The adapter does not take the call as it stands.
    Refused,
}

/// The services that were taken in for the host `K`, and the transactions
/// that they made.
#[verifier::reject_recursive_types(K)]
pub struct CppTranslator<K: Host> {
    services: Table<BoxedService<K>>,
    transactions: Table<BoxedTransaction<K>>,
    unannounced: Vec<ServicePtr>,
    adopted: Ghost<Seq<BoxedService<K>>>,
}

impl<K: Host> CppTranslator<K> {
    /// The services, under their handles.
    pub closed spec fn services(&self) -> Table<BoxedService<K>> {
        self.services
    }

    /// The transactions, under their handles.
    pub closed spec fn transactions(&self) -> Table<BoxedTransaction<K>> {
        self.transactions
    }

    /// The handles of the services that were taken in and that the host
    /// has not been told of, in order.
    pub closed spec fn unannounced(&self) -> Seq<ServicePtr> {
        self.unannounced@
    }

    /// What the translator holds beside the tables.
    pub open spec fn rest_unchanged(&self, before: &CppTranslator<K>) -> bool {
        self.unannounced() == before.unannounced() && self.adopted() == before.adopted()
    }

    /// A translator that has taken nothing in.
    pub fn new() -> (t: CppTranslator<K>)
        ensures
            t.adopted() == Seq::<BoxedService<K>>::empty(),
            t.unannounced() == Seq::<ServicePtr>::empty(),
            forall|h: Handle| !t.services().holds(h) && !t.transactions().holds(h),
    {
        CppTranslator {
            services: Table::new(),
            transactions: Table::new(),
            unannounced: Vec::new(),
            adopted: Ghost(Seq::empty()),
        }
    }

    /// The handles of the services that the host has to be told of, in the
    /// order in which the services were taken in. They are handed out once.
    pub fn announce(&mut self) -> (handles: Vec<ServicePtr>)
        ensures
            handles@ == old(self).unannounced(),
            final(self).unannounced() == Seq::<ServicePtr>::empty(),
            final(self).services() == old(self).services(),
            final(self).transactions() == old(self).transactions(),
            final(self).adopted() == old(self).adopted(),
    {
        let mut handles: Vec<ServicePtr> = Vec::new();
        core::mem::swap(&mut handles, &mut self.unannounced);
        handles
    }
}

impl<K: Host> Translator<K> for CppTranslator<K> {
    closed spec fn adopted(&self) -> Seq<BoxedService<K>> {
        self.adopted@
    }

    /// Takes the service in under a new handle.
    fn register_service(&mut self, service: BoxedService<K>)
        ensures
            final(self).unannounced().len() == old(self).unannounced().len() + 1,
            final(self).unannounced().drop_last() == old(self).unannounced(),
            final(self).services().holds(final(self).unannounced().last()),
            !old(self).services().holds(final(self).unannounced().last()),
            final(self).services().value(final(self).unannounced().last()) == service,
            final(self).services().same_but(
                &old(self).services(),
                final(self).unannounced().last(),
            ),
            final(self).transactions() == old(self).transactions(),
    {
        let handle: ServicePtr = self.services.insert(service);
        self.unannounced.push(handle);
        proof {
            self.adopted@ = self.adopted@.push(service);
            assert(self.unannounced@.drop_last() =~= old(self).unannounced@);
        }
    }
}

} // verus!
