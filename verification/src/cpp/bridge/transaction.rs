//! The calls that the host makes on a transaction.
use vstd::prelude::*;
use crate::adapter::transaction::AdapterCall;
use crate::common::area::Area;
use crate::cpp::bridge::{CppTranslator, ServicePtr, ShimError, TransactionPtr};
use crate::erased::{same_kind, same_service_kind, BoxedTransaction, Service, Transaction};
use crate::host::host::Host;
use crate::host::transaction::{HostView, Transaction as HostTransaction};
use crate::Translator;

verus! {

/// Makes the call on the transaction.
fn make_call<K: Host>(
    transaction: &mut BoxedTransaction<K>,
    host: &mut K::Transaction,
    call: AdapterCall,
) -> (r: Option<Area>)
    requires
        old(transaction).inner.admits_at(old(transaction).inner.standing(), call, old(host)@),
    ensures
        old(transaction).inner.moves_at(
            old(transaction).inner.standing(),
            call,
            old(host)@,
            final(transaction).inner.standing(),
            final(host)@,
        ),
        same_kind(*final(transaction), *old(transaction)),
        old(host)@.calls.is_prefix_of(final(host)@.calls),
        match call {
            AdapterCall::AdaptedBodyContent { offset, size } => r is Some && r->0@.len() <= size
                && old(transaction).inner.answers_at(
                old(transaction).inner.standing(),
                old(host)@,
                offset,
                size,
                r->0@,
                final(host)@,
            ),
            _ => r is None,
        },
{
    match call {
        AdapterCall::Start => {
            transaction.inner.start(host);
            None
        },
        AdapterCall::Stop => {
            transaction.inner.stop(host);
            None
        },
        AdapterCall::Resume => {
            transaction.inner.resume(host);
            None
        },
        AdapterCall::AdaptedBodyDiscard => {
            transaction.inner.adapted_body_discard(host);
            None
        },
        AdapterCall::AdaptedBodyMake => {
            transaction.inner.adapted_body_make(host);
            None
        },
        AdapterCall::AdaptedBodyMakeMore => {
            transaction.inner.adapted_body_make_more(host);
            None
        },
        AdapterCall::AdaptedBodyStopMaking => {
            transaction.inner.adapted_body_stop_making(host);
            None
        },
        AdapterCall::AdaptedBodyPause => {
            transaction.inner.adapted_body_pause(host);
            None
        },
        AdapterCall::AdaptedBodyResume => {
            transaction.inner.adapted_body_resume(host);
            None
        },
        AdapterCall::AdaptedBodyContent { offset, size } => {
            Some(transaction.inner.adapted_body_content(host, offset, size))
        },
        AdapterCall::AdaptedBodyContentShift { size } => {
            transaction.inner.adapted_body_content_shift(host, size);
            None
        },
        AdapterCall::VirginBodyContentDone { at_end } => {
            transaction.inner.virgin_body_content_done(host, at_end);
            None
        },
        AdapterCall::VirginBodyContentAvailable => {
            transaction.inner.virgin_body_content_available(host);
            None
        },
    }
}

impl<K: Host + 'static> CppTranslator<K> {
    /// Does the handle stand for a transaction?
    pub open spec fn has_transaction(&self, data: TransactionPtr) -> bool {
        self.transactions().holds(data)
    }

    /// The transaction that the handle stands for.
    pub open spec fn transaction(&self, data: TransactionPtr) -> BoxedTransaction<K> {
        self.transactions().value(data)
    }

    /// What a call on a transaction comes to, where `before` is the
    /// translator before the call and `host` and `after` the host before
    /// and after it. A handle that stands for nothing gets nothing done,
    /// and neither does a call that the transaction does not take where it
    /// stands. Else the call is made on the transaction, and on no other:
    /// behind the handle is then a transaction of the same kind, which
    /// stands where the call leaves it, and the host is as the call leaves
    /// it.
    pub open spec fn dispatched(
        &self,
        before: &CppTranslator<K>,
        data: TransactionPtr,
        call: AdapterCall,
        host: HostView,
        after: HostView,
        r: Result<Option<Area>, ShimError>,
    ) -> bool {
        &&& self.services() == before.services()
        &&& self.rest_unchanged(before)
        &&& if !before.has_transaction(data) {
            &&& r == Err::<Option<Area>, ShimError>(ShimError::NoSuchHandle)
            &&& self.transactions() == before.transactions()
            &&& after == host
        } else if !before.transaction(data).inner.admits_at(
            before.transaction(data).inner.standing(),
            call,
            host,
        ) {
            &&& r == Err::<Option<Area>, ShimError>(ShimError::Refused)
            &&& self.transactions().same(&before.transactions())
            &&& after == host
        } else {
            &&& r is Ok
            &&& self.has_transaction(data)
            &&& self.transactions().same_but(&before.transactions(), data)
            &&& same_kind(self.transaction(data), before.transaction(data))
            &&& before.transaction(data).inner.moves_at(
                before.transaction(data).inner.standing(),
                call,
                host,
                self.transaction(data).inner.standing(),
                after,
            )
            &&& host.calls.is_prefix_of(after.calls)
            &&& match call {
                AdapterCall::AdaptedBodyContent { offset, size } => r->Ok_0 is Some
                    && r->Ok_0->0@.len() <= size && before.transaction(data).inner.answers_at(
                    before.transaction(data).inner.standing(),
                    host,
                    offset,
                    size,
                    r->Ok_0->0@,
                    after,
                ),
                _ => r->Ok_0 is None,
            }
        }
    }

    /// Does the handle stand for a transaction?
    pub fn to_transaction(&self, data: TransactionPtr) -> (r: bool)
        ensures
            r == self.has_transaction(data),
    {
        self.transactions.contains(data)
    }

    /// Looks the transaction up and makes the call on it, where the
    /// transaction takes the call.
    pub fn dispatch(&mut self, data: TransactionPtr, host: &mut K::Transaction, call: AdapterCall) -> (r:
        Result<Option<Area>, ShimError>)
        ensures
            final(self).dispatched(old(self), data, call, old(host)@, final(host)@, r),
    {
        match self.transactions.get_mut(data) {
            Some(transaction) => {
                if transaction.inner.accepts(call, host) {
                    Ok(make_call(transaction, host, call))
                } else {
                    Err(ShimError::Refused)
                }
            },
            None => Err(ShimError::NoSuchHandle),
        }
    }

    /// Has the service make a transaction for the host's transaction, and
    /// gives the new transaction a handle. The service stays as it is.
    pub fn rust_xaction_create(&mut self, service: ServicePtr, host: &mut K::Transaction) -> (r:
        Result<TransactionPtr, ShimError>)
        ensures
            final(host)@ == old(host)@,
            final(self).rest_unchanged(old(self)),
            !old(self).has_service(service) ==> r == Err::<TransactionPtr, ShimError>(
                ShimError::NoSuchHandle,
            ) && final(self).services() == old(self).services() && final(self).transactions()
                == old(self).transactions(),
            old(self).has_service(service) && !old(self).service(service).inner.ready(
                old(self).settings(service),
            ) ==> {
                &&& r == Err::<TransactionPtr, ShimError>(ShimError::Refused)
                &&& final(self).services().same(&old(self).services())
                &&& final(self).transactions() == old(self).transactions()
            },
            old(self).has_service(service) && old(self).service(service).inner.ready(
                old(self).settings(service),
            ) ==> {
                &&& r is Ok
                &&& !old(self).has_transaction(r->Ok_0)
                &&& !old(self).transactions().dead(r->Ok_0)
                &&& final(self).has_transaction(r->Ok_0)
                &&& old(self).service(service).inner.makes(
                    old(self).settings(service),
                    final(self).transaction(r->Ok_0),
                )
                &&& final(self).transactions().same_but(&old(self).transactions(), r->Ok_0)
                &&& final(self).has_service(service)
                &&& same_service_kind(final(self).service(service), old(self).service(service))
                &&& final(self).settings(service) == old(self).settings(service)
                &&& final(self).services().same_but(&old(self).services(), service)
            },
    {
        let made: Option<BoxedTransaction<K>> = match self.services.get_mut(service) {
            Some(s) => {
                if s.inner.is_ready() {
                    Some(s.inner.make_transaction(host))
                } else {
                    return Err(ShimError::Refused);
                }
            },
            None => {
                return Err(ShimError::NoSuchHandle);
            },
        };
        match made {
            Some(transaction) => Ok(self.transactions.insert(transaction)),
            None => Err(ShimError::NoSuchHandle),
        }
    }

    /// Frees the transaction. Its handle is dead from then on.
    pub fn rust_xaction_free(&mut self, transaction: TransactionPtr) -> (r: Result<(), ShimError>)
        ensures
            final(self).services() == old(self).services(),
            final(self).rest_unchanged(old(self)),
            r == (if old(self).has_transaction(transaction) {
                Ok::<(), ShimError>(())
            } else {
                Err::<(), ShimError>(ShimError::NoSuchHandle)
            }),
            !final(self).has_transaction(transaction),
            old(self).has_transaction(transaction) ==> final(self).transactions().dead(
                transaction,
            ),
            final(self).transactions().same_but(&old(self).transactions(), transaction),
    {
        match self.transactions.remove(transaction) {
            Some(_) => Ok(()),
            None => Err(ShimError::NoSuchHandle),
        }
    }

    /// Asks the transaction for adapted content.
    pub fn rust_xaction_ab_content(
        &mut self,
        data: TransactionPtr,
        host: &mut K::Transaction,
        offset: usize,
        size: usize,
    ) -> (r: Result<Option<Area>, ShimError>)
        ensures
            final(self).dispatched(
                old(self),
                data,
                AdapterCall::AdaptedBodyContent { offset, size },
                old(host)@,
                final(host)@,
                r,
            ),
    {
        self.dispatch(data, host, AdapterCall::AdaptedBodyContent { offset, size })
    }

    /// Tells the transaction that the host has taken adapted content.
    pub fn rust_xaction_ab_content_shift(
        &mut self,
        data: TransactionPtr,
        host: &mut K::Transaction,
        size: usize,
    ) -> (r: Result<Option<Area>, ShimError>)
        ensures
            final(self).dispatched(
                old(self),
                data,
                AdapterCall::AdaptedBodyContentShift { size },
                old(host)@,
                final(host)@,
                r,
            ),
    {
        self.dispatch(data, host, AdapterCall::AdaptedBodyContentShift { size })
    }

    /// Tells the transaction that the virgin body is over.
    pub fn rust_xaction_vb_content_done(
        &mut self,
        data: TransactionPtr,
        host: &mut K::Transaction,
        at_end: bool,
    ) -> (r: Result<Option<Area>, ShimError>)
        ensures
            final(self).dispatched(
                old(self),
                data,
                AdapterCall::VirginBodyContentDone { at_end },
                old(host)@,
                final(host)@,
                r,
            ),
    {
        self.dispatch(data, host, AdapterCall::VirginBodyContentDone { at_end })
    }

    /// Begins the transaction.
    pub fn rust_xaction_start(&mut self, data: TransactionPtr, host: &mut K::Transaction) -> (r: Result<
        Option<Area>,
        ShimError,
    >)
        ensures
            final(self).dispatched(
                old(self),
                data,
                AdapterCall::Start,
                old(host)@,
                final(host)@,
                r,
            ),
    {
        self.dispatch(data, host, AdapterCall::Start)
    }

    /// Ends the transaction.
    pub fn rust_xaction_stop(&mut self, data: TransactionPtr, host: &mut K::Transaction) -> (r: Result<
        Option<Area>,
        ShimError,
    >)
        ensures
            final(self).dispatched(
                old(self),
                data,
                AdapterCall::Stop,
                old(host)@,
                final(host)@,
                r,
            ),
    {
        self.dispatch(data, host, AdapterCall::Stop)
    }

    /// Resumes the transaction.
    pub fn rust_xaction_resume(&mut self, data: TransactionPtr, host: &mut K::Transaction) -> (r: Result<
        Option<Area>,
        ShimError,
    >)
        ensures
            final(self).dispatched(
                old(self),
                data,
                AdapterCall::Resume,
                old(host)@,
                final(host)@,
                r,
            ),
    {
        self.dispatch(data, host, AdapterCall::Resume)
    }

    /// Tells the transaction that the adapted body is not needed.
    pub fn rust_xaction_ab_discard(&mut self, data: TransactionPtr, host: &mut K::Transaction) -> (r: Result<
        Option<Area>,
        ShimError,
    >)
        ensures
            final(self).dispatched(
                old(self),
                data,
                AdapterCall::AdaptedBodyDiscard,
                old(host)@,
                final(host)@,
                r,
            ),
    {
        self.dispatch(data, host, AdapterCall::AdaptedBodyDiscard)
    }

    /// Tells the transaction to make the adapted body.
    pub fn rust_xaction_ab_make(&mut self, data: TransactionPtr, host: &mut K::Transaction) -> (r: Result<
        Option<Area>,
        ShimError,
    >)
        ensures
            final(self).dispatched(
                old(self),
                data,
                AdapterCall::AdaptedBodyMake,
                old(host)@,
                final(host)@,
                r,
            ),
    {
        self.dispatch(data, host, AdapterCall::AdaptedBodyMake)
    }

    /// Tells the transaction to make more of the adapted body.
    pub fn rust_xaction_ab_make_more(&mut self, data: TransactionPtr, host: &mut K::Transaction) -> (r: Result<
        Option<Area>,
        ShimError,
    >)
        ensures
            final(self).dispatched(
                old(self),
                data,
                AdapterCall::AdaptedBodyMakeMore,
                old(host)@,
                final(host)@,
                r,
            ),
    {
        self.dispatch(data, host, AdapterCall::AdaptedBodyMakeMore)
    }

    /// Tells the transaction to make no more of the adapted body.
    pub fn rust_xaction_ab_stop_making(&mut self, data: TransactionPtr, host: &mut K::Transaction) -> (r: Result<
        Option<Area>,
        ShimError,
    >)
        ensures
            final(self).dispatched(
                old(self),
                data,
                AdapterCall::AdaptedBodyStopMaking,
                old(host)@,
                final(host)@,
                r,
            ),
    {
        self.dispatch(data, host, AdapterCall::AdaptedBodyStopMaking)
    }

    /// Tells the transaction to pause making the adapted body.
    pub fn rust_xaction_ab_pause(&mut self, data: TransactionPtr, host: &mut K::Transaction) -> (r: Result<
        Option<Area>,
        ShimError,
    >)
        ensures
            final(self).dispatched(
                old(self),
                data,
                AdapterCall::AdaptedBodyPause,
                old(host)@,
                final(host)@,
                r,
            ),
    {
        self.dispatch(data, host, AdapterCall::AdaptedBodyPause)
    }

    /// Tells the transaction to resume making the adapted body.
    pub fn rust_xaction_ab_resume(&mut self, data: TransactionPtr, host: &mut K::Transaction) -> (r: Result<
        Option<Area>,
        ShimError,
    >)
        ensures
            final(self).dispatched(
                old(self),
                data,
                AdapterCall::AdaptedBodyResume,
                old(host)@,
                final(host)@,
                r,
            ),
    {
        self.dispatch(data, host, AdapterCall::AdaptedBodyResume)
    }

    /// Tells the transaction that more of the virgin body may be there.
    pub fn rust_xaction_vb_content_available(&mut self, data: TransactionPtr, host: &mut K::Transaction) -> (r: Result<
        Option<Area>,
        ShimError,
    >)
        ensures
            final(self).dispatched(
                old(self),
                data,
                AdapterCall::VirginBodyContentAvailable,
                old(host)@,
                final(host)@,
                r,
            ),
    {
        self.dispatch(data, host, AdapterCall::VirginBodyContentAvailable)
    }
}

} // verus!
