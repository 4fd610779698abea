//! Services and transactions kept without their types.
//!
//! A host keeps the adapters it drives behind handles, whatever types the
//! adapters are made of. The traits here are those of [`crate::adapter`]
//! with the types taken out of the signatures, and every adapter has them.
use vstd::prelude::*;
use crate::adapter::service::{Service as AdapterService, Settings};
use crate::adapter::protocol::Standing;
use crate::adapter::transaction::{AdapterCall, Transaction as AdapterTransaction};
use crate::common::area::Area;
use crate::common::named_values::Fields;
use crate::common::options::Options;
use crate::common::timeout::Timeout;
use crate::host::host::{Host, HostTag};
use crate::host::transaction::{HostView, Transaction as HostTransaction};
use crate::Translator;

verus! {

/// An adapter transaction of any type, for the host `K`. The methods are
/// those of [`crate::adapter::Transaction`].
///
/// What a transaction takes and does goes by its kind and by where it
/// stands. A call changes where the transaction stands, never its kind:
/// `admits_at`, `answers_at` and `moves_at` are after a call what they were
/// before.
pub trait Transaction<K: Host> {
    /// What the transaction stands at.
    spec fn standing(&self) -> Standing;

    /// Does a transaction of this kind take the call where it stands at
    /// `at`?
    spec fn admits_at(&self, at: Standing, call: AdapterCall, host: HostView) -> bool;

    /// May `adapted_body_content` of a transaction of this kind that
    /// stands at `at` give `content` and leave the host as in `after`?
    spec fn answers_at(
        &self,
        at: Standing,
        host: HostView,
        offset: usize,
        size: usize,
        content: Seq<u8>,
        after: HostView,
    ) -> bool;

    /// May the call leave a transaction of this kind that stands at `at`
    /// at `next`, and the host as in `after`?
    spec fn moves_at(
        &self,
        at: Standing,
        call: AdapterCall,
        host: HostView,
        next: Standing,
        after: HostView,
    ) -> bool;

    fn accepts(&self, call: AdapterCall, host: &mut K::Transaction) -> (r: bool)
        ensures
            r == self.admits_at(self.standing(), call, old(host)@),
            final(host)@ == old(host)@,
    ;

    fn start(&mut self, host: &mut K::Transaction)
        requires
            old(self).admits_at(old(self).standing(), AdapterCall::Start, old(host)@),
        ensures
            old(self).moves_at(
                old(self).standing(),
                AdapterCall::Start,
                old(host)@,
                final(self).standing(),
                final(host)@,
            ),
            forall|at: Standing, call: AdapterCall, host: HostView| #[trigger]
                final(self).admits_at(at, call, host) == old(self).admits_at(at, call, host),
            forall|
                at: Standing,
                host: HostView,
                offset: usize,
                size: usize,
                content: Seq<u8>,
                after: HostView,
            | #[trigger]
                final(self).answers_at(at, host, offset, size, content, after)
                    == old(self).answers_at(at, host, offset, size, content, after),
            forall|
                at: Standing,
                call: AdapterCall,
                host: HostView,
                next: Standing,
                after: HostView,
            | #[trigger]
                final(self).moves_at(at, call, host, next, after) == old(self).moves_at(
                    at,
                    call,
                    host,
                    next,
                    after,
                ),
            old(host)@.calls.is_prefix_of(final(host)@.calls),
    ;

    fn stop(&mut self, host: &mut K::Transaction)
        requires
            old(self).admits_at(old(self).standing(), AdapterCall::Stop, old(host)@),
        ensures
            old(self).moves_at(
                old(self).standing(),
                AdapterCall::Stop,
                old(host)@,
                final(self).standing(),
                final(host)@,
            ),
            forall|at: Standing, call: AdapterCall, host: HostView| #[trigger]
                final(self).admits_at(at, call, host) == old(self).admits_at(at, call, host),
            forall|
                at: Standing,
                host: HostView,
                offset: usize,
                size: usize,
                content: Seq<u8>,
                after: HostView,
            | #[trigger]
                final(self).answers_at(at, host, offset, size, content, after)
                    == old(self).answers_at(at, host, offset, size, content, after),
            forall|
                at: Standing,
                call: AdapterCall,
                host: HostView,
                next: Standing,
                after: HostView,
            | #[trigger]
                final(self).moves_at(at, call, host, next, after) == old(self).moves_at(
                    at,
                    call,
                    host,
                    next,
                    after,
                ),
            old(host)@.calls.is_prefix_of(final(host)@.calls),
    ;

    fn resume(&mut self, host: &mut K::Transaction)
        requires
            old(self).admits_at(old(self).standing(), AdapterCall::Resume, old(host)@),
        ensures
            old(self).moves_at(
                old(self).standing(),
                AdapterCall::Resume,
                old(host)@,
                final(self).standing(),
                final(host)@,
            ),
            forall|at: Standing, call: AdapterCall, host: HostView| #[trigger]
                final(self).admits_at(at, call, host) == old(self).admits_at(at, call, host),
            forall|
                at: Standing,
                host: HostView,
                offset: usize,
                size: usize,
                content: Seq<u8>,
                after: HostView,
            | #[trigger]
                final(self).answers_at(at, host, offset, size, content, after)
                    == old(self).answers_at(at, host, offset, size, content, after),
            forall|
                at: Standing,
                call: AdapterCall,
                host: HostView,
                next: Standing,
                after: HostView,
            | #[trigger]
                final(self).moves_at(at, call, host, next, after) == old(self).moves_at(
                    at,
                    call,
                    host,
                    next,
                    after,
                ),
            old(host)@.calls.is_prefix_of(final(host)@.calls),
    ;

    fn adapted_body_discard(&mut self, host: &mut K::Transaction)
        requires
            old(self).admits_at(old(self).standing(), AdapterCall::AdaptedBodyDiscard, old(host)@),
        ensures
            old(self).moves_at(
                old(self).standing(),
                AdapterCall::AdaptedBodyDiscard,
                old(host)@,
                final(self).standing(),
                final(host)@,
            ),
            forall|at: Standing, call: AdapterCall, host: HostView| #[trigger]
                final(self).admits_at(at, call, host) == old(self).admits_at(at, call, host),
            forall|
                at: Standing,
                host: HostView,
                offset: usize,
                size: usize,
                content: Seq<u8>,
                after: HostView,
            | #[trigger]
                final(self).answers_at(at, host, offset, size, content, after)
                    == old(self).answers_at(at, host, offset, size, content, after),
            forall|
                at: Standing,
                call: AdapterCall,
                host: HostView,
                next: Standing,
                after: HostView,
            | #[trigger]
                final(self).moves_at(at, call, host, next, after) == old(self).moves_at(
                    at,
                    call,
                    host,
                    next,
                    after,
                ),
            old(host)@.calls.is_prefix_of(final(host)@.calls),
    ;

    fn adapted_body_make(&mut self, host: &mut K::Transaction)
        requires
            old(self).admits_at(old(self).standing(), AdapterCall::AdaptedBodyMake, old(host)@),
        ensures
            old(self).moves_at(
                old(self).standing(),
                AdapterCall::AdaptedBodyMake,
                old(host)@,
                final(self).standing(),
                final(host)@,
            ),
            forall|at: Standing, call: AdapterCall, host: HostView| #[trigger]
                final(self).admits_at(at, call, host) == old(self).admits_at(at, call, host),
            forall|
                at: Standing,
                host: HostView,
                offset: usize,
                size: usize,
                content: Seq<u8>,
                after: HostView,
            | #[trigger]
                final(self).answers_at(at, host, offset, size, content, after)
                    == old(self).answers_at(at, host, offset, size, content, after),
            forall|
                at: Standing,
                call: AdapterCall,
                host: HostView,
                next: Standing,
                after: HostView,
            | #[trigger]
                final(self).moves_at(at, call, host, next, after) == old(self).moves_at(
                    at,
                    call,
                    host,
                    next,
                    after,
                ),
            old(host)@.calls.is_prefix_of(final(host)@.calls),
    ;

    fn adapted_body_make_more(&mut self, host: &mut K::Transaction)
        requires
            old(self).admits_at(old(self).standing(), AdapterCall::AdaptedBodyMakeMore, old(host)@),
        ensures
            old(self).moves_at(
                old(self).standing(),
                AdapterCall::AdaptedBodyMakeMore,
                old(host)@,
                final(self).standing(),
                final(host)@,
            ),
            forall|at: Standing, call: AdapterCall, host: HostView| #[trigger]
                final(self).admits_at(at, call, host) == old(self).admits_at(at, call, host),
            forall|
                at: Standing,
                host: HostView,
                offset: usize,
                size: usize,
                content: Seq<u8>,
                after: HostView,
            | #[trigger]
                final(self).answers_at(at, host, offset, size, content, after)
                    == old(self).answers_at(at, host, offset, size, content, after),
            forall|
                at: Standing,
                call: AdapterCall,
                host: HostView,
                next: Standing,
                after: HostView,
            | #[trigger]
                final(self).moves_at(at, call, host, next, after) == old(self).moves_at(
                    at,
                    call,
                    host,
                    next,
                    after,
                ),
            old(host)@.calls.is_prefix_of(final(host)@.calls),
    ;

    fn adapted_body_stop_making(&mut self, host: &mut K::Transaction)
        requires
            old(self).admits_at(old(self).standing(), AdapterCall::AdaptedBodyStopMaking, old(host)@),
        ensures
            old(self).moves_at(
                old(self).standing(),
                AdapterCall::AdaptedBodyStopMaking,
                old(host)@,
                final(self).standing(),
                final(host)@,
            ),
            forall|at: Standing, call: AdapterCall, host: HostView| #[trigger]
                final(self).admits_at(at, call, host) == old(self).admits_at(at, call, host),
            forall|
                at: Standing,
                host: HostView,
                offset: usize,
                size: usize,
                content: Seq<u8>,
                after: HostView,
            | #[trigger]
                final(self).answers_at(at, host, offset, size, content, after)
                    == old(self).answers_at(at, host, offset, size, content, after),
            forall|
                at: Standing,
                call: AdapterCall,
                host: HostView,
                next: Standing,
                after: HostView,
            | #[trigger]
                final(self).moves_at(at, call, host, next, after) == old(self).moves_at(
                    at,
                    call,
                    host,
                    next,
                    after,
                ),
            old(host)@.calls.is_prefix_of(final(host)@.calls),
    ;

    fn adapted_body_pause(&mut self, host: &mut K::Transaction)
        requires
            old(self).admits_at(old(self).standing(), AdapterCall::AdaptedBodyPause, old(host)@),
        ensures
            old(self).moves_at(
                old(self).standing(),
                AdapterCall::AdaptedBodyPause,
                old(host)@,
                final(self).standing(),
                final(host)@,
            ),
            forall|at: Standing, call: AdapterCall, host: HostView| #[trigger]
                final(self).admits_at(at, call, host) == old(self).admits_at(at, call, host),
            forall|
                at: Standing,
                host: HostView,
                offset: usize,
                size: usize,
                content: Seq<u8>,
                after: HostView,
            | #[trigger]
                final(self).answers_at(at, host, offset, size, content, after)
                    == old(self).answers_at(at, host, offset, size, content, after),
            forall|
                at: Standing,
                call: AdapterCall,
                host: HostView,
                next: Standing,
                after: HostView,
            | #[trigger]
                final(self).moves_at(at, call, host, next, after) == old(self).moves_at(
                    at,
                    call,
                    host,
                    next,
                    after,
                ),
            old(host)@.calls.is_prefix_of(final(host)@.calls),
    ;

    fn adapted_body_resume(&mut self, host: &mut K::Transaction)
        requires
            old(self).admits_at(old(self).standing(), AdapterCall::AdaptedBodyResume, old(host)@),
        ensures
            old(self).moves_at(
                old(self).standing(),
                AdapterCall::AdaptedBodyResume,
                old(host)@,
                final(self).standing(),
                final(host)@,
            ),
            forall|at: Standing, call: AdapterCall, host: HostView| #[trigger]
                final(self).admits_at(at, call, host) == old(self).admits_at(at, call, host),
            forall|
                at: Standing,
                host: HostView,
                offset: usize,
                size: usize,
                content: Seq<u8>,
                after: HostView,
            | #[trigger]
                final(self).answers_at(at, host, offset, size, content, after)
                    == old(self).answers_at(at, host, offset, size, content, after),
            forall|
                at: Standing,
                call: AdapterCall,
                host: HostView,
                next: Standing,
                after: HostView,
            | #[trigger]
                final(self).moves_at(at, call, host, next, after) == old(self).moves_at(
                    at,
                    call,
                    host,
                    next,
                    after,
                ),
            old(host)@.calls.is_prefix_of(final(host)@.calls),
    ;

    fn adapted_body_content(&mut self, host: &mut K::Transaction, offset: usize, size: usize) -> (r:
        Area)
        requires
            old(self).admits_at(
                old(self).standing(),
                AdapterCall::AdaptedBodyContent { offset, size },
                old(host)@,
            ),
        ensures
            r@.len() <= size,
            old(self).answers_at(old(self).standing(), old(host)@, offset, size, r@, final(host)@),
            old(self).moves_at(
                old(self).standing(),
                AdapterCall::AdaptedBodyContent { offset, size },
                old(host)@,
                final(self).standing(),
                final(host)@,
            ),
            forall|at: Standing, call: AdapterCall, host: HostView| #[trigger]
                final(self).admits_at(at, call, host) == old(self).admits_at(at, call, host),
            forall|
                at: Standing,
                host: HostView,
                offset: usize,
                size: usize,
                content: Seq<u8>,
                after: HostView,
            | #[trigger]
                final(self).answers_at(at, host, offset, size, content, after)
                    == old(self).answers_at(at, host, offset, size, content, after),
            forall|
                at: Standing,
                call: AdapterCall,
                host: HostView,
                next: Standing,
                after: HostView,
            | #[trigger]
                final(self).moves_at(at, call, host, next, after) == old(self).moves_at(
                    at,
                    call,
                    host,
                    next,
                    after,
                ),
            old(host)@.calls.is_prefix_of(final(host)@.calls),
    ;

    fn adapted_body_content_shift(&mut self, host: &mut K::Transaction, size: usize)
        requires
            old(self).admits_at(old(self).standing(), AdapterCall::AdaptedBodyContentShift { size }, old(host)@),
        ensures
            old(self).moves_at(
                old(self).standing(),
                AdapterCall::AdaptedBodyContentShift { size },
                old(host)@,
                final(self).standing(),
                final(host)@,
            ),
            forall|at: Standing, call: AdapterCall, host: HostView| #[trigger]
                final(self).admits_at(at, call, host) == old(self).admits_at(at, call, host),
            forall|
                at: Standing,
                host: HostView,
                offset: usize,
                size: usize,
                content: Seq<u8>,
                after: HostView,
            | #[trigger]
                final(self).answers_at(at, host, offset, size, content, after)
                    == old(self).answers_at(at, host, offset, size, content, after),
            forall|
                at: Standing,
                call: AdapterCall,
                host: HostView,
                next: Standing,
                after: HostView,
            | #[trigger]
                final(self).moves_at(at, call, host, next, after) == old(self).moves_at(
                    at,
                    call,
                    host,
                    next,
                    after,
                ),
            old(host)@.calls.is_prefix_of(final(host)@.calls),
    ;

    fn virgin_body_content_done(&mut self, host: &mut K::Transaction, at_end: bool)
        requires
            old(self).admits_at(old(self).standing(), AdapterCall::VirginBodyContentDone { at_end }, old(host)@),
        ensures
            old(self).moves_at(
                old(self).standing(),
                AdapterCall::VirginBodyContentDone { at_end },
                old(host)@,
                final(self).standing(),
                final(host)@,
            ),
            forall|at: Standing, call: AdapterCall, host: HostView| #[trigger]
                final(self).admits_at(at, call, host) == old(self).admits_at(at, call, host),
            forall|
                at: Standing,
                host: HostView,
                offset: usize,
                size: usize,
                content: Seq<u8>,
                after: HostView,
            | #[trigger]
                final(self).answers_at(at, host, offset, size, content, after)
                    == old(self).answers_at(at, host, offset, size, content, after),
            forall|
                at: Standing,
                call: AdapterCall,
                host: HostView,
                next: Standing,
                after: HostView,
            | #[trigger]
                final(self).moves_at(at, call, host, next, after) == old(self).moves_at(
                    at,
                    call,
                    host,
                    next,
                    after,
                ),
            old(host)@.calls.is_prefix_of(final(host)@.calls),
    ;

    fn virgin_body_content_available(&mut self, host: &mut K::Transaction)
        requires
            old(self).admits_at(old(self).standing(), AdapterCall::VirginBodyContentAvailable, old(host)@),
        ensures
            old(self).moves_at(
                old(self).standing(),
                AdapterCall::VirginBodyContentAvailable,
                old(host)@,
                final(self).standing(),
                final(host)@,
            ),
            forall|at: Standing, call: AdapterCall, host: HostView| #[trigger]
                final(self).admits_at(at, call, host) == old(self).admits_at(at, call, host),
            forall|
                at: Standing,
                host: HostView,
                offset: usize,
                size: usize,
                content: Seq<u8>,
                after: HostView,
            | #[trigger]
                final(self).answers_at(at, host, offset, size, content, after)
                    == old(self).answers_at(at, host, offset, size, content, after),
            forall|
                at: Standing,
                call: AdapterCall,
                host: HostView,
                next: Standing,
                after: HostView,
            | #[trigger]
                final(self).moves_at(at, call, host, next, after) == old(self).moves_at(
                    at,
                    call,
                    host,
                    next,
                    after,
                ),
            old(host)@.calls.is_prefix_of(final(host)@.calls),
    ;
}

impl<K: Host, U: AdapterTransaction<K>> Transaction<K> for U {
    open spec fn standing(&self) -> Standing {
        <U as AdapterTransaction<K>>::standing(self)
    }

    open spec fn admits_at(&self, at: Standing, call: AdapterCall, host: HostView) -> bool {
        <U as AdapterTransaction<K>>::admits(at, call, host)
    }

    open spec fn answers_at(
        &self,
        at: Standing,
        host: HostView,
        offset: usize,
        size: usize,
        content: Seq<u8>,
        after: HostView,
    ) -> bool {
        <U as AdapterTransaction<K>>::answers(at, host, offset, size, content, after)
    }

    open spec fn moves_at(
        &self,
        at: Standing,
        call: AdapterCall,
        host: HostView,
        next: Standing,
        after: HostView,
    ) -> bool {
        <U as AdapterTransaction<K>>::leaves(at, call, host, next, after)
    }

    fn accepts(&self, call: AdapterCall, host: &mut K::Transaction) -> (r: bool) {
        <U as AdapterTransaction<K>>::accepts(self, call, host)
    }

    fn start(&mut self, host: &mut K::Transaction) {
        <U as AdapterTransaction<K>>::start(self, host)
    }

    fn stop(&mut self, host: &mut K::Transaction) {
        <U as AdapterTransaction<K>>::stop(self, host)
    }

    fn resume(&mut self, host: &mut K::Transaction) {
        <U as AdapterTransaction<K>>::resume(self, host)
    }

    fn adapted_body_discard(&mut self, host: &mut K::Transaction) {
        <U as AdapterTransaction<K>>::adapted_body_discard(self, host)
    }

    fn adapted_body_make(&mut self, host: &mut K::Transaction) {
        <U as AdapterTransaction<K>>::adapted_body_make(self, host)
    }

    fn adapted_body_make_more(&mut self, host: &mut K::Transaction) {
        <U as AdapterTransaction<K>>::adapted_body_make_more(self, host)
    }

    fn adapted_body_stop_making(&mut self, host: &mut K::Transaction) {
        <U as AdapterTransaction<K>>::adapted_body_stop_making(self, host)
    }

    fn adapted_body_pause(&mut self, host: &mut K::Transaction) {
        <U as AdapterTransaction<K>>::adapted_body_pause(self, host)
    }

    fn adapted_body_resume(&mut self, host: &mut K::Transaction) {
        <U as AdapterTransaction<K>>::adapted_body_resume(self, host)
    }

    fn adapted_body_content(&mut self, host: &mut K::Transaction, offset: usize, size: usize) -> (r:
        Area) {
        <U as AdapterTransaction<K>>::adapted_body_content(self, host, offset, size)
    }

    fn adapted_body_content_shift(&mut self, host: &mut K::Transaction, size: usize) {
        <U as AdapterTransaction<K>>::adapted_body_content_shift(self, host, size)
    }

    fn virgin_body_content_done(&mut self, host: &mut K::Transaction, at_end: bool) {
        <U as AdapterTransaction<K>>::virgin_body_content_done(self, host, at_end)
    }

    fn virgin_body_content_available(&mut self, host: &mut K::Transaction) {
        <U as AdapterTransaction<K>>::virgin_body_content_available(self, host)
    }
}

/// A transaction without its type.
#[verifier::reject_recursive_types(K)]
pub struct BoxedTransaction<K: Host> {
    pub inner: Box<dyn Transaction<K>>,
}

/// A service without its type.
#[verifier::reject_recursive_types(K)]
pub struct BoxedService<K: Host> {
    pub inner: Box<dyn Service<K>>,
}

/// `made` with its type taken away.
pub open spec fn boxed_of<K: Host + 'static, U: AdapterTransaction<K> + 'static>(
    made: U,
) -> BoxedTransaction<K> {
    BoxedTransaction { inner: Box::new(made) }
}

/// Is `after` of the kind of `before`: does it take and do, wherever it
/// stands, what `before` does there?
pub open spec fn same_kind<K: Host>(after: BoxedTransaction<K>, before: BoxedTransaction<K>) -> bool {
    &&& forall|at: Standing, call: AdapterCall, host: HostView| #[trigger]
        after.inner.admits_at(at, call, host) == before.inner.admits_at(at, call, host)
    &&& forall|
        at: Standing,
        host: HostView,
        offset: usize,
        size: usize,
        content: Seq<u8>,
        then: HostView,
    | #[trigger]
        after.inner.answers_at(at, host, offset, size, content, then) == before.inner.answers_at(
            at,
            host,
            offset,
            size,
            content,
            then,
        )
    &&& forall|at: Standing, call: AdapterCall, host: HostView, next: Standing, then: HostView|
     #[trigger]
        after.inner.moves_at(at, call, host, next, then) == before.inner.moves_at(
            at,
            call,
            host,
            next,
            then,
        )
}

/// What a list of services holds, in contracts.
pub type Services<K> = Seq<BoxedService<K>>;

/// An adapter service of any type, for the host `K`. The methods are those
/// of [`crate::adapter::Service`].
///
/// What a service answers and does goes by its kind and its settings. A
/// call may change the settings, never the kind: the spec functions are
/// after a call what they were before.
pub trait Service<K: Host> {
    /// What the service is configured with.
    spec fn settings(&self) -> Settings;

    spec fn spec_uri(&self, at: Settings) -> Seq<char>;

    spec fn spec_tag(&self, at: Settings) -> Seq<char>;

    spec fn spec_describe(&self, at: Settings) -> Seq<char>;

    spec fn spec_is_async(&self, at: Settings) -> bool;

    /// Does a service of this kind with the settings `at` take this
    /// configuration?
    spec fn admits_options(&self, at: Settings, entries: Fields, again: bool) -> bool;

    /// May a service of this kind with the settings `at`, configured with
    /// `entries`, have the settings `next`?
    spec fn configures(&self, at: Settings, entries: Fields, again: bool, next: Settings) -> bool;

    /// Is a service of this kind with the settings `at` configured, so
    /// that it can make transactions?
    spec fn ready(&self, at: Settings) -> bool;

    /// Is `transaction` what a service of this kind with the settings `at`
    /// makes?
    spec fn makes(&self, at: Settings, transaction: BoxedTransaction<K>) -> bool;

    /// Does a service of this kind with the settings `at` want the
    /// messages of this URL?
    spec fn spec_wants_url(&self, at: Settings, url: Seq<u8>) -> bool;

    /// May a service of this kind with the settings `at`, asked to suspend
    /// for `before`, answer `after`?
    spec fn suspends(&self, at: Settings, before: Timeout, after: Timeout) -> bool;

    fn uri(&self) -> (r: String)
        ensures
            r@ == self.spec_uri(self.settings()),
    ;

    fn tag(&self) -> (r: String)
        ensures
            r@ == self.spec_tag(self.settings()),
    ;

    fn describe(&self) -> (r: String)
        ensures
            r@ == self.spec_describe(self.settings()),
    ;

    fn is_async(&self) -> (r: bool)
        ensures
            r == self.spec_is_async(self.settings()),
    ;

    fn is_ready(&self) -> (r: bool)
        ensures
            r == self.ready(self.settings()),
    ;

    fn accepts_options(&self, options: &K::Options, again: bool) -> (r: bool)
        ensures
            r == self.admits_options(self.settings(), options.entries(), again),
    ;

    fn configure(&mut self, options: &K::Options)
        requires
            old(self).admits_options(old(self).settings(), options.entries(), false),
        ensures
            old(self).configures(
                old(self).settings(),
                options.entries(),
                false,
                final(self).settings(),
            ),
            final(self).ready(final(self).settings()),
            forall|at: Settings| #[trigger]
                final(self).spec_uri(at) == old(self).spec_uri(at),
            forall|at: Settings| #[trigger]
                final(self).spec_tag(at) == old(self).spec_tag(at),
            forall|at: Settings| #[trigger]
                final(self).spec_describe(at) == old(self).spec_describe(at),
            forall|at: Settings| #[trigger]
                final(self).spec_is_async(at) == old(self).spec_is_async(at),
            forall|at: Settings, entries: Fields, again: bool| #[trigger]
                final(self).admits_options(at, entries, again) == old(self).admits_options(at, entries, again),
            forall|at: Settings, entries: Fields, again: bool, next: Settings| #[trigger]
                final(self).configures(at, entries, again, next) == old(self).configures(at, entries, again, next),
            forall|at: Settings| #[trigger]
                final(self).ready(at) == old(self).ready(at),
            forall|at: Settings, transaction: BoxedTransaction<K>| #[trigger]
                final(self).makes(at, transaction) == old(self).makes(at, transaction),
            forall|at: Settings, url: Seq<u8>| #[trigger]
                final(self).spec_wants_url(at, url) == old(self).spec_wants_url(at, url),
            forall|at: Settings, before: Timeout, after: Timeout| #[trigger]
                final(self).suspends(at, before, after) == old(self).suspends(at, before, after),
    ;

    fn reconfigure(&mut self, options: &K::Options)
        requires
            old(self).admits_options(old(self).settings(), options.entries(), true),
        ensures
            old(self).configures(
                old(self).settings(),
                options.entries(),
                true,
                final(self).settings(),
            ),
            final(self).ready(final(self).settings()),
            forall|at: Settings| #[trigger]
                final(self).spec_uri(at) == old(self).spec_uri(at),
            forall|at: Settings| #[trigger]
                final(self).spec_tag(at) == old(self).spec_tag(at),
            forall|at: Settings| #[trigger]
                final(self).spec_describe(at) == old(self).spec_describe(at),
            forall|at: Settings| #[trigger]
                final(self).spec_is_async(at) == old(self).spec_is_async(at),
            forall|at: Settings, entries: Fields, again: bool| #[trigger]
                final(self).admits_options(at, entries, again) == old(self).admits_options(at, entries, again),
            forall|at: Settings, entries: Fields, again: bool, next: Settings| #[trigger]
                final(self).configures(at, entries, again, next) == old(self).configures(at, entries, again, next),
            forall|at: Settings| #[trigger]
                final(self).ready(at) == old(self).ready(at),
            forall|at: Settings, transaction: BoxedTransaction<K>| #[trigger]
                final(self).makes(at, transaction) == old(self).makes(at, transaction),
            forall|at: Settings, url: Seq<u8>| #[trigger]
                final(self).spec_wants_url(at, url) == old(self).spec_wants_url(at, url),
            forall|at: Settings, before: Timeout, after: Timeout| #[trigger]
                final(self).suspends(at, before, after) == old(self).suspends(at, before, after),
    ;

    fn start(&self);

    fn suspend(&self, timeout: &mut Timeout)
        ensures
            self.suspends(self.settings(), *old(timeout), *final(timeout)),
            final(timeout).micros() <= old(timeout).micros(),
    ;

    fn resume(&self);

    fn stop(&self);

    fn retire(&self);

    fn wants_url(&self, url: &[u8]) -> (r: bool)
        ensures
            r == self.spec_wants_url(self.settings(), url@),
    ;

    /// Makes a transaction and takes its type away. The service keeps its
    /// settings.
    fn make_transaction(&mut self, host: &mut K::Transaction) -> (r: BoxedTransaction<K>)
        requires
            old(self).ready(old(self).settings()),
        ensures
            old(self).makes(old(self).settings(), r),
            final(self).settings() == old(self).settings(),
            final(host)@ == old(host)@,
            forall|at: Settings| #[trigger]
                final(self).spec_uri(at) == old(self).spec_uri(at),
            forall|at: Settings| #[trigger]
                final(self).spec_tag(at) == old(self).spec_tag(at),
            forall|at: Settings| #[trigger]
                final(self).spec_describe(at) == old(self).spec_describe(at),
            forall|at: Settings| #[trigger]
                final(self).spec_is_async(at) == old(self).spec_is_async(at),
            forall|at: Settings, entries: Fields, again: bool| #[trigger]
                final(self).admits_options(at, entries, again) == old(self).admits_options(at, entries, again),
            forall|at: Settings, entries: Fields, again: bool, next: Settings| #[trigger]
                final(self).configures(at, entries, again, next) == old(self).configures(at, entries, again, next),
            forall|at: Settings| #[trigger]
                final(self).ready(at) == old(self).ready(at),
            forall|at: Settings, transaction: BoxedTransaction<K>| #[trigger]
                final(self).makes(at, transaction) == old(self).makes(at, transaction),
            forall|at: Settings, url: Seq<u8>| #[trigger]
                final(self).spec_wants_url(at, url) == old(self).spec_wants_url(at, url),
            forall|at: Settings, before: Timeout, after: Timeout| #[trigger]
                final(self).suspends(at, before, after) == old(self).suspends(at, before, after),
    ;
}

impl<K: Host + 'static, S: AdapterService<K>> Service<K> for S where S::Transaction: 'static {
    open spec fn settings(&self) -> Settings {
        <S as AdapterService<K>>::settings(self)
    }

    open spec fn spec_uri(&self, at: Settings) -> Seq<char> {
        <S as AdapterService<K>>::spec_uri(at)
    }

    open spec fn spec_tag(&self, at: Settings) -> Seq<char> {
        <S as AdapterService<K>>::spec_tag(at)
    }

    open spec fn spec_describe(&self, at: Settings) -> Seq<char> {
        <S as AdapterService<K>>::spec_describe(at)
    }

    open spec fn spec_is_async(&self, at: Settings) -> bool {
        <S as AdapterService<K>>::spec_is_async(at)
    }

    open spec fn admits_options(&self, at: Settings, entries: Fields, again: bool) -> bool {
        <S as AdapterService<K>>::admits_options(at, entries, again)
    }

    open spec fn configures(&self, at: Settings, entries: Fields, again: bool, next: Settings) -> bool {
        <S as AdapterService<K>>::configures(at, entries, again, next)
    }

    open spec fn ready(&self, at: Settings) -> bool {
        <S as AdapterService<K>>::ready(at)
    }

    /// The transaction is one that the service makes, with its type taken
    /// away.
    open spec fn makes(&self, at: Settings, transaction: BoxedTransaction<K>) -> bool {
        exists|made: S::Transaction| #[trigger]
            <S as AdapterService<K>>::makes(
                at,
                <S::Transaction as AdapterTransaction<K>>::standing(&made),
            ) && transaction == boxed_of::<
                K,
                S::Transaction,
            >(made)
    }

    open spec fn spec_wants_url(&self, at: Settings, url: Seq<u8>) -> bool {
        <S as AdapterService<K>>::spec_wants_url(at, url)
    }

    open spec fn suspends(&self, at: Settings, before: Timeout, after: Timeout) -> bool {
        <S as AdapterService<K>>::suspends(at, before, after)
    }

    fn uri(&self) -> (r: String) {
        <S as AdapterService<K>>::uri(self)
    }

    fn tag(&self) -> (r: String) {
        <S as AdapterService<K>>::tag(self)
    }

    fn describe(&self) -> (r: String) {
        <S as AdapterService<K>>::describe(self)
    }

    fn is_async(&self) -> (r: bool) {
        <S as AdapterService<K>>::is_async(self)
    }

    fn is_ready(&self) -> (r: bool) {
        <S as AdapterService<K>>::is_ready(self)
    }

    fn accepts_options(&self, options: &K::Options, again: bool) -> (r: bool) {
        <S as AdapterService<K>>::accepts_options(self, options, again)
    }

    fn configure(&mut self, options: &K::Options) {
        <S as AdapterService<K>>::configure(self, options)
    }

    fn reconfigure(&mut self, options: &K::Options) {
        <S as AdapterService<K>>::reconfigure(self, options)
    }

    fn start(&self) {
        <S as AdapterService<K>>::start(self)
    }

    fn suspend(&self, timeout: &mut Timeout) {
        <S as AdapterService<K>>::suspend(self, timeout)
    }

    fn resume(&self) {
        <S as AdapterService<K>>::resume(self)
    }

    fn stop(&self) {
        <S as AdapterService<K>>::stop(self)
    }

    fn retire(&self) {
        <S as AdapterService<K>>::retire(self)
    }

    fn wants_url(&self, url: &[u8]) -> (r: bool) {
        <S as AdapterService<K>>::wants_url(self, url)
    }

    fn make_transaction(&mut self, host: &mut K::Transaction) -> (r: BoxedTransaction<K>) {
        let made: S::Transaction = <S as AdapterService<K>>::make_transaction(self, host);
        let boxed: BoxedTransaction<K> = BoxedTransaction { inner: Box::new(made) };
        assert(boxed == boxed_of::<K, S::Transaction>(made));
        boxed
    }
}

/// `s` with its type taken away.
pub open spec fn boxed_service_of<K: Host + 'static, S: Service<K> + 'static>(
    s: S,
) -> BoxedService<K> {
    BoxedService { inner: Box::new(s) }
}

/// Is `later` of the kind of `earlier`: does it answer and do, whatever
/// its settings, what `earlier` does with them?
pub open spec fn same_service_kind<K: Host>(
    later: BoxedService<K>,
    earlier: BoxedService<K>,
) -> bool {
    &&& forall|at: Settings| #[trigger]
        later.inner.spec_uri(at) == earlier.inner.spec_uri(at)
    &&& forall|at: Settings| #[trigger]
        later.inner.spec_tag(at) == earlier.inner.spec_tag(at)
    &&& forall|at: Settings| #[trigger]
        later.inner.spec_describe(at) == earlier.inner.spec_describe(at)
    &&& forall|at: Settings| #[trigger]
        later.inner.spec_is_async(at) == earlier.inner.spec_is_async(at)
    &&& forall|at: Settings, entries: Fields, again: bool| #[trigger]
        later.inner.admits_options(at, entries, again) == earlier.inner.admits_options(at, entries, again)
    &&& forall|at: Settings, entries: Fields, again: bool, next: Settings| #[trigger]
        later.inner.configures(at, entries, again, next) == earlier.inner.configures(at, entries, again, next)
    &&& forall|at: Settings| #[trigger]
        later.inner.ready(at) == earlier.inner.ready(at)
    &&& forall|at: Settings, transaction: BoxedTransaction<K>| #[trigger]
        later.inner.makes(at, transaction) == earlier.inner.makes(at, transaction)
    &&& forall|at: Settings, url: Seq<u8>| #[trigger]
        later.inner.spec_wants_url(at, url) == earlier.inner.spec_wants_url(at, url)
    &&& forall|at: Settings, before: Timeout, after: Timeout| #[trigger]
        later.inner.suspends(at, before, after) == earlier.inner.suspends(at, before, after)
}

/// A service without its type, with the tag of the host that it was erased
/// for. Whoever takes the service out says which host it expects, and gets
/// the service only where that is the host of the tag.
#[verifier::reject_recursive_types(K)]
pub struct ErasedService<K: Host> {
    service: BoxedService<K>,
    host: HostTag,
}

impl<K: Host + 'static> ErasedService<K> {
    /// The tag of the host that the service was erased for.
    pub closed spec fn host(&self) -> HostTag {
        self.host
    }

    /// The service.
    pub closed spec fn service(&self) -> BoxedService<K> {
        self.service
    }

    /// Takes the type of `s` away, and notes the host `H`.
    pub fn new<H: Host, S: Service<K> + 'static>(s: S) -> (r: ErasedService<K>)
        ensures
            r.host() == H::spec_tag(),
            r.service() == boxed_service_of::<K, S>(s),
            r.service().inner.settings() == s.settings(),
    {
        let service: BoxedService<K> = BoxedService { inner: Box::new(s) };
        assert(service == boxed_service_of::<K, S>(s));
        ErasedService { service, host: H::tag() }
    }

    /// The tag of the host that the service was erased for.
    pub fn host_tag(&self) -> (t: HostTag)
        ensures
            t == self.host(),
    {
        self.host
    }

    /// Was the service erased for the host `H`?
    pub fn is_for<H: Host>(&self) -> (r: bool)
        ensures
            r == (self.host() == H::spec_tag()),
    {
        self.host == H::tag()
    }

    /// Takes the service out, for the host that it was erased for.
    pub fn take<H: Host>(self) -> (r: BoxedService<K>)
        requires
            self.host() == H::spec_tag(),
        ensures
            r == self.service(),
    {
        self.service
    }

    /// What comes of taking the service out for the host with the tag
    /// `tag`: the service, or the erased service as it was.
    pub open spec fn taken(self, tag: HostTag) -> Result<BoxedService<K>, ErasedService<K>> {
        if self.host() == tag {
            Ok(self.service())
        } else {
            Err(self)
        }
    }

    /// Takes the service out for the host `H`, or gives the erased service
    /// back where it was erased for another host.
    pub fn try_take<H: Host>(self) -> (r: Result<BoxedService<K>, ErasedService<K>>)
        ensures
            r == self.taken(H::spec_tag()),
    {
        if self.is_for::<H>() {
            Ok(self.take::<H>())
        } else {
            Err(self)
        }
    }
}

/// A service is taken out for the host that it was erased for, and for no
/// other: whoever expects another host gets no service, and the erased
/// service stays as it was.
pub proof fn lemma_taken_for_its_host_only<K: Host + 'static>(erased: ErasedService<K>, tag: HostTag)
    ensures
        erased.taken(tag) is Ok <==> tag == erased.host(),
        erased.taken(tag) matches Ok(service) ==> service == erased.service(),
        erased.taken(tag) matches Err(kept) ==> kept == erased,
{
}

/// Takes erased services in for a host.
pub trait ErasedTranslator<K: Host> {
    /// The services that were taken in, in order.
    spec fn adopted(&self) -> Seq<BoxedService<K>>;

    /// Takes a service in. The service has to be erased for the host `K`.
    fn register_service(&mut self, s: ErasedService<K>)
        requires
            s.host() == K::spec_tag(),
        ensures
            final(self).adopted() == old(self).adopted().push(s.service()),
    ;
}

impl<K: Host + 'static, T: Translator<K>> ErasedTranslator<K> for T {
    open spec fn adopted(&self) -> Seq<BoxedService<K>> {
        <T as Translator<K>>::adopted(self)
    }

    fn register_service(&mut self, s: ErasedService<K>) {
        let service: BoxedService<K> = s.take::<K>();
        <T as Translator<K>>::register_service(self, service);
    }
}

/// A translator in a box.
#[verifier::reject_recursive_types(K)]
pub struct BoxedTranslator<K: Host> {
    pub inner: Box<dyn ErasedTranslator<K>>,
}

/// A translator without its type.
#[verifier::reject_recursive_types(K)]
pub struct ErasedTranslatorS<K: Host> {
    service: BoxedTranslator<K>,
}

impl<K: Host + 'static> ErasedTranslatorS<K> {
    /// The services that the translator took in, in order.
    pub closed spec fn adopted(&self) -> Seq<BoxedService<K>> {
        self.service.inner.adopted()
    }

    /// Takes the type of `t` away.
    pub fn new<T: ErasedTranslator<K> + 'static>(t: T) -> (r: ErasedTranslatorS<K>)
        ensures
            r.adopted() == t.adopted(),
    {
        ErasedTranslatorS { service: BoxedTranslator { inner: Box::new(t) } }
    }

    /// Hands a service to the translator.
    pub fn register_service(&mut self, service: ErasedService<K>)
        requires
            service.host() == K::spec_tag(),
        ensures
            final(self).adopted() == old(self).adopted().push(service.service()),
    {
        self.service.inner.register_service(service)
    }

    /// Takes the translator out.
    pub fn read(self) -> (r: BoxedTranslator<K>)
        ensures
            r.inner.adopted() == self.adopted(),
    {
        self.service
    }
}

} // verus!
