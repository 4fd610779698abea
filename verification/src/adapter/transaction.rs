//! The adapter's half of a transaction.
use vstd::prelude::*;
use crate::common::area::Area;
use crate::adapter::protocol::Standing;
use crate::common::options::Options;
use crate::host::host::Host;
use crate::host::transaction::{HostView, Transaction as HostTransaction};

verus! {

/// What a host asks of an adapter transaction.
#[derive(Debug, Copy, Clone, PartialEq, Eq, Structural)]
pub enum AdapterCall {
    Start,
    Stop,
    Resume,
    AdaptedBodyDiscard,
    AdaptedBodyMake,
    AdaptedBodyMakeMore,
    AdaptedBodyStopMaking,
    AdaptedBodyPause,
    AdaptedBodyResume,
    AdaptedBodyContent { offset: usize, size: usize },
    AdaptedBodyContentShift { size: usize },
    VirginBodyContentDone { at_end: bool },
    VirginBodyContentAvailable,
}

/// The adaptation of a single message from the virgin state to the adapted
/// state.
///
/// Implementations are made by [`crate::adapter::Service::make_transaction`].
/// All methods are for the host to call. Each takes the host's half of the
/// transaction for the length of the call. A call out of order is an error
/// of the host: a kind of transaction says in `admits` which calls it takes
/// where it stands, and in `leaves` what a call does; `accepts` answers the
/// first question at run time.
pub trait Transaction<H: Host>: Options {
    /// What the transaction stands at.
    spec fn standing(&self) -> Standing;

    /// Does a transaction of this kind take the call where it stands at
    /// `at`?
    spec fn admits(at: Standing, call: AdapterCall, host: HostView) -> bool;

    /// May `adapted_body_content`, asked for `size` bytes at `offset` of a
    /// transaction that stands at `at` with the host as in `host`, give
    /// `content` and leave the host as in `after`?
    spec fn answers(
        at: Standing,
        host: HostView,
        offset: usize,
        size: usize,
        content: Seq<u8>,
        after: HostView,
    ) -> bool;

    /// May the call, made on a transaction that stands at `at` with the
    /// host as in `host`, leave the transaction at `next` and the host as
    /// in `host_after`?
    spec fn leaves(
        at: Standing,
        call: AdapterCall,
        host: HostView,
        next: Standing,
        host_after: HostView,
    ) -> bool;

    /// Does the transaction, as it stands, take this call?
    fn accepts(&self, call: AdapterCall, host: &mut H::Transaction) -> (r: bool)
        ensures
            r == Self::admits(self.standing(), call, old(host)@),
            final(host)@ == old(host)@,
    ;

    /// Called by the host to begin work on the virgin message, before any
    /// other method.
    fn start(&mut self, host: &mut H::Transaction)
        requires
            Self::admits(old(self).standing(), AdapterCall::Start, old(host)@),
        ensures
            Self::leaves(
                old(self).standing(),
                AdapterCall::Start,
                old(host)@,
                final(self).standing(),
                final(host)@,
            ),
            old(host)@.calls.is_prefix_of(final(host)@.calls),
    ;

    /// Processing has finished. Neither side calls the other again.
    fn stop(&mut self, host: &mut H::Transaction)
        requires
            Self::admits(old(self).standing(), AdapterCall::Stop, old(host)@),
        ensures
            Self::leaves(
                old(self).standing(),
                AdapterCall::Stop,
                old(host)@,
                final(self).standing(),
                final(host)@,
            ),
            old(host)@.calls.is_prefix_of(final(host)@.calls),
    ;

    /// The host resumes the transaction, after the service asked for it.
    fn resume(&mut self, host: &mut H::Transaction)
        requires
            Self::admits(old(self).standing(), AdapterCall::Resume, old(host)@),
        ensures
            Self::leaves(
                old(self).standing(),
                AdapterCall::Resume,
                old(host)@,
                final(self).standing(),
                final(host)@,
            ),
            old(host)@.calls.is_prefix_of(final(host)@.calls),
    ;

    /// The host will not need the adapted body. Comes only before
    /// `adapted_body_make`.
    fn adapted_body_discard(&mut self, host: &mut H::Transaction)
        requires
            Self::admits(old(self).standing(), AdapterCall::AdaptedBodyDiscard, old(host)@),
        ensures
            Self::leaves(
                old(self).standing(),
                AdapterCall::AdaptedBodyDiscard,
                old(host)@,
                final(self).standing(),
                final(host)@,
            ),
            old(host)@.calls.is_prefix_of(final(host)@.calls),
    ;

    /// The host is interested in adapted body content. Comes once.
    fn adapted_body_make(&mut self, host: &mut H::Transaction)
        requires
            Self::admits(old(self).standing(), AdapterCall::AdaptedBodyMake, old(host)@),
        ensures
            Self::leaves(
                old(self).standing(),
                AdapterCall::AdaptedBodyMake,
                old(host)@,
                final(self).standing(),
                final(host)@,
            ),
            old(host)@.calls.is_prefix_of(final(host)@.calls),
    ;

    /// The host needs more adapted body content to make progress.
    fn adapted_body_make_more(&mut self, host: &mut H::Transaction)
        requires
            Self::admits(old(self).standing(), AdapterCall::AdaptedBodyMakeMore, old(host)@),
        ensures
            Self::leaves(
                old(self).standing(),
                AdapterCall::AdaptedBodyMakeMore,
                old(host)@,
                final(self).standing(),
                final(host)@,
            ),
            old(host)@.calls.is_prefix_of(final(host)@.calls),
    ;

    /// The host needs no more adapted body. Comes only after
    /// `adapted_body_make`, and no call about the adapted body follows.
    fn adapted_body_stop_making(&mut self, host: &mut H::Transaction)
        requires
            Self::admits(old(self).standing(), AdapterCall::AdaptedBodyStopMaking, old(host)@),
        ensures
            Self::leaves(
                old(self).standing(),
                AdapterCall::AdaptedBodyStopMaking,
                old(host)@,
                final(self).standing(),
                final(host)@,
            ),
            old(host)@.calls.is_prefix_of(final(host)@.calls),
    ;

    /// Pause making adapted body content, until `adapted_body_resume`.
    fn adapted_body_pause(&mut self, host: &mut H::Transaction)
        requires
            Self::admits(old(self).standing(), AdapterCall::AdaptedBodyPause, old(host)@),
        ensures
            Self::leaves(
                old(self).standing(),
                AdapterCall::AdaptedBodyPause,
                old(host)@,
                final(self).standing(),
                final(host)@,
            ),
            old(host)@.calls.is_prefix_of(final(host)@.calls),
    ;

    /// Resume making adapted body content.
    fn adapted_body_resume(&mut self, host: &mut H::Transaction)
        requires
            Self::admits(old(self).standing(), AdapterCall::AdaptedBodyResume, old(host)@),
        ensures
            Self::leaves(
                old(self).standing(),
                AdapterCall::AdaptedBodyResume,
                old(host)@,
                final(self).standing(),
                final(host)@,
            ),
            old(host)@.calls.is_prefix_of(final(host)@.calls),
    ;

    /// Extract a portion of the adapted body content. What comes back
    /// starts at the offset and is no longer than `size`.
    fn adapted_body_content(&mut self, host: &mut H::Transaction, offset: usize, size: usize) -> (r:
        Area)
        requires
            Self::admits(old(self).standing(), AdapterCall::AdaptedBodyContent { offset, size }, old(host)@),
        ensures
            Self::leaves(
                old(self).standing(),
                AdapterCall::AdaptedBodyContent { offset, size },
                old(host)@,
                final(self).standing(),
                final(host)@,
            ),
            r@.len() <= size,
            Self::answers(old(self).standing(), old(host)@, offset, size, r@, final(host)@),
            old(host)@.calls.is_prefix_of(final(host)@.calls),
    ;

    /// Shift the start of the adapted content. Later offsets count from
    /// the new start.
    fn adapted_body_content_shift(&mut self, host: &mut H::Transaction, size: usize)
        requires
            Self::admits(old(self).standing(), AdapterCall::AdaptedBodyContentShift { size }, old(host)@),
        ensures
            Self::leaves(
                old(self).standing(),
                AdapterCall::AdaptedBodyContentShift { size },
                old(host)@,
                final(self).standing(),
                final(host)@,
            ),
            old(host)@.calls.is_prefix_of(final(host)@.calls),
    ;

    /// No more virgin body content will come. `at_end` tells whether the
    /// body is complete.
    fn virgin_body_content_done(&mut self, host: &mut H::Transaction, at_end: bool)
        requires
            Self::admits(old(self).standing(), AdapterCall::VirginBodyContentDone { at_end }, old(host)@),
        ensures
            Self::leaves(
                old(self).standing(),
                AdapterCall::VirginBodyContentDone { at_end },
                old(host)@,
                final(self).standing(),
                final(host)@,
            ),
            old(host)@.calls.is_prefix_of(final(host)@.calls),
    ;

    /// More virgin body content may be available.
    fn virgin_body_content_available(&mut self, host: &mut H::Transaction)
        requires
            Self::admits(old(self).standing(), AdapterCall::VirginBodyContentAvailable, old(host)@),
        ensures
            Self::leaves(
                old(self).standing(),
                AdapterCall::VirginBodyContentAvailable,
                old(host)@,
                final(self).standing(),
                final(host)@,
            ),
            old(host)@.calls.is_prefix_of(final(host)@.calls),
    ;
}

} // verus!
