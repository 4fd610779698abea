//! The host's half of a transaction.
use vstd::prelude::*;
use crate::common::area::Area;
use crate::common::delay::Delay;
use crate::common::message::{Message, MessageView};

verus! {

/// What an adapter told a host transaction, or asked of it.
#[derive(Debug, Copy, Clone, PartialEq, Eq, Structural)]
pub enum HostCall {
    UseVirgin,
    UseAdapted,
    BlockVirgin,
    AdaptationDelayed,
    AdaptationAborted,
    Resume,
    VirginBodyDiscard,
    VirginBodyMake,
    VirginBodyMakeMore,
    VirginBodyStopMaking,
    VirginBodyPause,
    VirginBodyResume,
    VirginBodyContent { offset: usize, size: usize },
    VirginBodyContentShift { size: usize },
    AdaptedBodyContentDone { at_end: bool },
    AdaptedBodyContentAvailable,
}

/// What a host transaction holds.
pub struct HostView {
    /// The calls that were made, in order.
    pub calls: Seq<HostCall>,
    /// The message as the host got it.
    pub virgin: MessageView,
    /// The other message of the pair, where there is one.
    pub cause: Option<MessageView>,
    /// The message that was given to `use_adapted`, once it was.
    pub adapted: Option<MessageView>,
    /// The content of the virgin body that the host has on hand, from the
    /// place up to which the adapter has shifted.
    pub content: Seq<u8>,
}

impl HostView {
    /// This view after one more call.
    pub open spec fn called(self, call: HostCall) -> HostView {
        HostView { calls: self.calls.push(call), ..self }
    }

    /// Does the virgin message have a body?
    pub open spec fn virgin_has_body(self) -> bool {
        self.virgin.body is Some
    }
}

/// The part of `content` that a request for `size` bytes at `offset`
/// reaches.
pub open spec fn window(content: Seq<u8>, offset: usize, size: usize) -> Seq<u8> {
    if offset >= content.len() {
        Seq::empty()
    } else if offset + size >= content.len() {
        content.subrange(offset as int, content.len() as int)
    } else {
        content.subrange(offset as int, offset + size)
    }
}

/// `content` without its first `size` bytes, or without all of them where
/// it has fewer.
pub open spec fn shifted(content: Seq<u8>, size: usize) -> Seq<u8> {
    if size >= content.len() {
        Seq::empty()
    } else {
        content.subrange(size as int, content.len() as int)
    }
}

/// The host side of the eCAP transaction.
///
/// Implementations of [`crate::adapter::Transaction`] use this interface to
/// get at the virgin message and to tell the host what will happen to it.
pub trait Transaction {
    type Message: Message;

    spec fn view(&self) -> HostView;

    /// Access to the request or the response.
    fn virgin(&mut self) -> (r: &mut Self::Message)
        ensures
            r@ == old(self)@.virgin,
            final(self)@ == (HostView { virgin: final(r)@, ..old(self)@ }),
    ;

    /// The other side of the request/response pair, as compared to
    /// `virgin`. An adapter on the request side of a proxy has none.
    fn cause(&self) -> (r: Option<&Self::Message>)
        ensures
            r is Some <==> self@.cause is Some,
            r matches Some(m) ==> Some(m@) == self@.cause,
    ;

    /// The message passed to `use_adapted`.
    fn adapted(&mut self) -> (r: &mut Self::Message)
        requires
            old(self)@.adapted is Some,
        ensures
            Some(r@) == old(self)@.adapted,
            final(self)@ == (HostView { adapted: Some(final(r)@), ..old(self)@ }),
    ;

    /// Use the virgin message for the response or request. The host will
    /// not ask for an adapted body.
    fn use_virgin(&mut self)
        ensures
            final(self)@ == old(self)@.called(HostCall::UseVirgin),
    ;

    /// Use the message passed for the response or request. The host will
    /// ask the adapter for the body.
    fn use_adapted(&mut self, msg: Self::Message)
        ensures
            final(self)@ == (HostView { adapted: Some(msg@), ..old(self)@ }).called(
                HostCall::UseAdapted,
            ),
    ;

    /// Prevent access to this message.
    fn block_virgin(&mut self)
        ensures
            final(self)@ == old(self)@.called(HostCall::BlockVirgin),
    ;

    /// More time is needed to return the adapted body.
    fn adaptation_delayed(&mut self, delay: &Delay)
        ensures
            final(self)@ == old(self)@.called(HostCall::AdaptationDelayed),
    ;

    /// The adapter transaction ended abnormally. Neither side calls the
    /// other again.
    fn adaptation_aborted(&mut self)
        ensures
            final(self)@ == old(self)@.called(HostCall::AdaptationAborted),
    ;

    /// Register interest in resuming this transaction.
    fn resume(&mut self)
        ensures
            final(self)@ == old(self)@.called(HostCall::Resume),
    ;

    /// The adapter will not look at the virgin body.
    fn virgin_body_discard(&mut self)
        ensures
            final(self)@ == old(self)@.called(HostCall::VirginBodyDiscard),
    ;

    /// The adapter is interested in the virgin body.
    fn virgin_body_make(&mut self)
        ensures
            final(self)@ == old(self)@.called(HostCall::VirginBodyMake),
    ;

    /// The adapter needs more of the virgin body.
    fn virgin_body_make_more(&mut self)
        ensures
            final(self)@ == old(self)@.called(HostCall::VirginBodyMakeMore),
    ;

    /// The adapter will ask for no more of the virgin body.
    fn virgin_body_stop_making(&mut self)
        ensures
            final(self)@ == old(self)@.called(HostCall::VirginBodyStopMaking),
    ;

    /// Pause making virgin body content.
    fn virgin_body_pause(&mut self)
        ensures
            final(self)@ == old(self)@.called(HostCall::VirginBodyPause),
    ;

    /// Resume making virgin body content.
    fn virgin_body_resume(&mut self)
        ensures
            final(self)@ == old(self)@.called(HostCall::VirginBodyResume),
    ;

    /// Extract a portion of the virgin body content. What comes back
    /// starts at the offset; it may be less than was asked for.
    fn virgin_body_content(&mut self, offset: usize, size: usize) -> (r: Area)
        ensures
            r@.is_prefix_of(window(old(self)@.content, offset, size)),
            final(self)@ == old(self)@.called(HostCall::VirginBodyContent { offset, size }),
    ;

    /// Shift the start of the content buffer. Later offsets count from the
    /// new start.
    fn virgin_body_content_shift(&mut self, size: usize)
        ensures
            final(self)@ == (HostView {
                content: shifted(old(self)@.content, size),
                ..old(self)@
            }).called(HostCall::VirginBodyContentShift { size }),
    ;

    /// No more adapted body content will come. `at_end` tells whether the
    /// body is complete.
    fn adapted_body_content_done(&mut self, at_end: bool)
        ensures
            final(self)@ == old(self)@.called(HostCall::AdaptedBodyContentDone { at_end }),
    ;

    /// More adapted body content may be available.
    fn adapted_body_content_available(&mut self)
        ensures
            final(self)@ == old(self)@.called(HostCall::AdaptedBodyContentAvailable),
    ;
}

} // verus!
