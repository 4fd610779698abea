//! An adapter that hands the virgin message on, body and all.
use vstd::prelude::*;
use crate::adapter::protocol::{
    legal, legal_run, tracks_after, undecided, Standing, State, Tracks,
};
use crate::adapter::service::{Service, Settings};
use crate::adapter::transaction::{AdapterCall, Transaction};
use crate::common::area::Area;
use crate::common::message::Message;
use crate::common::name::Name;
use crate::common::named_values::{Fields, NamedValueVisitor};
use crate::common::options::Options;
use crate::common::timeout::Timeout;
use crate::host::host::Host;
use crate::host::transaction::{shifted, window, HostCall, HostView, Transaction as HostTransaction};

verus! {

/// A service whose transactions adapt nothing and pass everything.
#[derive(Debug)]
pub struct PassthruService;

impl<H: Host> Service<H> for PassthruService {
    type Transaction = PassthruTransaction;

    /// The service holds nothing.
    open spec fn settings(&self) -> Settings {
        Settings { data: Seq::empty() }
    }

    open spec fn spec_uri(at: Settings) -> Seq<char> {
        "ecap://rust/sample/passthru"@
    }

    open spec fn spec_tag(at: Settings) -> Seq<char> {
        "0.1.0"@
    }

    open spec fn spec_describe(at: Settings) -> Seq<char> {
        "A minimal adapter from ecap-sample-passthru v0.1.0"@
    }

    open spec fn spec_is_async(at: Settings) -> bool {
        false
    }

    /// There is nothing to configure: every configuration is taken.
    open spec fn admits_options(at: Settings, entries: Fields, again: bool) -> bool {
        true
    }

    open spec fn configures(at: Settings, entries: Fields, again: bool, next: Settings) -> bool {
        next == at
    }

    open spec fn ready(at: Settings) -> bool {
        true
    }

    /// A transaction starts with nothing decided.
    open spec fn makes(at: Settings, transaction: Standing) -> bool {
        transaction == (Standing { tracks: undecided(), data: Seq::empty() })
    }

    /// The adapter is applied to all messages.
    open spec fn spec_wants_url(at: Settings, url: Seq<u8>) -> bool {
        true
    }

    /// The service is not async: it leaves the timeout as it is.
    open spec fn suspends(at: Settings, before: Timeout, after: Timeout) -> bool {
        after == before
    }

    fn uri(&self) -> (r: String) {
        "ecap://rust/sample/passthru".to_owned()
    }

    fn tag(&self) -> (r: String) {
        "0.1.0".to_owned()
    }

    fn describe(&self) -> (r: String) {
        "A minimal adapter from ecap-sample-passthru v0.1.0".to_owned()
    }

    fn is_async(&self) -> (r: bool) {
        false
    }

    fn is_ready(&self) -> (r: bool) {
        true
    }

    fn accepts_options<T: Options>(&self, options: &T, again: bool) -> (r: bool) {
        true
    }

    /// There is nothing to configure.
    fn configure<T: Options>(&mut self, options: &T) {
    }

    /// There is nothing to configure.
    fn reconfigure<T: Options>(&mut self, options: &T) {
    }

    fn start(&self) {
    }

    /// The service is not async: it leaves the timeout as it is.
    fn suspend(&self, timeout: &mut Timeout) {
    }

    fn resume(&self) {
    }

    fn stop(&self) {
    }

    fn retire(&self) {
    }

    fn wants_url(&self, url: &[u8]) -> (r: bool) {
        true
    }

    fn make_transaction(&mut self, host: &mut H::Transaction) -> (r: PassthruTransaction) {
        PassthruTransaction { receiving: State::Undecided, sending: State::Undecided }
    }
}

/// A transaction that gives the host a copy of the virgin message and, for
/// the adapted body, the virgin body as it comes.
pub struct PassthruTransaction {
    receiving: State,
    sending: State,
}

impl PassthruTransaction {
    /// Where the transaction stands.
    pub closed spec fn tracks(&self) -> Tracks {
        Tracks { receiving: self.receiving, sending: self.sending }
    }

    /// Where the transaction stands with the virgin body.
    pub fn receiving(&self) -> (r: State)
        ensures
            r == self.tracks().receiving,
    {
        self.receiving
    }

    /// Where the transaction stands with the adapted body.
    pub fn sending(&self) -> (r: State)
        ensures
            r == self.tracks().sending,
    {
        self.sending
    }
}

/// The calls that a pass-through transaction takes where it stands at
/// `tracks`.
pub open spec fn passthru_admits(tracks: Tracks, call: AdapterCall, host: HostView) -> bool {
    match call {
        AdapterCall::AdaptedBodyDiscard => tracks.sending == State::Undecided,
        AdapterCall::AdaptedBodyMake => tracks.sending == State::Undecided && host.virgin_has_body()
            && (tracks.receiving == State::On || tracks.receiving == State::Complete),
        AdapterCall::AdaptedBodyMakeMore => tracks.receiving == State::On,
        AdapterCall::AdaptedBodyStopMaking => tracks.sending == State::On,
        AdapterCall::AdaptedBodyContent { .. } => tracks.sending == State::On,
        AdapterCall::AdaptedBodyContentShift { .. } => tracks.sending == State::On,
        AdapterCall::VirginBodyContentDone { .. } => tracks.receiving == State::On,
        _ => true,
    }
}

/// Where a pass-through transaction stands after a call that it takes.
pub open spec fn passthru_next(tracks: Tracks, call: AdapterCall, virgin_has_body: bool) -> Tracks {
    match call {
        AdapterCall::Start => Tracks {
            receiving: if virgin_has_body {
                State::On
            } else {
                State::Never
            },
            sending: if virgin_has_body {
                tracks.sending
            } else {
                State::Never
            },
        },
        AdapterCall::AdaptedBodyDiscard => Tracks { sending: State::Never, ..tracks },
        AdapterCall::AdaptedBodyMake => Tracks { sending: State::On, ..tracks },
        AdapterCall::AdaptedBodyStopMaking => Tracks { sending: State::Complete, ..tracks },
        AdapterCall::VirginBodyContentDone { .. } => Tracks { receiving: State::Complete, ..tracks },
        _ => tracks,
    }
}

/// The calls that the host gets in `start` from a transaction that hands
/// the virgin message on, by whether the message has a body.
pub open spec fn start_calls(has_body: bool) -> Seq<HostCall> {
    if has_body {
        seq![HostCall::VirginBodyMake, HostCall::UseAdapted]
    } else {
        seq![HostCall::UseAdapted]
    }
}

/// The host after a call that a pass-through transaction takes. In `start`
/// the transaction asks for the virgin body, where there is one, and gives
/// the host a copy of the virgin message to use. What the host asks of the
/// adapted body the transaction asks of the virgin body, and what the host
/// reports of the virgin body the transaction reports of the adapted body.
pub open spec fn passthru_host(host: HostView, call: AdapterCall) -> HostView {
    match call {
        AdapterCall::Start => HostView {
            calls: host.calls + start_calls(host.virgin_has_body()),
            adapted: Some(host.virgin),
            ..host
        },
        AdapterCall::AdaptedBodyMake => host.called(HostCall::AdaptedBodyContentAvailable),
        AdapterCall::AdaptedBodyMakeMore => host.called(HostCall::VirginBodyMakeMore),
        AdapterCall::AdaptedBodyStopMaking => host.called(HostCall::VirginBodyStopMaking),
        AdapterCall::AdaptedBodyContent { offset, size } => host.called(
            HostCall::VirginBodyContent { offset, size },
        ),
        AdapterCall::AdaptedBodyContentShift { size } => (HostView {
            content: shifted(host.content, size),
            ..host
        }).called(HostCall::VirginBodyContentShift { size }),
        AdapterCall::VirginBodyContentDone { at_end } => host.called(
            HostCall::VirginBodyStopMaking,
        ).called(HostCall::AdaptedBodyContentDone { at_end }),
        AdapterCall::VirginBodyContentAvailable => host.called(
            HostCall::AdaptedBodyContentAvailable,
        ),
        _ => host,
    }
}

impl<H: Host> Transaction<H> for PassthruTransaction {
    open spec fn standing(&self) -> Standing {
        Standing { tracks: self.tracks(), data: Seq::empty() }
    }

    open spec fn admits(at: Standing, call: AdapterCall, host: HostView) -> bool {
        passthru_admits(at.tracks, call, host)
    }

    /// The adapted content is the virgin content, as the host gives it.
    open spec fn answers(
        at: Standing,
        host: HostView,
        offset: usize,
        size: usize,
        content: Seq<u8>,
        after: HostView,
    ) -> bool {
        content.is_prefix_of(window(host.content, offset, size)) && after == host.called(
            HostCall::VirginBodyContent { offset, size },
        )
    }

    open spec fn leaves(
        at: Standing,
        call: AdapterCall,
        host: HostView,
        next: Standing,
        host_after: HostView,
    ) -> bool {
        &&& next == (Standing {
            tracks: passthru_next(at.tracks, call, host.virgin_has_body()),
            data: at.data,
        })
        &&& host_after == passthru_host(host, call)
    }

    fn accepts(&self, call: AdapterCall, host: &mut H::Transaction) -> (r: bool) {
        match call {
            AdapterCall::AdaptedBodyDiscard => self.sending == State::Undecided,
            AdapterCall::AdaptedBodyMake => {
                let has_body: bool = host.virgin().body().is_some();
                self.sending == State::Undecided && has_body && (self.receiving == State::On
                    || self.receiving == State::Complete)
            },
            AdapterCall::AdaptedBodyMakeMore => self.receiving == State::On,
            AdapterCall::AdaptedBodyStopMaking => self.sending == State::On,
            AdapterCall::AdaptedBodyContent { .. } => self.sending == State::On,
            AdapterCall::AdaptedBodyContentShift { .. } => self.sending == State::On,
            AdapterCall::VirginBodyContentDone { .. } => self.receiving == State::On,
            _ => true,
        }
    }

    /// Asks for the virgin body, where there is one, and gives the host a
    /// copy of the virgin message to use. Without a body there is nothing
    /// to send.
    fn start(&mut self, host: &mut H::Transaction) {
        let has_body: bool = host.virgin().body().is_some();
        if has_body {
            self.receiving = State::On;
            host.virgin_body_make();
        } else {
            self.receiving = State::Never;
        }
        let adapted: H::Message = host.virgin().clone();
        if adapted.body().is_none() {
            self.sending = State::Never;
        }
        host.use_adapted(adapted);
        assert(final(host)@.calls == old(host)@.calls + start_calls(old(host)@.virgin_has_body()));
    }

    fn stop(&mut self, host: &mut H::Transaction) {
    }

    fn resume(&mut self, host: &mut H::Transaction) {
    }

    fn adapted_body_discard(&mut self, host: &mut H::Transaction) {
        self.sending = State::Never;
    }

    fn adapted_body_make(&mut self, host: &mut H::Transaction) {
        self.sending = State::On;
        host.adapted_body_content_available();
    }

    fn adapted_body_make_more(&mut self, host: &mut H::Transaction) {
        host.virgin_body_make_more();
    }

    /// The adapted body is complete as far as the host is concerned, and
    /// no more of the virgin body is needed for it.
    fn adapted_body_stop_making(&mut self, host: &mut H::Transaction) {
        self.sending = State::Complete;
        host.virgin_body_stop_making();
    }

    fn adapted_body_pause(&mut self, host: &mut H::Transaction) {
    }

    fn adapted_body_resume(&mut self, host: &mut H::Transaction) {
    }

    fn adapted_body_content(&mut self, host: &mut H::Transaction, offset: usize, size: usize) -> (r:
        Area) {
        let r: Area = host.virgin_body_content(offset, size);
        proof {
            let w = window(old(host)@.content, offset, size);
            assert(w.len() <= size);
        }
        r
    }

    fn adapted_body_content_shift(&mut self, host: &mut H::Transaction, size: usize) {
        host.virgin_body_content_shift(size);
    }

    /// The virgin body is over, and with it the adapted body.
    fn virgin_body_content_done(&mut self, host: &mut H::Transaction, at_end: bool) {
        host.virgin_body_stop_making();
        self.receiving = State::Complete;
        host.adapted_body_content_done(at_end);
    }

    fn virgin_body_content_available(&mut self, host: &mut H::Transaction) {
        host.adapted_body_content_available()
    }
}

impl Options for PassthruTransaction {
    /// The transaction has no meta-information.
    open spec fn entries(&self) -> Fields {
        Seq::empty()
    }

    fn option(&self, name: &Name) -> (r: Option<Area>) {
        None
    }

    fn visit_each<V: NamedValueVisitor>(&self, visitor: &mut V) {
        assert(visitor.visited() + Seq::<(crate::common::name::NameView, Seq<u8>)>::empty()
            == visitor.visited());
    }
}

/// A host that keeps to the order of the protocol never makes a call that a
/// pass-through transaction does not take.
pub proof fn lemma_passthru_takes_legal_calls(tracks: Tracks, call: AdapterCall, host: HostView)
    requires
        legal(tracks, call, host.virgin_has_body()),
    ensures
        passthru_admits(tracks, call, host),
{
}

/// Through any run of calls in which the host keeps to the order of the
/// protocol, a pass-through transaction takes every call.
pub proof fn lemma_passthru_takes_legal_runs(
    start: Tracks,
    calls: Seq<AdapterCall>,
    host: HostView,
    i: int,
)
    requires
        legal_run(
            |t: Tracks, c: AdapterCall, b: bool| passthru_next(t, c, b),
            start,
            calls,
            host.virgin_has_body(),
        ),
        0 <= i < calls.len(),
    ensures
        passthru_admits(
            tracks_after(
                |t: Tracks, c: AdapterCall, b: bool| passthru_next(t, c, b),
                start,
                calls.subrange(0, i),
                host.virgin_has_body(),
            ),
            calls[i],
            host,
        ),
{
}

/// A pass-through transaction takes the word that the virgin body is over
/// only while it receives, and so only once: the host is told once that
/// no more of the virgin body is needed, and once that the adapted body is
/// over.
pub proof fn lemma_passthru_content_done_once(tracks: Tracks, host: HostView, at_end: bool)
    ensures
        tracks.receiving != State::On ==> !passthru_admits(
            tracks,
            AdapterCall::VirginBodyContentDone { at_end },
            host,
        ),
        !passthru_admits(
            passthru_next(
                tracks,
                AdapterCall::VirginBodyContentDone { at_end },
                host.virgin_has_body(),
            ),
            AdapterCall::VirginBodyContentDone { at_end },
            host,
        ),
{
}

/// A message with a body goes through a pass-through transaction like
/// this: in `start` the transaction asks for the virgin body and gives the
/// host a copy of the virgin message to use; when the virgin body is over,
/// it tells the host that no more of it is needed and that the adapted
/// body is over too. Both calls are taken, and these are all the calls
/// that the host gets.
pub proof fn lemma_passthru_end_to_end(host: HostView, at_end: bool)
    requires
        host.virgin_has_body(),
    ensures
        ({
            let started = passthru_next(undecided(), AdapterCall::Start, true);
            let after_start = passthru_host(host, AdapterCall::Start);
            let after_done = passthru_host(
                after_start,
                AdapterCall::VirginBodyContentDone { at_end },
            );
            &&& passthru_admits(undecided(), AdapterCall::Start, host)
            &&& passthru_admits(started, AdapterCall::VirginBodyContentDone { at_end }, after_start)
            &&& after_start.adapted == Some(host.virgin)
            &&& after_done.calls == host.calls + seq![
                HostCall::VirginBodyMake,
                HostCall::UseAdapted,
                HostCall::VirginBodyStopMaking,
                HostCall::AdaptedBodyContentDone { at_end },
            ]
        }),
{
    let after_start = passthru_host(host, AdapterCall::Start);
    let after_done = passthru_host(after_start, AdapterCall::VirginBodyContentDone { at_end });
    assert(after_done.calls =~= host.calls + seq![
        HostCall::VirginBodyMake,
        HostCall::UseAdapted,
        HostCall::VirginBodyStopMaking,
        HostCall::AdaptedBodyContentDone { at_end },
    ]);
}

/// Once a pass-through transaction makes the adapted body, it does not take
/// the call to make it again.
pub proof fn lemma_passthru_makes_body_once(tracks: Tracks, host: HostView)
    requires
        passthru_admits(tracks, AdapterCall::AdaptedBodyMake, host),
    ensures
        !passthru_admits(
            Tracks { sending: State::On, ..tracks },
            AdapterCall::AdaptedBodyMake,
            host,
        ),
{
}

} // verus!
