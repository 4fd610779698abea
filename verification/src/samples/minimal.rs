//! The least adapter: it leaves every message as it is.
use vstd::prelude::*;
use crate::adapter::protocol::{legal, undecided, Standing, State, Tracks};
use crate::adapter::service::{Service, Settings};
use crate::adapter::transaction::{AdapterCall, Transaction};
use crate::common::area::Area;
use crate::common::name::Name;
use crate::common::named_values::{Fields, NamedValueVisitor};
use crate::common::options::Options;
use crate::common::timeout::Timeout;
use crate::host::host::Host;
use crate::host::transaction::{HostCall, HostView, Transaction as HostTransaction};

verus! {

/// A service that takes every message and adapts none.
#[derive(Debug)]
pub struct MinimalService;

impl<H: Host> Service<H> for MinimalService {
    type Transaction = MinimalTransaction;

    /// The service holds nothing.
    open spec fn settings(&self) -> Settings {
        Settings { data: Seq::empty() }
    }

    open spec fn spec_uri(at: Settings) -> Seq<char> {
        "ecap://rust/sample/minimal"@
    }

    open spec fn spec_tag(at: Settings) -> Seq<char> {
        "0.1.0"@
    }

    open spec fn spec_describe(at: Settings) -> Seq<char> {
        "A minimal adapter from ecap-sample-minimal v0.1.0"@
    }

    open spec fn spec_is_async(at: Settings) -> bool {
        false
    }

    /// There is nothing to configure: every configuration is taken.
    open spec fn admits_options(at: Settings, entries: Fields, again: bool) -> bool {
        true
    }

    open spec fn configures(at: Settings, entries: Fields, again: bool, next: Settings) -> bool {
        next == at
    }

    open spec fn ready(at: Settings) -> bool {
        true
    }

    /// A transaction starts with nothing decided.
    open spec fn makes(at: Settings, transaction: Standing) -> bool {
        transaction == (Standing { tracks: undecided(), data: Seq::empty() })
    }

    /// The adapter is applied to all messages.
    open spec fn spec_wants_url(at: Settings, url: Seq<u8>) -> bool {
        true
    }

    /// The service is not async: it leaves the timeout as it is.
    open spec fn suspends(at: Settings, before: Timeout, after: Timeout) -> bool {
        after == before
    }

    fn uri(&self) -> (r: String) {
        "ecap://rust/sample/minimal".to_owned()
    }

    fn tag(&self) -> (r: String) {
        "0.1.0".to_owned()
    }

    fn describe(&self) -> (r: String) {
        "A minimal adapter from ecap-sample-minimal v0.1.0".to_owned()
    }

    fn is_async(&self) -> (r: bool) {
        false
    }

    fn is_ready(&self) -> (r: bool) {
        true
    }

    fn accepts_options<T: Options>(&self, options: &T, again: bool) -> (r: bool) {
        true
    }

    /// There is nothing to configure.
    fn configure<T: Options>(&mut self, options: &T) {
    }

    /// There is nothing to configure.
    fn reconfigure<T: Options>(&mut self, options: &T) {
    }

    fn start(&self) {
    }

    /// The service is not async: it leaves the timeout as it is.
    fn suspend(&self, timeout: &mut Timeout) {
    }

    fn resume(&self) {
    }

    fn stop(&self) {
    }

    fn retire(&self) {
    }

    /// The adapter is applied to all messages.
    fn wants_url(&self, url: &[u8]) -> (r: bool) {
        true
    }

    fn make_transaction(&mut self, host: &mut H::Transaction) -> (r: MinimalTransaction) {
        MinimalTransaction { receiving: State::Undecided, sending: State::Undecided }
    }
}

/// A transaction that tells the host to use the virgin message.
pub struct MinimalTransaction {
    receiving: State,
    sending: State,
}

impl MinimalTransaction {
    /// Where the transaction stands.
    pub closed spec fn tracks(&self) -> Tracks {
        Tracks { receiving: self.receiving, sending: self.sending }
    }

    /// Where the transaction stands with the virgin body.
    pub fn receiving(&self) -> (r: State)
        ensures
            r == self.tracks().receiving,
    {
        self.receiving
    }

    /// Where the transaction stands with the adapted body.
    pub fn sending(&self) -> (r: State)
        ensures
            r == self.tracks().sending,
    {
        self.sending
    }
}

/// The calls that a minimal transaction takes where it stands at `tracks`:
/// all but those that decide about the adapted body once that is decided.
pub open spec fn minimal_admits(tracks: Tracks, call: AdapterCall) -> bool {
    match call {
        AdapterCall::AdaptedBodyDiscard => tracks.sending == State::Undecided,
        AdapterCall::AdaptedBodyMake => tracks.sending == State::Undecided,
        _ => true,
    }
}

/// Where a minimal transaction stands after a call that it takes. With
/// `start` the virgin message is used as it is: nothing will be received
/// and nothing sent.
pub open spec fn minimal_next(tracks: Tracks, call: AdapterCall) -> Tracks {
    match call {
        AdapterCall::Start => Tracks { receiving: State::Never, sending: State::Never },
        AdapterCall::AdaptedBodyDiscard => Tracks { sending: State::Never, ..tracks },
        AdapterCall::AdaptedBodyMake => Tracks { sending: State::On, ..tracks },
        AdapterCall::AdaptedBodyStopMaking => Tracks { sending: State::Complete, ..tracks },
        _ => tracks,
    }
}

impl<H: Host> Transaction<H> for MinimalTransaction {
    open spec fn standing(&self) -> Standing {
        Standing { tracks: self.tracks(), data: Seq::empty() }
    }

    open spec fn admits(at: Standing, call: AdapterCall, host: HostView) -> bool {
        minimal_admits(at.tracks, call)
    }

    /// There is no adapted content, and the host is not asked for any.
    open spec fn answers(
        at: Standing,
        host: HostView,
        offset: usize,
        size: usize,
        content: Seq<u8>,
        after: HostView,
    ) -> bool {
        content == Seq::<u8>::empty() && after == host
    }

    /// In `start` the host is told to use the virgin message. No other
    /// call reaches the host.
    open spec fn leaves(
        at: Standing,
        call: AdapterCall,
        host: HostView,
        next: Standing,
        host_after: HostView,
    ) -> bool {
        &&& next == (Standing { tracks: minimal_next(at.tracks, call), data: at.data })
        &&& host_after == (if call is Start {
            host.called(HostCall::UseVirgin)
        } else {
            host
        })
    }

    fn accepts(&self, call: AdapterCall, host: &mut H::Transaction) -> (r: bool) {
        match call {
            AdapterCall::AdaptedBodyDiscard => self.sending == State::Undecided,
            AdapterCall::AdaptedBodyMake => self.sending == State::Undecided,
            _ => true,
        }
    }

    fn start(&mut self, host: &mut H::Transaction) {
        host.use_virgin();
        self.receiving = State::Never;
        self.sending = State::Never;
    }

    fn stop(&mut self, host: &mut H::Transaction) {
    }

    fn resume(&mut self, host: &mut H::Transaction) {
    }

    fn adapted_body_discard(&mut self, host: &mut H::Transaction) {
        self.sending = State::Never;
    }

    fn adapted_body_make(&mut self, host: &mut H::Transaction) {
        self.sending = State::On;
    }

    fn adapted_body_make_more(&mut self, host: &mut H::Transaction) {
    }

    fn adapted_body_stop_making(&mut self, host: &mut H::Transaction) {
        self.sending = State::Complete;
    }

    fn adapted_body_pause(&mut self, host: &mut H::Transaction) {
    }

    fn adapted_body_resume(&mut self, host: &mut H::Transaction) {
    }

    fn adapted_body_content(&mut self, host: &mut H::Transaction, offset: usize, size: usize) -> (r:
        Area) {
        let nothing: Vec<u8> = Vec::new();
        Area::from_bytes(nothing.as_slice())
    }

    fn adapted_body_content_shift(&mut self, host: &mut H::Transaction, size: usize) {
    }

    fn virgin_body_content_done(&mut self, host: &mut H::Transaction, at_end: bool) {
    }

    fn virgin_body_content_available(&mut self, host: &mut H::Transaction) {
    }
}

/// A host that keeps to the order of the protocol never makes a call that a
/// minimal transaction does not take.
pub proof fn lemma_minimal_takes_legal_calls(tracks: Tracks, call: AdapterCall, has_body: bool)
    requires
        legal(tracks, call, has_body),
    ensures
        minimal_admits(tracks, call),
{
}

/// Once a minimal transaction makes the adapted body, it does not take the
/// call to make it again.
pub proof fn lemma_minimal_makes_body_once(tracks: Tracks)
    requires
        minimal_admits(tracks, AdapterCall::AdaptedBodyMake),
    ensures
        !minimal_admits(
            minimal_next(tracks, AdapterCall::AdaptedBodyMake),
            AdapterCall::AdaptedBodyMake,
        ),
{
}

impl Options for MinimalTransaction {
    /// The transaction has no meta-information.
    open spec fn entries(&self) -> Fields {
        Seq::empty()
    }

    fn option(&self, name: &Name) -> (r: Option<Area>) {
        None
    }

    fn visit_each<V: NamedValueVisitor>(&self, visitor: &mut V) {
        assert(visitor.visited() + Seq::<(crate::common::name::NameView, Seq<u8>)>::empty()
            == visitor.visited());
    }
}

} // verus!
