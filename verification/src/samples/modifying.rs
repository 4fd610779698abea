//! An adapter that replaces one byte string by another in the body.
use vstd::prelude::*;
use vstd::utf8::encode_utf8;
use crate::adapter::protocol::{
    legal, legal_run, tracks_after, undecided, Standing, State, Tracks,
};
use crate::adapter::service::{Service, Settings};
use crate::adapter::transaction::{AdapterCall, Transaction};
use crate::common::area::Area;
use crate::common::bytes::{append_range, bytes_eq, to_vec};
use crate::common::header::Header;
use crate::common::message::{Message, MessageView};
use crate::common::name::{Id, Name, NameView};
use crate::common::named_values::{without_field, Fields, NamedValueVisitor};
use crate::common::options::Options;
use crate::common::timeout::Timeout;
use crate::host::host::Host;
use crate::host::transaction::{window, HostCall, HostView, Transaction as HostTransaction};
use crate::samples::passthru::start_calls;
use crate::samples::substitute::{contains, contains_bytes, substituted, Substitution};

verus! {

/// What a configuration holds while it is read: the byte string to
/// replace, the one to put in its place, and whether an option was refused.
pub struct ConfigView {
    pub victim: Option<Seq<u8>>,
    pub replacement: Option<Seq<u8>>,
    pub failed: bool,
}

/// The name of the option that holds the byte string to replace.
pub open spec fn victim_key() -> Seq<u8> {
    encode_utf8("victim"@)
}

/// The name of the option that holds what is put in its place.
pub open spec fn replacement_key() -> Seq<u8> {
    encode_utf8("replacement"@)
}

/// The configuration with nothing read.
pub open spec fn no_config() -> ConfigView {
    ConfigView { victim: None, replacement: None, failed: false }
}

/// The configuration after one more option. An empty victim is refused,
/// and so is an option of another name, unless the host marked the name as
/// one of its own.
pub open spec fn config_step(cfg: ConfigView, name: NameView, value: Seq<u8>) -> ConfigView {
    if cfg.failed {
        cfg
    } else if name.image == Some(victim_key()) {
        if value.len() == 0 {
            ConfigView { failed: true, ..cfg }
        } else {
            ConfigView { victim: Some(value), ..cfg }
        }
    } else if name.image == Some(replacement_key()) {
        ConfigView { replacement: Some(value), ..cfg }
    } else if name.host_id is Some {
        cfg
    } else {
        ConfigView { failed: true, ..cfg }
    }
}

/// The configuration after the options, read in order.
pub open spec fn config_run(cfg: ConfigView, entries: Fields) -> ConfigView
    decreases entries.len(),
{
    if entries.len() == 0 {
        cfg
    } else {
        config_step(config_run(cfg, entries.drop_last()), entries.last().0, entries.last().1)
    }
}

/// Can a service work with this configuration? It needs a victim that is
/// not empty and a replacement in which the victim does not stand, or the
/// replacing would never end.
pub open spec fn config_accepted(cfg: ConfigView) -> bool {
    &&& !cfg.failed
    &&& cfg.victim is Some
    &&& cfg.replacement is Some
    &&& cfg.victim->0.len() > 0
    &&& !contains(cfg.replacement->0, cfg.victim->0)
}

/// The content of an optional area.
pub open spec fn area_view(area: Option<Area>) -> Option<Seq<u8>> {
    match area {
        Some(a) => Some(a@),
        None => None,
    }
}

/// A copy of an optional area.
fn area_copy(area: &Option<Area>) -> (r: Option<Area>)
    ensures
        area_view(r) == area_view(*area),
{
    match area {
        Some(a) => Some(a.clone()),
        None => None,
    }
}

/// `cfg` with what `read` holds in place of what it held.
pub open spec fn config_over(cfg: ConfigView, read: ConfigView) -> ConfigView {
    ConfigView {
        victim: if read.victim is Some {
            read.victim
        } else {
            cfg.victim
        },
        replacement: if read.replacement is Some {
            read.replacement
        } else {
            cfg.replacement
        },
        failed: read.failed,
    }
}

/// Reading options into a configuration changes what the options name and
/// keeps the rest.
pub proof fn lemma_config_run_over(cfg: ConfigView, entries: Fields)
    requires
        !cfg.failed,
    ensures
        config_run(cfg, entries) == config_over(cfg, config_run(no_config(), entries)),
    decreases entries.len(),
{
    if entries.len() > 0 {
        lemma_config_run_over(cfg, entries.drop_last());
    }
}

/// A configuration while it is read.
pub struct Config {
    victim: Option<Area>,
    replacement: Option<Area>,
    failed: bool,
}

impl View for Config {
    type V = ConfigView;

    closed spec fn view(&self) -> ConfigView {
        ConfigView {
            victim: area_view(self.victim),
            replacement: area_view(self.replacement),
            failed: self.failed,
        }
    }
}

impl Config {
    /// Can a service work with the configuration?
    pub fn accepted(&self) -> (r: bool)
        ensures
            r == config_accepted(self@),
    {
        if self.failed {
            return false;
        }
        match (&self.victim, &self.replacement) {
            (Some(victim), Some(replacement)) => {
                victim.len() > 0 && !contains_bytes(replacement.as_bytes(), victim.as_bytes())
            },
            _ => false,
        }
    }
}

/// Reads the options of a [`ModifyService`].
pub struct CfgVisitor {
    config: Config,
    seen: Ghost<Fields>,
}

impl CfgVisitor {
    /// What was read so far.
    pub closed spec fn config(&self) -> ConfigView {
        self.config@
    }

    /// A visitor that has read nothing.
    pub fn new() -> (v: CfgVisitor)
        ensures
            v.inv(),
            v.visited() == Seq::<(NameView, Seq<u8>)>::empty(),
    {
        CfgVisitor {
            config: Config { victim: None, replacement: None, failed: false },
            seen: Ghost(Seq::empty()),
        }
    }

    /// What was read is what the options say, read in order.
    pub proof fn lemma_config(&self)
        requires
            self.inv(),
        ensures
            self.config() == config_run(no_config(), self.visited()),
    {
    }
}

impl NamedValueVisitor for CfgVisitor {
    closed spec fn inv(&self) -> bool {
        self.config@ == config_run(no_config(), self.seen@)
    }

    closed spec fn visited(&self) -> Fields {
        self.seen@
    }

    fn visit(&mut self, name: &Name, value: &Area) {
        proof {
            let grown = self.seen@.push((name@, value@));
            assert(grown.drop_last() =~= self.seen@);
            self.seen@ = grown;
        }
        if self.config.failed {
            return ;
        }
        let is_victim: bool = match name.image() {
            Some(image) => bytes_eq(image, "victim".as_bytes()),
            None => false,
        };
        let is_replacement: bool = match name.image() {
            Some(image) => bytes_eq(image, "replacement".as_bytes()),
            None => false,
        };
        if is_victim {
            if value.len() == 0 {
                self.config.failed = true;
            } else {
                self.config.victim = Some(value.clone());
            }
        } else if is_replacement {
            self.config.replacement = Some(value.clone());
        } else if name.host_id().is_some() {
        } else {
            self.config.failed = true;
        }
    }
}

/// The settings of a service with the configuration `cfg`: its victim and
/// its replacement, in this order.
pub open spec fn config_settings(cfg: ConfigView) -> Settings {
    Settings { data: seq![cfg.victim, cfg.replacement] }
}

/// The configuration of a service with the settings `at`.
pub open spec fn settings_config(at: Settings) -> ConfigView {
    ConfigView { victim: at.data[0], replacement: at.data[1], failed: false }
}

/// A service that is configured with a victim and a replacement.
#[derive(Debug)]
pub struct ModifyService {
    victim: Option<Area>,
    replacement: Option<Area>,
}

impl ModifyService {
    /// A service that waits for its configuration.
    pub fn new() -> (s: ModifyService)
        ensures
            s.config() == no_config(),
    {
        ModifyService { victim: None, replacement: None }
    }

    /// What the service is configured with.
    pub closed spec fn config(&self) -> ConfigView {
        ConfigView {
            victim: area_view(self.victim),
            replacement: area_view(self.replacement),
            failed: false,
        }
    }

    /// Reads the options, beginning with the configuration that the
    /// service has or, for a new configuration, with none.
    fn read<T: Options>(&self, options: &T, again: bool) -> (r: Config)
        ensures
            r@ == config_run(
                if again {
                    no_config()
                } else {
                    self.config()
                },
                options.entries(),
            ),
    {
        let mut visitor: CfgVisitor = CfgVisitor::new();
        options.visit_each(&mut visitor);
        proof {
            assert(Seq::<(NameView, Seq<u8>)>::empty() + options.entries() == options.entries());
            visitor.lemma_config();
            lemma_config_run_over(self.config(), options.entries());
        }
        let mut config: Config = visitor.config;
        if !again {
            if config.victim.is_none() {
                config.victim = area_copy(&self.victim);
            }
            if config.replacement.is_none() {
                config.replacement = area_copy(&self.replacement);
            }
        }
        config
    }
}

impl<H: Host> Service<H> for ModifyService {
    type Transaction = ModifyTransaction;

    /// The service holds its victim and its replacement, in this order.
    open spec fn settings(&self) -> Settings {
        config_settings(self.config())
    }

    open spec fn spec_uri(at: Settings) -> Seq<char> {
        "ecap://rust/sample/modifying"@
    }

    open spec fn spec_tag(at: Settings) -> Seq<char> {
        "0.1.0"@
    }

    open spec fn spec_describe(at: Settings) -> Seq<char> {
        "A minimal adapter from ecap-sample-modifying v0.1.0"@
    }

    open spec fn spec_is_async(at: Settings) -> bool {
        false
    }

    open spec fn admits_options(at: Settings, entries: Fields, again: bool) -> bool {
        config_accepted(
            config_run(
                if again {
                    no_config()
                } else {
                    settings_config(at)
                },
                entries,
            ),
        )
    }

    /// The victim and the replacement are those of the options, read on
    /// top of the ones that the service has or, for a new configuration,
    /// on top of none.
    open spec fn configures(at: Settings, entries: Fields, again: bool, next: Settings) -> bool {
        next == config_settings(
            config_run(
                if again {
                    no_config()
                } else {
                    settings_config(at)
                },
                entries,
            ),
        )
    }

    open spec fn ready(at: Settings) -> bool {
        config_accepted(settings_config(at))
    }

    /// A transaction starts with nothing decided and nothing buffered, and
    /// with the victim and the replacement of the service.
    open spec fn makes(at: Settings, transaction: Standing) -> bool {
        transaction == modify_standing(
            undecided(),
            Seq::empty(),
            settings_config(at).victim->0,
            settings_config(at).replacement->0,
        )
    }

    /// The adapter is applied to all messages.
    open spec fn spec_wants_url(at: Settings, url: Seq<u8>) -> bool {
        true
    }

    /// The service is not async: it leaves the timeout as it is.
    open spec fn suspends(at: Settings, before: Timeout, after: Timeout) -> bool {
        after == before
    }

    fn uri(&self) -> (r: String) {
        "ecap://rust/sample/modifying".to_owned()
    }

    fn tag(&self) -> (r: String) {
        "0.1.0".to_owned()
    }

    fn describe(&self) -> (r: String) {
        "A minimal adapter from ecap-sample-modifying v0.1.0".to_owned()
    }

    fn is_async(&self) -> (r: bool) {
        false
    }

    fn is_ready(&self) -> (r: bool) {
        match (&self.victim, &self.replacement) {
            (Some(victim), Some(replacement)) => {
                victim.len() > 0 && !contains_bytes(replacement.as_bytes(), victim.as_bytes())
            },
            _ => false,
        }
    }

    fn accepts_options<T: Options>(&self, options: &T, again: bool) -> (r: bool) {
        let config: Config = self.read(options, again);
        config.accepted()
    }

    /// Takes the victim and the replacement from the options.
    fn configure<T: Options>(&mut self, options: &T) {
        let config: Config = self.read(options, false);
        self.victim = config.victim;
        self.replacement = config.replacement;
    }

    /// Forgets the victim and the replacement, and takes new ones from the
    /// options.
    fn reconfigure<T: Options>(&mut self, options: &T) {
        let config: Config = self.read(options, true);
        self.victim = config.victim;
        self.replacement = config.replacement;
    }

    fn start(&self) {
    }

    /// The service is not async: it leaves the timeout as it is.
    fn suspend(&self, timeout: &mut Timeout) {
    }

    fn resume(&self) {
    }

    fn stop(&self) {
    }

    fn retire(&self) {
    }

    fn wants_url(&self, url: &[u8]) -> (r: bool) {
        true
    }

    fn make_transaction(&mut self, host: &mut H::Transaction) -> (r: ModifyTransaction) {
        let victim: Area = self.victim.as_ref().unwrap().clone();
        let replacement: Area = self.replacement.as_ref().unwrap().clone();
        ModifyTransaction {
            receiving: State::Undecided,
            sending: State::Undecided,
            pair: Substitution::new(victim, replacement),
            buffer: Vec::new(),
        }
    }
}

/// A transaction that gives the host a copy of the virgin message, marked
/// as adapted, and for the adapted body the virgin body with the victim
/// replaced.
pub struct ModifyTransaction {
    receiving: State,
    sending: State,
    pair: Substitution,
    buffer: Vec<u8>,
}

/// The name of the header field that gives the length of the body.
pub open spec fn content_length() -> NameView {
    NameView { image: Some(encode_utf8("Content-Length"@)), id: Id::Unidentified, host_id: None }
}

/// The header field that marks a message as adapted.
pub open spec fn mark() -> (NameView, Seq<u8>) {
    (
        NameView { image: Some(encode_utf8("X-Ecap"@)), id: Id::Unidentified, host_id: None },
        encode_utf8("foo"@),
    )
}

/// The message that the host is given to use: the virgin message without
/// the length of its body, which the replacing may change, and with the
/// mark.
pub open spec fn marked(virgin: MessageView) -> MessageView {
    MessageView { header: without_field(virgin.header, content_length()).push(mark()), ..virgin }
}

/// The calls that a modifying transaction takes where it stands at `tracks`
/// with `buffered` bytes of adapted content.
pub open spec fn modify_admits(
    tracks: Tracks,
    buffered: nat,
    call: AdapterCall,
    host: HostView,
) -> bool {
    match call {
        AdapterCall::AdaptedBodyDiscard => tracks.sending == State::Undecided && tracks.receiving
            != State::Undecided,
        AdapterCall::AdaptedBodyMake => tracks.sending == State::Undecided && host.virgin_has_body()
            && (tracks.receiving == State::On || tracks.receiving == State::Complete),
        AdapterCall::AdaptedBodyMakeMore => tracks.receiving == State::On,
        AdapterCall::AdaptedBodyStopMaking => tracks.receiving != State::Undecided,
        AdapterCall::AdaptedBodyContent { offset, size } => (tracks.sending == State::On
            || tracks.sending == State::Complete) && offset <= buffered,
        AdapterCall::AdaptedBodyContentShift { size } => size <= buffered,
        AdapterCall::VirginBodyContentDone { .. } => tracks.receiving == State::On,
        AdapterCall::VirginBodyContentAvailable => tracks.receiving == State::On,
        _ => true,
    }
}

/// The virgin body after the transaction has told the host that no more of
/// it is needed.
pub open spec fn stopped(receiving: State) -> State {
    if receiving == State::On {
        State::Complete
    } else {
        receiving
    }
}

/// Where a modifying transaction stands after a call that it takes.
pub open spec fn modify_next(tracks: Tracks, call: AdapterCall, virgin_has_body: bool) -> Tracks {
    match call {
        AdapterCall::Start => Tracks {
            receiving: if virgin_has_body {
                State::On
            } else {
                State::Never
            },
            sending: if virgin_has_body {
                tracks.sending
            } else {
                State::Never
            },
        },
        AdapterCall::AdaptedBodyDiscard => Tracks {
            receiving: stopped(tracks.receiving),
            sending: State::Never,
        },
        AdapterCall::AdaptedBodyMake => Tracks { sending: State::On, ..tracks },
        AdapterCall::AdaptedBodyStopMaking => Tracks {
            receiving: stopped(tracks.receiving),
            sending: State::Complete,
        },
        AdapterCall::VirginBodyContentDone { .. } => Tracks {
            receiving: stopped(tracks.receiving),
            sending: if tracks.sending == State::On {
                State::Complete
            } else {
                tracks.sending
            },
        },
        _ => tracks,
    }
}

impl ModifyTransaction {
    /// Where the transaction stands.
    pub closed spec fn tracks(&self) -> Tracks {
        Tracks { receiving: self.receiving, sending: self.sending }
    }

    /// The byte string that is replaced.
    pub closed spec fn victim(&self) -> Seq<u8> {
        self.pair.victim()
    }

    /// The byte string that is put in its place.
    pub closed spec fn replacement(&self) -> Seq<u8> {
        self.pair.replacement()
    }

    /// The adapted content that the host has not taken yet.
    pub closed spec fn buffer(&self) -> Seq<u8> {
        self.buffer@
    }

    /// Where the transaction stands with the virgin body.
    pub fn receiving(&self) -> (r: State)
        ensures
            r == self.tracks().receiving,
    {
        self.receiving
    }

    /// Where the transaction stands with the adapted body.
    pub fn sending(&self) -> (r: State)
        ensures
            r == self.tracks().sending,
    {
        self.sending
    }

    /// The number of bytes of adapted content that the host has not taken
    /// yet.
    pub fn buffered(&self) -> (n: usize)
        ensures
            n == self.buffer().len(),
    {
        self.buffer.len()
    }

    /// Tells the host that no more of the virgin body is needed, unless
    /// the body is over or was never asked for.
    pub fn stop_virgin_body<H: Host>(&mut self, host: &mut H::Transaction)
        requires
            old(self).tracks().receiving != State::Undecided,
        ensures
            final(self).tracks() == (Tracks {
                receiving: if old(self).tracks().receiving == State::On {
                    State::Complete
                } else {
                    old(self).tracks().receiving
                },
                ..old(self).tracks()
            }),
            final(self).buffer() == old(self).buffer(),
            final(self).victim() == old(self).victim(),
            final(self).replacement() == old(self).replacement(),
            final(host)@ == (if old(self).tracks().receiving == State::On {
                old(host)@.called(HostCall::VirginBodyStopMaking)
            } else {
                old(host)@
            }),
    {
        if self.receiving == State::On {
            host.virgin_body_stop_making();
            self.receiving = State::Complete;
        }
    }

    /// Replaces the victim by the replacement throughout `content`.
    pub fn adapt_content(&self, content: &mut Vec<u8>)
        ensures
            final(content)@ == substituted(old(content)@, self.victim(), self.replacement()),
    {
        self.pair.apply(content);
    }
}

/// The calls that the host gets when virgin content is available, of which
/// the transaction takes `taken` bytes.
pub open spec fn available_calls(taken: usize, sending: State) -> Seq<HostCall> {
    let asked = seq![
        HostCall::VirginBodyContent { offset: 0, size: usize::MAX },
        HostCall::VirginBodyContentShift { size: taken },
    ];
    if sending == State::On {
        asked.push(HostCall::AdaptedBodyContentAvailable)
    } else {
        asked
    }
}

/// The host after the transaction has told it, where the virgin body was
/// being received, that no more of it is needed.
pub open spec fn virgin_body_stopped(receiving: State, host: HostView) -> HostView {
    if receiving == State::On {
        host.called(HostCall::VirginBodyStopMaking)
    } else {
        host
    }
}

/// What a call that a modifying transaction takes does to the adapted
/// content that is buffered, and to the host.
///
/// In `start` the transaction asks for the virgin body, where there is
/// one, and gives the host a marked copy of the virgin message to use.
/// When the adapted body is given up or finished, no more of the virgin
/// body is asked for. Virgin content that is available is taken from the
/// host, as much as the host gives, and added to the buffer with the victim
/// replaced. The host takes adapted content from the front of the buffer.
pub open spec fn modify_leaves(
    tracks: Tracks,
    buffer: Seq<u8>,
    victim: Seq<u8>,
    replacement: Seq<u8>,
    call: AdapterCall,
    host: HostView,
    buffer_after: Seq<u8>,
    host_after: HostView,
) -> bool {
    match call {
        AdapterCall::Start => buffer_after == buffer && host_after == (HostView {
            calls: host.calls + start_calls(host.virgin_has_body()),
            adapted: Some(marked(host.virgin)),
            ..host
        }),
        AdapterCall::AdaptedBodyDiscard => buffer_after == buffer && host_after
            == virgin_body_stopped(tracks.receiving, host),
        AdapterCall::AdaptedBodyStopMaking => buffer_after == buffer && host_after
            == virgin_body_stopped(tracks.receiving, host),
        AdapterCall::AdaptedBodyMake => buffer_after == buffer && host_after == (if buffer.len()
            > 0 {
            host.called(HostCall::AdaptedBodyContentAvailable)
        } else {
            host
        }),
        AdapterCall::AdaptedBodyMakeMore => buffer_after == buffer && host_after == host.called(
            HostCall::VirginBodyMakeMore,
        ),
        AdapterCall::AdaptedBodyContentShift { size } => buffer_after == buffer.subrange(
            size as int,
            buffer.len() as int,
        ) && host_after == host,
        AdapterCall::VirginBodyContentDone { at_end } => buffer_after == buffer && host_after == (
        if tracks.sending == State::On {
            virgin_body_stopped(tracks.receiving, host).called(
                HostCall::AdaptedBodyContentDone { at_end },
            )
        } else {
            virgin_body_stopped(tracks.receiving, host)
        }),
        AdapterCall::VirginBodyContentAvailable => {
            let taken = host.content.len() - host_after.content.len();
            &&& host_after.content.len() <= host.content.len()
            &&& buffer_after == buffer + substituted(
                host.content.subrange(0, taken),
                victim,
                replacement,
            )
            &&& host_after == (HostView {
                calls: host.calls + available_calls(taken as usize, tracks.sending),
                content: host.content.subrange(taken, host.content.len() as int),
                ..host
            })
        },
        _ => buffer_after == buffer && host_after == host,
    }
}

/// What a modifying transaction stands at: its tracks, and the adapted
/// content that is buffered, the victim and the replacement, in this order.
pub open spec fn modify_standing(
    tracks: Tracks,
    buffer: Seq<u8>,
    victim: Seq<u8>,
    replacement: Seq<u8>,
) -> Standing {
    Standing { tracks, data: seq![buffer, victim, replacement] }
}

impl<H: Host> Transaction<H> for ModifyTransaction {
    open spec fn standing(&self) -> Standing {
        modify_standing(self.tracks(), self.buffer(), self.victim(), self.replacement())
    }

    open spec fn admits(at: Standing, call: AdapterCall, host: HostView) -> bool {
        modify_admits(at.tracks, at.data[0].len(), call, host)
    }

    /// The adapted content comes from the buffer, and the host is not
    /// asked for any.
    open spec fn answers(
        at: Standing,
        host: HostView,
        offset: usize,
        size: usize,
        content: Seq<u8>,
        after: HostView,
    ) -> bool {
        content == window(at.data[0], offset, size) && after == host
    }

    open spec fn leaves(
        at: Standing,
        call: AdapterCall,
        host: HostView,
        next: Standing,
        host_after: HostView,
    ) -> bool {
        &&& next == modify_standing(
            modify_next(at.tracks, call, host.virgin_has_body()),
            next.data[0],
            at.data[1],
            at.data[2],
        )
        &&& modify_leaves(
            at.tracks,
            at.data[0],
            at.data[1],
            at.data[2],
            call,
            host,
            next.data[0],
            host_after,
        )
    }

    fn accepts(&self, call: AdapterCall, host: &mut H::Transaction) -> (r: bool) {
        match call {
            AdapterCall::AdaptedBodyDiscard => self.sending == State::Undecided && self.receiving
                != State::Undecided,
            AdapterCall::AdaptedBodyMake => {
                let has_body: bool = host.virgin().body().is_some();
                self.sending == State::Undecided && has_body && (self.receiving == State::On
                    || self.receiving == State::Complete)
            },
            AdapterCall::AdaptedBodyMakeMore => self.receiving == State::On,
            AdapterCall::AdaptedBodyStopMaking => self.receiving != State::Undecided,
            AdapterCall::AdaptedBodyContent { offset, size } => (self.sending == State::On
                || self.sending == State::Complete) && offset <= self.buffer.len(),
            AdapterCall::AdaptedBodyContentShift { size } => size <= self.buffer.len(),
            AdapterCall::VirginBodyContentDone { .. } => self.receiving == State::On,
            AdapterCall::VirginBodyContentAvailable => self.receiving == State::On,
            _ => true,
        }
    }

    /// Asks for the virgin body, where there is one, and gives the host a
    /// marked copy of the virgin message to use. Without a body there is
    /// nothing to send.
    fn start(&mut self, host: &mut H::Transaction) {
        let has_body: bool = host.virgin().body().is_some();
        if has_body {
            self.receiving = State::On;
            host.virgin_body_make();
        } else {
            self.receiving = State::Never;
        }
        let mut adapted: H::Message = host.virgin().clone();
        let content_length: Name = Name::new_known("Content-Length".as_bytes());
        adapted.header_mut().remove_any(&content_length);
        let name: Name = Name::new_known("X-Ecap".as_bytes());
        let value: Area = Area::from_bytes("foo".as_bytes());
        adapted.header_mut().insert(name, value);
        if adapted.body().is_none() {
            self.sending = State::Never;
        }
        host.use_adapted(adapted);
        assert(final(host)@.calls == old(host)@.calls + start_calls(old(host)@.virgin_has_body()));
    }

    fn stop(&mut self, host: &mut H::Transaction) {
    }

    fn resume(&mut self, host: &mut H::Transaction) {
    }

    /// The host wants no adapted body, so no more of the virgin body is
    /// needed.
    fn adapted_body_discard(&mut self, host: &mut H::Transaction) {
        self.sending = State::Never;
        self.stop_virgin_body::<H>(host);
    }

    fn adapted_body_make(&mut self, host: &mut H::Transaction) {
        self.sending = State::On;
        if self.buffer.len() > 0 {
            host.adapted_body_content_available();
        }
    }

    fn adapted_body_make_more(&mut self, host: &mut H::Transaction) {
        host.virgin_body_make_more();
    }

    /// The adapted body is complete as far as the host is concerned, so
    /// no more of the virgin body is needed.
    fn adapted_body_stop_making(&mut self, host: &mut H::Transaction) {
        self.sending = State::Complete;
        self.stop_virgin_body::<H>(host);
    }

    fn adapted_body_pause(&mut self, host: &mut H::Transaction) {
    }

    fn adapted_body_resume(&mut self, host: &mut H::Transaction) {
    }

    fn adapted_body_content(&mut self, host: &mut H::Transaction, offset: usize, size: usize) -> (r:
        Area) {
        let len: usize = self.buffer.len();
        let end: usize = if size >= len - offset {
            len
        } else {
            offset + size
        };
        let mut part: Vec<u8> = Vec::new();
        append_range(&mut part, self.buffer.as_slice(), offset, end);
        assert(part@ == window(self.buffer@, offset, size));
        Area::from_bytes(part.as_slice())
    }

    /// Drops the first `size` bytes of the adapted content, which the host
    /// has taken.
    fn adapted_body_content_shift(&mut self, host: &mut H::Transaction, size: usize) {
        let mut rest: Vec<u8> = Vec::new();
        append_range(&mut rest, self.buffer.as_slice(), size, self.buffer.len());
        self.buffer = rest;
    }

    /// The virgin body is over: no more of it is asked for and, where the
    /// adapted body is being made, it is over too.
    fn virgin_body_content_done(&mut self, host: &mut H::Transaction, at_end: bool) {
        self.stop_virgin_body::<H>(host);
        if self.sending == State::On {
            host.adapted_body_content_done(at_end);
            self.sending = State::Complete;
        }
    }

    /// Takes the virgin content that the host has, replaces the victim in
    /// it and adds it to the adapted content.
    fn virgin_body_content_available(&mut self, host: &mut H::Transaction) {
        let area: Area = host.virgin_body_content(0, usize::MAX);
        let mut bytes: Vec<u8> = to_vec(area.as_bytes());
        let taken: usize = bytes.len();
        let ghost content = old(host)@.content;
        proof {
            assert(area@.is_prefix_of(content));
            assert(content.subrange(0, taken as int) =~= area@);
        }
        host.virgin_body_content_shift(taken);
        proof {
            assert(host@.content =~= content.subrange(taken as int, content.len() as int));
            assert(content.len() - host@.content.len() == taken);
        }
        self.adapt_content(&mut bytes);
        append_range(&mut self.buffer, bytes.as_slice(), 0, bytes.len());
        assert(bytes@.subrange(0, bytes@.len() as int) == bytes@);
        if self.sending == State::On {
            host.adapted_body_content_available();
        }
        assert(final(host)@.calls =~= old(host)@.calls + available_calls(
            taken,
            old(self).tracks().sending,
        ));
        assert(final(host)@.content == content.subrange(taken as int, content.len() as int));
    }
}

impl Options for ModifyTransaction {
    /// The transaction has no meta-information.
    open spec fn entries(&self) -> Fields {
        Seq::empty()
    }

    fn option(&self, name: &Name) -> (r: Option<Area>) {
        None
    }

    fn visit_each<V: NamedValueVisitor>(&self, visitor: &mut V) {
        assert(visitor.visited() + Seq::<(NameView, Seq<u8>)>::empty() == visitor.visited());
    }
}

/// A host that keeps to the order of the protocol, and asks for adapted
/// content only where there is some, never makes a call that a modifying
/// transaction does not take.
pub proof fn lemma_modify_takes_legal_calls(
    tracks: Tracks,
    buffered: nat,
    call: AdapterCall,
    host: HostView,
)
    requires
        legal(tracks, call, host.virgin_has_body()),
        tracks.sending == State::On ==> tracks.receiving != State::Undecided,
        call matches AdapterCall::AdaptedBodyContent { offset, size } ==> offset <= buffered,
        call matches AdapterCall::AdaptedBodyContentShift { size } ==> size <= buffered,
    ensures
        modify_admits(tracks, buffered, call, host),
{
}

/// Through a run of calls in which the host keeps to the order of the
/// protocol, a modifying transaction that is being sent from has begun to
/// receive.
pub proof fn lemma_modify_sends_what_it_received(calls: Seq<AdapterCall>, virgin_has_body: bool)
    requires
        legal_run(
            |t: Tracks, c: AdapterCall, b: bool| modify_next(t, c, b),
            undecided(),
            calls,
            virgin_has_body,
        ),
    ensures
        ({
            let tracks = tracks_after(
                |t: Tracks, c: AdapterCall, b: bool| modify_next(t, c, b),
                undecided(),
                calls,
                virgin_has_body,
            );
            tracks.sending == State::On || tracks.sending == State::Complete ==> tracks.receiving
                != State::Undecided
        }),
    decreases calls.len(),
{
    let next = |t: Tracks, c: AdapterCall, b: bool| modify_next(t, c, b);
    if calls.len() > 0 {
        let front = calls.drop_last();
        assert forall|i: int| 0 <= i < front.len() implies legal(
            #[trigger] tracks_after(next, undecided(), front.subrange(0, i), virgin_has_body),
            front[i],
            virgin_has_body,
        ) by {
            assert(front.subrange(0, i) =~= calls.subrange(0, i));
        }
        lemma_modify_sends_what_it_received(front, virgin_has_body);
        assert(calls.subrange(0, calls.len() - 1) =~= front);
        assert(legal(
            tracks_after(next, undecided(), calls.subrange(0, calls.len() - 1), virgin_has_body),
            calls[calls.len() - 1],
            virgin_has_body,
        ));
    }
}

/// Through any run of calls from its making in which the host keeps to the
/// order of the protocol, a modifying transaction takes every call, but for
/// a call for adapted content that reaches beyond what is buffered.
pub proof fn lemma_modify_takes_legal_runs(
    calls: Seq<AdapterCall>,
    buffered: nat,
    host: HostView,
    i: int,
)
    requires
        legal_run(
            |t: Tracks, c: AdapterCall, b: bool| modify_next(t, c, b),
            undecided(),
            calls,
            host.virgin_has_body(),
        ),
        0 <= i < calls.len(),
        calls[i] matches AdapterCall::AdaptedBodyContent { offset, size } ==> offset <= buffered,
        calls[i] matches AdapterCall::AdaptedBodyContentShift { size } ==> size <= buffered,
    ensures
        modify_admits(
            tracks_after(
                |t: Tracks, c: AdapterCall, b: bool| modify_next(t, c, b),
                undecided(),
                calls.subrange(0, i),
                host.virgin_has_body(),
            ),
            buffered,
            calls[i],
            host,
        ),
{
    let next = |t: Tracks, c: AdapterCall, b: bool| modify_next(t, c, b);
    let front = calls.subrange(0, i);
    assert forall|k: int| 0 <= k < front.len() implies legal(
        #[trigger] tracks_after(next, undecided(), front.subrange(0, k), host.virgin_has_body()),
        front[k],
        host.virgin_has_body(),
    ) by {
        assert(front.subrange(0, k) =~= calls.subrange(0, k));
    }
    lemma_modify_sends_what_it_received(front, host.virgin_has_body());
}

/// Once a modifying transaction makes the adapted body, it does not take
/// the call to make it again.
pub proof fn lemma_modify_makes_body_once(tracks: Tracks, buffered: nat, host: HostView)
    requires
        modify_admits(tracks, buffered, AdapterCall::AdaptedBodyMake, host),
    ensures
        !modify_admits(
            Tracks { sending: State::On, ..tracks },
            buffered,
            AdapterCall::AdaptedBodyMake,
            host,
        ),
{
}

} // verus!
