//! Adapter services.
use vstd::prelude::*;
use crate::adapter::protocol::Standing;
use crate::adapter::transaction::Transaction;
use crate::common::named_values::Fields;
use crate::common::options::Options;
use crate::common::timeout::Timeout;
use crate::host::host::Host;
use crate::host::transaction::Transaction as HostTransaction;

verus! {

/// What a service is configured with: the byte strings that it holds, as
/// far as it has them. What a service of a kind answers and does goes by
/// this alone.
pub struct Settings {
    pub data: Seq<Option<Seq<u8>>>,
}

/// An adapter: it is configured by the host and makes a transaction for
/// each message that the host wants adapted.
pub trait Service<H: Host> {
    type Transaction: Transaction<H>;

    /// What the service is configured with.
    spec fn settings(&self) -> Settings;

    spec fn spec_uri(at: Settings) -> Seq<char>;

    spec fn spec_tag(at: Settings) -> Seq<char>;

    spec fn spec_describe(at: Settings) -> Seq<char>;

    spec fn spec_is_async(at: Settings) -> bool;

    /// Does a service with the settings `at` take this configuration?
    /// `again` tells a new configuration, which replaces the one that the
    /// service has, from the first.
    spec fn admits_options(at: Settings, entries: Fields, again: bool) -> bool;

    /// May a service with the settings `at`, configured with `entries`,
    /// have the settings `next`?
    spec fn configures(at: Settings, entries: Fields, again: bool, next: Settings) -> bool;

    /// Is a service with the settings `at` configured, so that it can make
    /// transactions?
    spec fn ready(at: Settings) -> bool;

    /// Does a service with the settings `at` make transactions that stand
    /// at `transaction`?
    spec fn makes(at: Settings, transaction: Standing) -> bool;

    /// Does a service with the settings `at` want the messages of this
    /// URL?
    spec fn spec_wants_url(at: Settings, url: Seq<u8>) -> bool;

    /// May a service with the settings `at`, asked to suspend for
    /// `before`, answer `after`?
    spec fn suspends(at: Settings, before: Timeout, after: Timeout) -> bool;

    /// The returned string should be unique across vendors.
    fn uri(&self) -> (r: String)
        ensures
            r@ == Self::spec_uri(self.settings()),
    ;

    /// Identifies this version and configuration of this adapter.
    fn tag(&self) -> (r: String)
        ensures
            r@ == Self::spec_tag(self.settings()),
    ;

    /// Free-format description of the adapter.
    fn describe(&self) -> (r: String)
        ensures
            r@ == Self::spec_describe(self.settings()),
    ;

    /// Determines whether this adapter requires async transactions. If
    /// not, the host will not call `suspend` and `resume`.
    fn is_async(&self) -> (r: bool)
        ensures
            r == Self::spec_is_async(self.settings()),
    ;

    /// Is the service configured, so that it can make transactions?
    fn is_ready(&self) -> (r: bool)
        ensures
            r == Self::ready(self.settings()),
    ;

    /// Does the service take this configuration?
    fn accepts_options<T: Options>(&self, options: &T, again: bool) -> (r: bool)
        ensures
            r == Self::admits_options(self.settings(), options.entries(), again),
    ;

    /// Called by the host to configure the service, once.
    fn configure<T: Options>(&mut self, options: &T)
        requires
            Self::admits_options(old(self).settings(), options.entries(), false),
        ensures
            Self::configures(
                old(self).settings(),
                options.entries(),
                false,
                final(self).settings(),
            ),
            Self::ready(final(self).settings()),
    ;

    /// Called by the host when the configuration changes. It may come with
    /// the configuration that the service has.
    fn reconfigure<T: Options>(&mut self, options: &T)
        requires
            Self::admits_options(old(self).settings(), options.entries(), true),
        ensures
            Self::configures(
                old(self).settings(),
                options.entries(),
                true,
                final(self).settings(),
            ),
            Self::ready(final(self).settings()),
    ;

    /// Prepare for calls of `make_transaction`.
    fn start(&self);

    /// Tells the host how soon transactions will be ready for more work.
    /// The service may shorten the timeout and may not lengthen it.
    fn suspend(&self, timeout: &mut Timeout)
        ensures
            Self::suspends(self.settings(), *old(timeout), *final(timeout)),
            final(timeout).micros() <= old(timeout).micros(),
    ;

    /// Only for async services: resume the transactions that are ready.
    fn resume(&self);

    /// Pause making transactions until `start` is called.
    fn stop(&self);

    /// The host will not call `make_transaction` again.
    fn retire(&self);

    /// Should `make_transaction` be called for this URL?
    fn wants_url(&self, url: &[u8]) -> (r: bool)
        ensures
            r == Self::spec_wants_url(self.settings(), url@),
    ;

    /// Makes a transaction to give to the host. The service keeps its
    /// settings.
    fn make_transaction(&mut self, host: &mut H::Transaction) -> (r: Self::Transaction)
        requires
            Self::ready(old(self).settings()),
        ensures
            Self::makes(old(self).settings(), r.standing()),
            final(self).settings() == old(self).settings(),
            final(host)@ == old(host)@,
    ;
}

} // verus!
