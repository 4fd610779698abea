//! The calls that the host makes on a service.
use vstd::prelude::*;
use vstd::utf8::encode_utf8;
use crate::common::options::Options;
use crate::common::timeout::{unsigned64, Timeout};
use crate::cpp::bridge::{CppTranslator, ServicePtr, ShimError};
use crate::adapter::service::Settings;
use crate::erased::{same_service_kind, BoxedService, Service};
use crate::host::host::Host;
use crate::sys::{CVec, Timeval};
use crate::Translator;

verus! {

/// The time that a span of the host's layout stands for, in microseconds.
pub open spec fn timeval_micros(tv: Timeval) -> int {
    unsigned64(tv.tv_sec) * 1_000_000 + unsigned64(tv.tv_usec)
}

impl<K: Host + 'static> CppTranslator<K> {
    /// Does the handle stand for a service?
    pub open spec fn has_service(&self, service: ServicePtr) -> bool {
        self.services().holds(service)
    }

    /// The service that the handle stands for.
    pub open spec fn service(&self, service: ServicePtr) -> BoxedService<K> {
        self.services().value(service)
    }

    /// What the service that the handle stands for is configured with.
    pub open spec fn settings(&self, service: ServicePtr) -> Settings {
        self.service(service).inner.settings()
    }

    /// Does the handle stand for a service?
    pub fn to_service(&self, service: ServicePtr) -> (r: bool)
        ensures
            r == self.has_service(service),
    {
        self.services.contains(service)
    }

    /// Tells the service to prepare for making transactions.
    pub fn rust_service_start(&self, service: ServicePtr) -> (r: Result<(), ShimError>)
        ensures
            r == (if self.has_service(service) {
                Ok::<(), ShimError>(())
            } else {
                Err::<(), ShimError>(ShimError::NoSuchHandle)
            }),
    {
        match self.services.get(service) {
            Some(s) => {
                s.inner.start();
                Ok(())
            },
            None => Err(ShimError::NoSuchHandle),
        }
    }

    /// Tells the service to pause making transactions.
    pub fn rust_service_stop(&self, service: ServicePtr) -> (r: Result<(), ShimError>)
        ensures
            r == (if self.has_service(service) {
                Ok::<(), ShimError>(())
            } else {
                Err::<(), ShimError>(ShimError::NoSuchHandle)
            }),
    {
        match self.services.get(service) {
            Some(s) => {
                s.inner.stop();
                Ok(())
            },
            None => Err(ShimError::NoSuchHandle),
        }
    }

    /// Tells the service that it will make no more transactions.
    pub fn rust_service_retire(&self, service: ServicePtr) -> (r: Result<(), ShimError>)
        ensures
            r == (if self.has_service(service) {
                Ok::<(), ShimError>(())
            } else {
                Err::<(), ShimError>(ShimError::NoSuchHandle)
            }),
    {
        match self.services.get(service) {
            Some(s) => {
                s.inner.retire();
                Ok(())
            },
            None => Err(ShimError::NoSuchHandle),
        }
    }

    /// Tells an async service to resume the transactions that are ready.
    pub fn rust_service_resume(&self, service: ServicePtr) -> (r: Result<(), ShimError>)
        ensures
            r == (if self.has_service(service) {
                Ok::<(), ShimError>(())
            } else {
                Err::<(), ShimError>(ShimError::NoSuchHandle)
            }),
    {
        match self.services.get(service) {
            Some(s) => {
                s.inner.resume();
                Ok(())
            },
            None => Err(ShimError::NoSuchHandle),
        }
    }

    /// Asks the service whether it is async.
    pub fn rust_service_is_async(&self, service: ServicePtr) -> (r: Result<bool, ShimError>)
        ensures
            r == (if self.has_service(service) {
                Ok::<bool, ShimError>(
                    self.service(service).inner.spec_is_async(self.settings(service)),
                )
            } else {
                Err::<bool, ShimError>(ShimError::NoSuchHandle)
            }),
    {
        match self.services.get(service) {
            Some(s) => Ok(s.inner.is_async()),
            None => Err(ShimError::NoSuchHandle),
        }
    }

    /// Asks the service how soon its transactions will be ready. The
    /// answer is the host's own span or a shorter one. A span that does
    /// not fit the library's count of time is refused.
    pub fn rust_service_suspend(&self, service: ServicePtr, duration: Timeval) -> (r: Result<
        Timeval,
        ShimError,
    >)
        ensures
            !self.has_service(service) ==> r == Err::<Timeval, ShimError>(ShimError::NoSuchHandle),
            self.has_service(service) && unsigned64(duration.tv_sec) + unsigned64(duration.tv_usec)
                / 1_000_000 > u64::MAX ==> r == Err::<Timeval, ShimError>(ShimError::Refused),
            self.has_service(service) && unsigned64(duration.tv_sec) + unsigned64(duration.tv_usec)
                / 1_000_000 <= u64::MAX ==> r is Ok && 0 <= r->Ok_0.tv_usec < 1_000_000
                && timeval_micros(r->Ok_0) <= timeval_micros(duration) && exists|
                before: Timeout,
                after: Timeout,
            |
                before.micros() == timeval_micros(duration) && #[trigger] self.service(
                    service,
                ).inner.suspends(self.settings(service), before, after) && after.micros()
                    == timeval_micros(r->Ok_0),
    {
        match self.services.get(service) {
            Some(s) => {
                match Timeout::from_timeval(duration) {
                    Some(timeout) => {
                        let ghost before: Timeout = timeout;
                        let mut timeout: Timeout = timeout;
                        s.inner.suspend(&mut timeout);
                        let tv: Timeval = timeout.to_timeval();
                        proof {
                            let secs = (timeout.micros() / 1_000_000) as u64;
                            assert(timeout.micros() == secs * 1_000_000 + timeout.micros()
                                % 1_000_000) by (nonlinear_arith)
                                requires
                                    secs == timeout.micros() / 1_000_000,
                            ;
                        }
                        assert(timeval_micros(tv) == timeout.micros());
                        assert(before.micros() == timeval_micros(duration));
                        assert(self.service(service).inner.suspends(self.settings(service), before, timeout));
                        Ok(tv)
                    },
                    None => Err(ShimError::Refused),
                }
            },
            None => Err(ShimError::NoSuchHandle),
        }
    }

    /// Asks the service for its description, for the host to write out.
    pub fn rust_service_describe(&self, service: ServicePtr) -> (r: Result<CVec, ShimError>)
        ensures
            r is Ok <==> self.has_service(service),
            r matches Ok(v) ==> v@ == encode_utf8(
                self.service(service).inner.spec_describe(self.settings(service)),
            ),
            r matches Err(e) ==> e == ShimError::NoSuchHandle,
    {
        match self.services.get(service) {
            Some(s) => {
                let text: String = s.inner.describe();
                Ok(CVec::from_string(&text))
            },
            None => Err(ShimError::NoSuchHandle),
        }
    }

    /// Asks the service for its URI.
    pub fn rust_service_uri(&self, service: ServicePtr) -> (r: Result<CVec, ShimError>)
        ensures
            r is Ok <==> self.has_service(service),
            r matches Ok(v) ==> v@ == encode_utf8(
                self.service(service).inner.spec_uri(self.settings(service)),
            ),
            r matches Err(e) ==> e == ShimError::NoSuchHandle,
    {
        match self.services.get(service) {
            Some(s) => {
                let text: String = s.inner.uri();
                Ok(CVec::from_string(&text))
            },
            None => Err(ShimError::NoSuchHandle),
        }
    }

    /// Asks the service for its tag.
    pub fn rust_service_tag(&self, service: ServicePtr) -> (r: Result<CVec, ShimError>)
        ensures
            r is Ok <==> self.has_service(service),
            r matches Ok(v) ==> v@ == encode_utf8(
                self.service(service).inner.spec_tag(self.settings(service)),
            ),
            r matches Err(e) ==> e == ShimError::NoSuchHandle,
    {
        match self.services.get(service) {
            Some(s) => {
                let text: String = s.inner.tag();
                Ok(CVec::from_string(&text))
            },
            None => Err(ShimError::NoSuchHandle),
        }
    }

    /// Configures the service, where it takes the options. Behind the
    /// handle is then a service of the same kind, with the settings that
    /// the options give it.
    pub fn rust_service_configure(&mut self, service: ServicePtr, options: &K::Options) -> (r: Result<
        (),
        ShimError,
    >)
        ensures
            final(self).transactions() == old(self).transactions(),
            final(self).rest_unchanged(old(self)),
            !old(self).has_service(service) ==> r == Err::<(), ShimError>(ShimError::NoSuchHandle)
                && final(self).services() == old(self).services(),
            old(self).has_service(service) && !old(self).service(service).inner.admits_options(
                old(self).settings(service),
                options.entries(),
                false,
            ) ==> r == Err::<(), ShimError>(ShimError::Refused) && final(self).services().same(
                &old(self).services(),
            ),
            old(self).has_service(service) && old(self).service(service).inner.admits_options(
                old(self).settings(service),
                options.entries(),
                false,
            ) ==> {
                &&& r is Ok
                &&& final(self).has_service(service)
                &&& final(self).services().same_but(&old(self).services(), service)
                &&& same_service_kind(final(self).service(service), old(self).service(service))
                &&& old(self).service(service).inner.configures(
                    old(self).settings(service),
                    options.entries(),
                    false,
                    final(self).settings(service),
                )
                &&& final(self).service(service).inner.ready(final(self).settings(service))
            },
    {
        match self.services.get_mut(service) {
            Some(s) => {
                if s.inner.accepts_options(options, false) {
                    s.inner.configure(options);
                    Ok(())
                } else {
                    Err(ShimError::Refused)
                }
            },
            None => Err(ShimError::NoSuchHandle),
        }
    }

    /// Configures the service anew, where it takes the options. Behind the
    /// handle is then a service of the same kind, with the settings that
    /// the options give it.
    pub fn rust_service_reconfigure(&mut self, service: ServicePtr, options: &K::Options) -> (r: Result<
        (),
        ShimError,
    >)
        ensures
            final(self).transactions() == old(self).transactions(),
            final(self).rest_unchanged(old(self)),
            !old(self).has_service(service) ==> r == Err::<(), ShimError>(ShimError::NoSuchHandle)
                && final(self).services() == old(self).services(),
            old(self).has_service(service) && !old(self).service(service).inner.admits_options(
                old(self).settings(service),
                options.entries(),
                true,
            ) ==> r == Err::<(), ShimError>(ShimError::Refused) && final(self).services().same(
                &old(self).services(),
            ),
            old(self).has_service(service) && old(self).service(service).inner.admits_options(
                old(self).settings(service),
                options.entries(),
                true,
            ) ==> {
                &&& r is Ok
                &&& final(self).has_service(service)
                &&& final(self).services().same_but(&old(self).services(), service)
                &&& same_service_kind(final(self).service(service), old(self).service(service))
                &&& old(self).service(service).inner.configures(
                    old(self).settings(service),
                    options.entries(),
                    true,
                    final(self).settings(service),
                )
                &&& final(self).service(service).inner.ready(final(self).settings(service))
            },
    {
        match self.services.get_mut(service) {
            Some(s) => {
                if s.inner.accepts_options(options, true) {
                    s.inner.reconfigure(options);
                    Ok(())
                } else {
                    Err(ShimError::Refused)
                }
            },
            None => Err(ShimError::NoSuchHandle),
        }
    }

    /// Asks the service whether it wants the messages of a URL.
    pub fn rust_service_wants_url(&self, service: ServicePtr, url: &[u8]) -> (r: Result<
        bool,
        ShimError,
    >)
        ensures
            r == (if self.has_service(service) {
                Ok::<bool, ShimError>(
                    self.service(service).inner.spec_wants_url(self.settings(service), url@),
                )
            } else {
                Err::<bool, ShimError>(ShimError::NoSuchHandle)
            }),
    {
        match self.services.get(service) {
            Some(s) => Ok(s.inner.wants_url(url)),
            None => Err(ShimError::NoSuchHandle),
        }
    }

    /// Frees the service. Its handle is dead from then on.
    pub fn rust_service_free(&mut self, service: ServicePtr) -> (r: Result<(), ShimError>)
        ensures
            final(self).transactions() == old(self).transactions(),
            final(self).rest_unchanged(old(self)),
            r == (if old(self).has_service(service) {
                Ok::<(), ShimError>(())
            } else {
                Err::<(), ShimError>(ShimError::NoSuchHandle)
            }),
            !final(self).has_service(service),
            old(self).has_service(service) ==> final(self).services().dead(service),
            final(self).services().same_but(&old(self).services(), service),
    {
        match self.services.remove(service) {
            Some(_) => Ok(()),
            None => Err(ShimError::NoSuchHandle),
        }
    }
}

} // verus!
