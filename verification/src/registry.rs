//! Where services and the translator of a process meet.
//!
//! Services and the translator register as they are loaded, in either
//! order. Services that come before the translator wait for it; the
//! translator takes them in, in the order in which they came, and every
//! service that comes later at once.
use vstd::prelude::*;
use crate::erased::{BoxedService, ErasedService, ErasedTranslatorS};
use crate::host::host::Host;

verus! {

/// What a registry holds: the services that wait, and the services that
/// the translator took in, once there is a translator.
pub struct RegistryView<S> {
    pub waiting: Seq<S>,
    pub adopted: Option<Seq<S>>,
}

impl<S> RegistryView<S> {
    /// A registry to which nothing has come.
    pub open spec fn empty() -> RegistryView<S> {
        RegistryView { waiting: Seq::empty(), adopted: None }
    }

    /// The registry after a service came.
    pub open spec fn with_service(self, service: S) -> RegistryView<S> {
        match self.adopted {
            Some(adopted) => RegistryView { adopted: Some(adopted.push(service)), ..self },
            None => RegistryView { waiting: self.waiting.push(service), ..self },
        }
    }

    /// The registry after the services came, in order.
    pub open spec fn with_services(self, services: Seq<S>) -> RegistryView<S>
        decreases services.len(),
    {
        if services.len() == 0 {
            self
        } else {
            self.with_services(services.drop_last()).with_service(services.last())
        }
    }

    /// The registry after a translator came that had taken in `before`.
    pub open spec fn with_translator(self, before: Seq<S>) -> RegistryView<S> {
        RegistryView { waiting: Seq::empty(), adopted: Some(before + self.waiting) }
    }
}

/// The services and the translator of a process.
#[verifier::reject_recursive_types(K)]
pub struct Registry<K: Host> {
    adapters: Vec<ErasedService<K>>,
    translator: Option<ErasedTranslatorS<K>>,
}

impl<K: Host + 'static> Registry<K> {
    pub closed spec fn view(&self) -> RegistryView<BoxedService<K>> {
        RegistryView {
            waiting: self.adapters@.map_values(|s: ErasedService<K>| s.service()),
            adopted: match self.translator {
                Some(t) => Some(t.adopted()),
                None => None,
            },
        }
    }

    /// Every service that waits was erased for the host `K`.
    pub closed spec fn wf(&self) -> bool {
        forall|i: int| 0 <= i < self.adapters@.len() ==> (#[trigger] self.adapters@[i]).host()
            == K::spec_tag()
    }

    /// A registry to which nothing has come.
    pub fn new() -> (r: Registry<K>)
        ensures
            r.wf(),
            r@ == RegistryView::<BoxedService<K>>::empty(),
    {
        let r = Registry { adapters: Vec::new(), translator: None };
        assert(r@.waiting =~= Seq::empty());
        r
    }

    /// Has the translator come?
    pub fn has_translator(&self) -> (r: bool)
        ensures
            r == (self@.adopted is Some),
    {
        self.translator.is_some()
    }

    /// The number of services that wait for the translator.
    pub fn waiting(&self) -> (n: usize)
        ensures
            n == self@.waiting.len(),
    {
        self.adapters.len()
    }

    /// A service comes: it is handed to the translator, or waits for it.
    pub fn register_service(&mut self, service: ErasedService<K>)
        requires
            old(self).wf(),
            service.host() == K::spec_tag(),
        ensures
            final(self).wf(),
            final(self)@ == old(self)@.with_service(service.service()),
    {
        match &mut self.translator {
            Some(translator) => {
                translator.register_service(service);
            },
            None => {
                self.adapters.push(service);
                assert(self@.waiting =~= old(self)@.waiting.push(service.service()));
            },
        }
    }

    /// The translator comes, and takes in the services that wait, in the
    /// order in which they came. There is one translator in a process.
    pub fn register_translator(&mut self, translator: ErasedTranslatorS<K>)
        requires
            old(self).wf(),
            old(self)@.adopted is None,
        ensures
            final(self).wf(),
            final(self)@ == old(self)@.with_translator(translator.adopted()),
    {
        let mut translator = translator;
        let ghost before = translator.adopted();
        let ghost waiting = self@.waiting;
        let mut adapters: Vec<ErasedService<K>> = Vec::new();
        core::mem::swap(&mut adapters, &mut self.adapters);
        let n: usize = adapters.len();
        let mut rest: Vec<ErasedService<K>> = Vec::new();
        // The services are taken from the end of the list, so the list is
        // turned over first.
        while adapters.len() > 0
            invariant
                adapters@.len() + rest@.len() == n,
                n == waiting.len(),
                forall|i: int|
                    0 <= i < adapters@.len() ==> (#[trigger] adapters@[i]).service() == waiting[i]
                        && adapters@[i].host() == K::spec_tag(),
                forall|i: int|
                    0 <= i < rest@.len() ==> (#[trigger] rest@[i]).service() == waiting[n - 1 - i]
                        && rest@[i].host() == K::spec_tag(),
            decreases adapters.len(),
        {
            let last = adapters.pop().unwrap();
            rest.push(last);
        }
        let mut done: usize = 0;
        while rest.len() > 0
            invariant
                done + rest@.len() == n,
                n == waiting.len(),
                forall|i: int|
                    0 <= i < rest@.len() ==> (#[trigger] rest@[i]).service() == waiting[n - 1 - i]
                        && rest@[i].host() == K::spec_tag(),
                translator.adopted() == before + waiting.subrange(0, done as int),
            decreases rest.len(),
        {
            let next = rest.pop().unwrap();
            translator.register_service(next);
            assert(waiting.subrange(0, done + 1) =~= waiting.subrange(0, done as int).push(
                waiting[done as int],
            ));
            assert(before + waiting.subrange(0, done + 1) =~= (before + waiting.subrange(
                0,
                done as int,
            )).push(waiting[done as int]));
            done = done + 1;
        }
        assert(waiting.subrange(0, n as int) =~= waiting);
        self.translator = Some(translator);
        assert(self@.waiting =~= Seq::empty());
    }
}

/// A service that comes to a registry without a translator waits at the
/// end of the line.
pub proof fn lemma_services_wait<S>(services: Seq<S>)
    ensures
        RegistryView::<S>::empty().with_services(services) == (RegistryView {
            waiting: services,
            adopted: None,
        }),
    decreases services.len(),
{
    if services.len() > 0 {
        lemma_services_wait(services.drop_last());
        assert(services.drop_last().push(services.last()) =~= services);
    } else {
        assert(services =~= Seq::empty());
    }
}

/// A service that comes after the translator is taken in at once, after
/// those that the translator has.
pub proof fn lemma_services_adopted<S>(adopted: Seq<S>, services: Seq<S>)
    ensures
        (RegistryView { waiting: Seq::<S>::empty(), adopted: Some(adopted) }).with_services(
            services,
        ) == (RegistryView { waiting: Seq::<S>::empty(), adopted: Some(adopted + services) }),
    decreases services.len(),
{
    if services.len() > 0 {
        lemma_services_adopted(adopted, services.drop_last());
        assert((adopted + services.drop_last()).push(services.last()) =~= adopted + services);
    } else {
        assert(adopted + services =~= adopted);
    }
}

/// Whether services come before the translator or after it, the translator
/// has taken in each of them once, in the order in which they came, and
/// none waits.
pub proof fn lemma_registration_order<S>(before: Seq<S>, after: Seq<S>)
    ensures
        RegistryView::<S>::empty().with_services(before).with_translator(
            Seq::empty(),
        ).with_services(after) == (RegistryView {
            waiting: Seq::<S>::empty(),
            adopted: Some(before + after),
        }),
{
    lemma_services_wait(before);
    assert(Seq::<S>::empty() + before =~= before);
    lemma_services_adopted(before, after);
}

} // verus!
