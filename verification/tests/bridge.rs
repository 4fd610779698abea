use ecap::adapter::transaction::AdapterCall;
use ecap::common::area::Area;
use ecap::common::fields::FieldList;
use ecap::common::name::Name;
use ecap::common::version::Version;
use ecap::cpp::bridge::{CppTranslator, ShimError};
use ecap::cpp::table::{Handle, Table};
use ecap::erased::{BoxedService, ErasedService, ErasedTranslatorS, Services};
use ecap::host::local::{LocalFirstLine, LocalHost, LocalMessage, LocalTransaction};
use ecap::host::transaction::HostCall;
use ecap::registry::Registry;
use ecap::samples::minimal::MinimalService;
use ecap::samples::modifying::ModifyService;
use ecap::samples::passthru::PassthruService;
use ecap::sys;
use ecap::Translator;

/// A translator that writes down the URIs of the services it takes in.
struct Recorder(std::rc::Rc<std::cell::RefCell<Vec<String>>>);

impl Translator<LocalHost> for Recorder {
    fn adopted(&self) -> Services<LocalHost> {
        unreachable!()
    }

    fn register_service(&mut self, service: BoxedService<LocalHost>) {
        self.0.borrow_mut().push(ecap::erased::Service::uri(&*service.inner));
    }
}

fn host_transaction(with_body: bool, content: &[u8]) -> LocalTransaction {
    let version = Version { major: Some(1), minor: Some(1), micro: None };
    let mut message = LocalMessage::new(LocalFirstLine::new(version, Name::new_known(b"HTTP")));
    if with_body {
        message.set_body(None);
    }
    LocalTransaction::new(message, content.to_vec())
}

fn erased_minimal() -> ErasedService<LocalHost> {
    ErasedService::<LocalHost>::new::<LocalHost, MinimalService>(MinimalService)
}

fn erased_passthru() -> ErasedService<LocalHost> {
    ErasedService::<LocalHost>::new::<LocalHost, PassthruService>(PassthruService)
}

fn erased_modifying() -> ErasedService<LocalHost> {
    ErasedService::<LocalHost>::new::<LocalHost, ModifyService>(ModifyService::new())
}

fn uris(bridge: &CppTranslator<LocalHost>, handles: &[Handle]) -> Vec<String> {
    handles
        .iter()
        .map(|h| String::from_utf8(bridge.rust_service_uri(*h).unwrap().to_rust()).unwrap())
        .collect()
}

#[test]
fn handles_are_freed_once() {
    let mut table: Table<u32> = Table::new();
    let a = table.insert(10);
    let b = table.insert(20);
    assert!(a != b);
    assert_eq!(table.get(a), Some(&10));
    assert_eq!(table.get(b), Some(&20));
    *table.get_mut(a).unwrap() = 11;
    assert_eq!(table.remove(a), Some(11));
    assert_eq!(table.remove(a), None);
    assert_eq!(table.get(a), None);
    assert!(table.get_mut(a).is_none());
    assert!(!table.contains(a));
    // The place is used again, under a handle of its own.
    let c = table.insert(30);
    assert!(c != a);
    assert_eq!(c.index, a.index);
    assert_eq!(table.get(a), None);
    assert_eq!(table.get(c), Some(&30));
    assert_eq!(table.get(b), Some(&20));
    assert_eq!(table.get(Handle { index: 99, generation: 0 }), None);
}

#[test]
fn a_service_is_taken_only_for_its_host() {
    let erased = erased_minimal();
    assert_eq!(erased.host_tag().0, 1);
    assert!(erased.is_for::<LocalHost>());
    assert!(erased.try_take::<LocalHost>().is_ok());
    let taken = erased_minimal().take::<LocalHost>();
    assert_eq!(ecap::erased::Service::uri(&*taken.inner), "ecap://rust/sample/minimal");
}

#[test]
fn services_before_and_after_the_translator() {
    // The services come first and wait.
    let mut registry: Registry<LocalHost> = Registry::new();
    registry.register_service(erased_minimal());
    registry.register_service(erased_passthru());
    assert_eq!(registry.waiting(), 2);
    assert!(!registry.has_translator());
    registry.register_translator(ErasedTranslatorS::new(CppTranslator::<LocalHost>::new()));
    assert_eq!(registry.waiting(), 0);
    assert!(registry.has_translator());
    registry.register_service(erased_modifying());
    assert_eq!(registry.waiting(), 0);

    // The same with a translator that can be looked at afterwards.
    let mut early = CppTranslator::<LocalHost>::new();
    for service in [erased_minimal(), erased_passthru(), erased_modifying()] {
        ecap::erased::ErasedTranslator::register_service(&mut early, service);
    }
    let handles = early.announce();
    assert_eq!(handles.len(), 3);
    assert_eq!(
        uris(&early, &handles),
        vec![
            "ecap://rust/sample/minimal",
            "ecap://rust/sample/passthru",
            "ecap://rust/sample/modifying"
        ]
    );
    assert!(early.announce().is_empty());
}

#[test]
fn the_order_of_registration_does_not_matter() {
    let expected = vec![
        "ecap://rust/sample/minimal",
        "ecap://rust/sample/passthru",
        "ecap://rust/sample/modifying",
    ];
    // The translator comes after no service, after the first, after the
    // second and after all of them.
    for at in 0..4 {
        let record = std::rc::Rc::new(std::cell::RefCell::new(Vec::new()));
        let mut registry: Registry<LocalHost> = Registry::new();
        let services = vec![erased_minimal(), erased_passthru(), erased_modifying()];
        for (i, service) in services.into_iter().enumerate() {
            if i == at {
                registry.register_translator(ErasedTranslatorS::new(Recorder(record.clone())));
            }
            registry.register_service(service);
        }
        if at == 3 {
            assert_eq!(registry.waiting(), 3);
            assert!(record.borrow().is_empty());
            registry.register_translator(ErasedTranslatorS::new(Recorder(record.clone())));
        }
        assert_eq!(registry.waiting(), 0);
        assert!(registry.has_translator());
        assert_eq!(*record.borrow(), expected);
    }
}

#[test]
fn a_translator_takes_services_in_order() {
    let mut bridge = CppTranslator::<LocalHost>::new();
    Translator::register_service(&mut bridge, erased_passthru().take::<LocalHost>());
    Translator::register_service(&mut bridge, erased_minimal().take::<LocalHost>());
    let handles = bridge.announce();
    assert_eq!(
        uris(&bridge, &handles),
        vec!["ecap://rust/sample/passthru", "ecap://rust/sample/minimal"]
    );
}

#[test]
fn the_host_drives_a_service() {
    let mut bridge = CppTranslator::<LocalHost>::new();
    Translator::register_service(&mut bridge, erased_modifying().take::<LocalHost>());
    let service = bridge.announce()[0];
    assert!(bridge.to_service(service));
    assert_eq!(bridge.rust_service_start(service), Ok(()));
    assert_eq!(bridge.rust_service_is_async(service), Ok(false));
    assert_eq!(bridge.rust_service_wants_url(service, b"http://example.org/"), Ok(true));
    assert_eq!(bridge.rust_service_tag(service).unwrap().to_rust(), b"0.1.0".to_vec());
    assert_eq!(
        bridge.rust_service_describe(service).unwrap().to_rust(),
        b"A minimal adapter from ecap-sample-modifying v0.1.0".to_vec()
    );
    let span = sys::Timeval { tv_sec: 3, tv_usec: 2_500_000 };
    assert_eq!(bridge.rust_service_suspend(service, span), Ok(sys::Timeval { tv_sec: 5, tv_usec: 500_000 }));
    let span = sys::Timeval { tv_sec: -1, tv_usec: 1_000_000 };
    assert_eq!(bridge.rust_service_suspend(service, span), Err(ShimError::Refused));

    // Without its configuration the service makes no transaction.
    let mut host = host_transaction(true, b"");
    assert_eq!(bridge.rust_xaction_create(service, &mut host), Err(ShimError::Refused));
    let mut bad = FieldList::new();
    bad.push(Name::new_known(b"victim"), Area::from_bytes(b""));
    assert_eq!(bridge.rust_service_configure(service, &bad), Err(ShimError::Refused));
    let mut good = FieldList::new();
    good.push(Name::new_known(b"victim"), Area::from_bytes(b"a"));
    good.push(Name::new_known(b"replacement"), Area::from_bytes(b"b"));
    assert_eq!(bridge.rust_service_configure(service, &good), Ok(()));
    assert_eq!(bridge.rust_service_reconfigure(service, &good), Ok(()));
    assert!(bridge.rust_xaction_create(service, &mut host).is_ok());

    assert_eq!(bridge.rust_service_stop(service), Ok(()));
    assert_eq!(bridge.rust_service_retire(service), Ok(()));
    assert_eq!(bridge.rust_service_resume(service), Ok(()));
    assert_eq!(bridge.rust_service_free(service), Ok(()));
    assert_eq!(bridge.rust_service_free(service), Err(ShimError::NoSuchHandle));
    assert_eq!(bridge.rust_service_start(service), Err(ShimError::NoSuchHandle));
    assert_eq!(bridge.rust_service_is_async(service), Err(ShimError::NoSuchHandle));
    assert!(bridge.rust_service_uri(service).is_err());
    assert_eq!(bridge.rust_service_configure(service, &good), Err(ShimError::NoSuchHandle));
    assert_eq!(bridge.rust_xaction_create(service, &mut host), Err(ShimError::NoSuchHandle));
    assert!(!bridge.to_service(service));
}

#[test]
fn the_host_drives_a_transaction() {
    let mut bridge = CppTranslator::<LocalHost>::new();
    Translator::register_service(&mut bridge, erased_passthru().take::<LocalHost>());
    let service = bridge.announce()[0];
    let mut host = host_transaction(true, b"hello world");
    let data = bridge.rust_xaction_create(service, &mut host).unwrap();
    assert!(bridge.to_transaction(data));
    assert!(host.calls().is_empty());

    assert!(bridge.rust_xaction_start(data, &mut host).unwrap().is_none());
    assert!(bridge.rust_xaction_ab_make(data, &mut host).is_ok());
    // The adapted body is made once.
    assert_eq!(bridge.rust_xaction_ab_make(data, &mut host).err(), Some(ShimError::Refused));
    assert_eq!(bridge.rust_xaction_ab_discard(data, &mut host).err(), Some(ShimError::Refused));
    assert!(bridge.rust_xaction_ab_make_more(data, &mut host).is_ok());
    assert!(bridge.rust_xaction_ab_pause(data, &mut host).is_ok());
    assert!(bridge.rust_xaction_ab_resume(data, &mut host).is_ok());
    assert!(bridge.rust_xaction_vb_content_available(data, &mut host).is_ok());

    let area = bridge.rust_xaction_ab_content(data, &mut host, 0, 5).unwrap().unwrap();
    assert_eq!(area.as_bytes(), b"hello");
    assert!(bridge.rust_xaction_ab_content_shift(data, &mut host, 6).is_ok());
    let area = bridge.rust_xaction_ab_content(data, &mut host, 0, 50).unwrap().unwrap();
    assert_eq!(area.as_bytes(), b"world");

    assert!(bridge.rust_xaction_vb_content_done(data, &mut host, true).is_ok());
    assert_eq!(
        bridge.rust_xaction_vb_content_done(data, &mut host, true).err(),
        Some(ShimError::Refused)
    );
    assert!(bridge.rust_xaction_ab_stop_making(data, &mut host).is_ok());
    assert!(bridge.rust_xaction_resume(data, &mut host).is_ok());
    assert!(bridge.rust_xaction_stop(data, &mut host).is_ok());
    assert_eq!(
        host.calls(),
        &vec![
            HostCall::VirginBodyMake,
            HostCall::UseAdapted,
            HostCall::AdaptedBodyContentAvailable,
            HostCall::VirginBodyMakeMore,
            HostCall::AdaptedBodyContentAvailable,
            HostCall::VirginBodyContent { offset: 0, size: 5 },
            HostCall::VirginBodyContentShift { size: 6 },
            HostCall::VirginBodyContent { offset: 0, size: 50 },
            HostCall::VirginBodyStopMaking,
            HostCall::AdaptedBodyContentDone { at_end: true },
            HostCall::VirginBodyStopMaking,
        ]
    );

    assert_eq!(bridge.rust_xaction_free(data), Ok(()));
    assert_eq!(bridge.rust_xaction_free(data), Err(ShimError::NoSuchHandle));
    let before = host.calls().len();
    assert_eq!(bridge.rust_xaction_start(data, &mut host).err(), Some(ShimError::NoSuchHandle));
    assert_eq!(
        bridge.dispatch(data, &mut host, AdapterCall::Stop).err(),
        Some(ShimError::NoSuchHandle)
    );
    assert_eq!(host.calls().len(), before);
    // A new transaction gets a handle of its own.
    let next = bridge.rust_xaction_create(service, &mut host).unwrap();
    assert!(next != data);
    assert!(!bridge.to_transaction(data));
}
