use ecap::adapter::protocol::State;
use ecap::adapter::service::Service;
use ecap::adapter::transaction::{AdapterCall, Transaction};
use ecap::common::area::Area;
use ecap::common::fields::FieldList;
use ecap::common::header::{FirstLine, Header};
use ecap::common::message::Message;
use ecap::common::name::Name;
use ecap::common::version::Version;
use ecap::host::host::Host;
use ecap::host::local::{LocalFirstLine, LocalHost, LocalMessage, LocalTransaction};
use ecap::host::transaction::HostCall;
use ecap::samples::minimal::{MinimalService, MinimalTransaction};
use ecap::samples::modifying::{ModifyService, ModifyTransaction};
use ecap::samples::passthru::{PassthruService, PassthruTransaction};
use ecap::samples::substitute::{contains_bytes, find, splice, substitute};

fn message(with_body: bool) -> LocalMessage {
    let version = Version { major: Some(1), minor: Some(1), micro: None };
    let mut message = LocalMessage::new(LocalFirstLine::new(version, Name::new_known(b"HTTP")));
    message.header_mut().insert(Name::new_known(b"Content-Length"), Area::from_bytes(b"11"));
    message.header_mut().insert(Name::new_known(b"Host"), Area::from_bytes(b"example.org"));
    if with_body {
        message.set_body(Some(11));
    }
    message
}

fn options(pairs: &[(&[u8], &[u8])]) -> FieldList {
    let mut list = FieldList::new();
    for (name, value) in pairs {
        list.push(Name::new_known(name), Area::from_bytes(value));
    }
    list
}

fn passthru(host: &mut LocalTransaction) -> PassthruTransaction {
    let mut service = PassthruService;
    <PassthruService as Service<LocalHost>>::make_transaction(&mut service, host)
}

fn modifying(host: &mut LocalTransaction, victim: &[u8], replacement: &[u8]) -> ModifyTransaction {
    let mut service = ModifyService::new();
    let opts = options(&[(b"victim", victim), (b"replacement", replacement)]);
    assert!(<ModifyService as Service<LocalHost>>::accepts_options(&service, &opts, false));
    <ModifyService as Service<LocalHost>>::configure(&mut service, &opts);
    assert!(<ModifyService as Service<LocalHost>>::is_ready(&service));
    <ModifyService as Service<LocalHost>>::make_transaction(&mut service, host)
}

#[test]
fn passthru_hands_a_message_with_a_body_on() {
    let mut host = LocalTransaction::new(message(true), b"hello world".to_vec());
    let mut tx = passthru(&mut host);
    assert_eq!(tx.receiving(), State::Undecided);
    assert_eq!(tx.sending(), State::Undecided);

    Transaction::<LocalHost>::start(&mut tx, &mut host);
    assert_eq!(tx.receiving(), State::On);
    assert_eq!(tx.sending(), State::Undecided);
    let adapted = host.adapted_message().unwrap();
    assert!(adapted.body().is_some());
    assert_eq!(adapted.header().len(), 2);

    Transaction::<LocalHost>::virgin_body_content_done(&mut tx, &mut host, true);
    assert_eq!(tx.receiving(), State::Complete);
    assert_eq!(
        host.calls(),
        &vec![
            HostCall::VirginBodyMake,
            HostCall::UseAdapted,
            HostCall::VirginBodyStopMaking,
            HostCall::AdaptedBodyContentDone { at_end: true },
        ]
    );
}

#[test]
fn passthru_without_a_body_sends_nothing() {
    let mut host = LocalTransaction::new(message(false), Vec::new());
    let mut tx = passthru(&mut host);
    Transaction::<LocalHost>::start(&mut tx, &mut host);
    assert_eq!(tx.receiving(), State::Never);
    assert_eq!(tx.sending(), State::Never);
    assert_eq!(host.calls(), &vec![HostCall::UseAdapted]);
    assert!(!Transaction::<LocalHost>::accepts(&tx, AdapterCall::AdaptedBodyMake, &mut host));
    assert!(!Transaction::<LocalHost>::accepts(&tx, AdapterCall::AdaptedBodyDiscard, &mut host));
}

#[test]
fn the_adapted_body_is_made_once() {
    let mut host = LocalTransaction::new(message(true), b"hello world".to_vec());
    let mut tx = passthru(&mut host);
    Transaction::<LocalHost>::start(&mut tx, &mut host);
    assert!(Transaction::<LocalHost>::accepts(&tx, AdapterCall::AdaptedBodyMake, &mut host));
    Transaction::<LocalHost>::adapted_body_make(&mut tx, &mut host);
    assert_eq!(tx.sending(), State::On);
    assert!(!Transaction::<LocalHost>::accepts(&tx, AdapterCall::AdaptedBodyMake, &mut host));
    assert!(!Transaction::<LocalHost>::accepts(&tx, AdapterCall::AdaptedBodyDiscard, &mut host));
}

#[test]
fn passthru_passes_the_virgin_content() {
    let mut host = LocalTransaction::new(message(true), b"hello world".to_vec());
    let mut tx = passthru(&mut host);
    Transaction::<LocalHost>::start(&mut tx, &mut host);
    Transaction::<LocalHost>::adapted_body_make(&mut tx, &mut host);
    let area = Transaction::<LocalHost>::adapted_body_content(&mut tx, &mut host, 6, 100);
    assert_eq!(area.as_bytes(), b"world");
    let area = Transaction::<LocalHost>::adapted_body_content(&mut tx, &mut host, 0, 5);
    assert_eq!(area.as_bytes(), b"hello");
    let area = Transaction::<LocalHost>::adapted_body_content(&mut tx, &mut host, 11, 5);
    assert_eq!(area.as_bytes(), b"");
    Transaction::<LocalHost>::adapted_body_content_shift(&mut tx, &mut host, 6);
    assert_eq!(host.content(), &b"world".to_vec());
    Transaction::<LocalHost>::adapted_body_content_shift(&mut tx, &mut host, 60);
    assert_eq!(host.content(), &Vec::<u8>::new());
    Transaction::<LocalHost>::adapted_body_stop_making(&mut tx, &mut host);
    assert_eq!(tx.sending(), State::Complete);
    assert!(!Transaction::<LocalHost>::accepts(
        &tx,
        AdapterCall::AdaptedBodyContent { offset: 0, size: 1 },
        &mut host
    ));
}

#[test]
fn passthru_discards() {
    let mut host = LocalTransaction::new(message(true), Vec::new());
    let mut tx = passthru(&mut host);
    Transaction::<LocalHost>::start(&mut tx, &mut host);
    Transaction::<LocalHost>::adapted_body_discard(&mut tx, &mut host);
    assert_eq!(tx.sending(), State::Never);
    assert_eq!(tx.receiving(), State::On);
}

#[test]
fn minimal_uses_the_virgin_message() {
    let mut host = LocalTransaction::new(message(true), Vec::new());
    let mut service = MinimalService;
    let mut tx: MinimalTransaction =
        <MinimalService as Service<LocalHost>>::make_transaction(&mut service, &mut host);
    Transaction::<LocalHost>::start(&mut tx, &mut host);
    assert_eq!(host.calls(), &vec![HostCall::UseVirgin]);
    assert!(host.adapted_message().is_none());
    assert_eq!(tx.receiving(), State::Never);
    assert_eq!(tx.sending(), State::Never);
    // The virgin message is used: there is no adapted body to make.
    assert!(!Transaction::<LocalHost>::accepts(&tx, AdapterCall::AdaptedBodyMake, &mut host));
    let area = Transaction::<LocalHost>::adapted_body_content(&mut tx, &mut host, 0, 10);
    assert_eq!(area.as_bytes(), b"");
    assert_eq!(<MinimalService as Service<LocalHost>>::uri(&service), "ecap://rust/sample/minimal");
    assert!(<MinimalService as Service<LocalHost>>::wants_url(&service, b"http://example.org/"));
    assert!(!<MinimalService as Service<LocalHost>>::is_async(&service));
}

#[test]
fn minimal_makes_the_adapted_body_once() {
    let mut host = LocalTransaction::new(message(true), Vec::new());
    let mut service = MinimalService;
    let mut tx: MinimalTransaction =
        <MinimalService as Service<LocalHost>>::make_transaction(&mut service, &mut host);
    assert_eq!(tx.sending(), State::Undecided);
    assert!(Transaction::<LocalHost>::accepts(&tx, AdapterCall::AdaptedBodyMake, &mut host));
    Transaction::<LocalHost>::adapted_body_make(&mut tx, &mut host);
    assert_eq!(tx.sending(), State::On);
    assert!(!Transaction::<LocalHost>::accepts(&tx, AdapterCall::AdaptedBodyMake, &mut host));
    assert!(!Transaction::<LocalHost>::accepts(&tx, AdapterCall::AdaptedBodyDiscard, &mut host));
    assert!(host.calls().is_empty());
}

#[test]
fn modifying_marks_the_adapted_message() {
    let mut host = LocalTransaction::new(message(true), Vec::new());
    let mut tx = modifying(&mut host, b"hello", b"bye");
    Transaction::<LocalHost>::start(&mut tx, &mut host);
    assert_eq!(host.calls(), &vec![HostCall::VirginBodyMake, HostCall::UseAdapted]);
    let adapted = host.adapted_message().unwrap();
    let header = adapted.header();
    assert!(!header.contains_field(&Name::new_known(b"Content-Length")));
    assert_eq!(header.get(&Name::new_known(b"Host")).unwrap().as_bytes(), b"example.org");
    assert_eq!(header.get(&Name::new_known(b"X-Ecap")).unwrap().as_bytes(), b"foo");
    assert_eq!(header.len(), 2);
    // The virgin message keeps its fields.
    assert!(host.virgin_message().header().contains_field(&Name::new_known(b"Content-Length")));
}

#[test]
fn modifying_replaces_in_the_body() {
    let mut host = LocalTransaction::new(message(true), b"hello world, hello".to_vec());
    let mut tx = modifying(&mut host, b"hello", b"bye");
    Transaction::<LocalHost>::start(&mut tx, &mut host);
    Transaction::<LocalHost>::adapted_body_make(&mut tx, &mut host);
    Transaction::<LocalHost>::virgin_body_content_available(&mut tx, &mut host);
    assert_eq!(tx.buffered(), 14);
    assert_eq!(host.content(), &Vec::<u8>::new());
    assert_eq!(
        host.calls(),
        &vec![
            HostCall::VirginBodyMake,
            HostCall::UseAdapted,
            HostCall::VirginBodyContent { offset: 0, size: usize::MAX },
            HostCall::VirginBodyContentShift { size: 18 },
            HostCall::AdaptedBodyContentAvailable,
        ]
    );
    let area = Transaction::<LocalHost>::adapted_body_content(&mut tx, &mut host, 0, 100);
    assert_eq!(area.as_bytes(), b"bye world, bye");
    let area = Transaction::<LocalHost>::adapted_body_content(&mut tx, &mut host, 4, 5);
    assert_eq!(area.as_bytes(), b"world");
    let area = Transaction::<LocalHost>::adapted_body_content(&mut tx, &mut host, 14, 5);
    assert_eq!(area.as_bytes(), b"");
    assert!(!Transaction::<LocalHost>::accepts(
        &tx,
        AdapterCall::AdaptedBodyContent { offset: 15, size: 1 },
        &mut host
    ));
    Transaction::<LocalHost>::adapted_body_content_shift(&mut tx, &mut host, 4);
    assert_eq!(tx.buffered(), 10);
    assert!(!Transaction::<LocalHost>::accepts(
        &tx,
        AdapterCall::AdaptedBodyContentShift { size: 11 },
        &mut host
    ));

    host.feed(b" hello!");
    Transaction::<LocalHost>::virgin_body_content_available(&mut tx, &mut host);
    let area = Transaction::<LocalHost>::adapted_body_content(&mut tx, &mut host, 0, 100);
    assert_eq!(area.as_bytes(), b"world, bye bye!");

    Transaction::<LocalHost>::virgin_body_content_done(&mut tx, &mut host, false);
    assert_eq!(tx.receiving(), State::Complete);
    assert_eq!(tx.sending(), State::Complete);
    let calls = host.calls();
    assert_eq!(calls[calls.len() - 2], HostCall::VirginBodyStopMaking);
    assert_eq!(calls[calls.len() - 1], HostCall::AdaptedBodyContentDone { at_end: false });
}

#[test]
fn modifying_stops_the_virgin_body_once() {
    let mut host = LocalTransaction::new(message(true), Vec::new());
    let mut tx = modifying(&mut host, b"a", b"b");
    Transaction::<LocalHost>::start(&mut tx, &mut host);
    tx.stop_virgin_body::<LocalHost>(&mut host);
    assert_eq!(tx.receiving(), State::Complete);
    tx.stop_virgin_body::<LocalHost>(&mut host);
    assert_eq!(
        host.calls(),
        &vec![HostCall::VirginBodyMake, HostCall::UseAdapted, HostCall::VirginBodyStopMaking]
    );
    assert!(!Transaction::<LocalHost>::accepts(
        &tx,
        AdapterCall::VirginBodyContentDone { at_end: true },
        &mut host
    ));
}

#[test]
fn modifying_discards() {
    let mut host = LocalTransaction::new(message(true), Vec::new());
    let mut tx = modifying(&mut host, b"a", b"b");
    assert!(!Transaction::<LocalHost>::accepts(&tx, AdapterCall::AdaptedBodyDiscard, &mut host));
    Transaction::<LocalHost>::start(&mut tx, &mut host);
    Transaction::<LocalHost>::adapted_body_discard(&mut tx, &mut host);
    assert_eq!(tx.sending(), State::Never);
    assert_eq!(tx.receiving(), State::Complete);
}

fn adapt(victim: &[u8], replacement: &[u8], content: &[u8]) -> Vec<u8> {
    let mut host = LocalTransaction::new(message(true), Vec::new());
    let tx = modifying(&mut host, victim, replacement);
    let mut content = content.to_vec();
    tx.adapt_content(&mut content);
    content
}

#[test]
fn content_is_adapted() {
    assert_eq!(adapt(b"hello", b"bye", b"hello world hello"), b"bye world bye".to_vec());
    assert_eq!(adapt(b"hello", b"bye", b"nothing here"), b"nothing here".to_vec());
    assert_eq!(adapt(b"hello", b"bye", b""), b"".to_vec());
    assert_eq!(adapt(b"a", b"", b"banana"), b"bnn".to_vec());
    assert_eq!(adapt(b"aa", b"b", b"aaaaa"), b"bba".to_vec());
    assert_eq!(adapt(b"x", b"yy", b"xax"), b"yyayy".to_vec());
}

#[test]
fn a_victim_that_a_replacement_completes_is_replaced_too() {
    // The search goes on where the replacement begins.
    assert_eq!(adapt(b"ab", b"a", b"abb"), b"a".to_vec());
    assert_eq!(adapt(b"ab", b"a", b"abbbx"), b"ax".to_vec());
    // A victim that ends where a replacement begins is behind the search.
    assert_eq!(adapt(b"ab", b"b", b"aab"), b"ab".to_vec());
}

#[test]
fn substitution_by_parts() {
    assert_eq!(find(b"hello world", 0, b"o"), Some(4));
    assert_eq!(find(b"hello world", 5, b"o"), Some(2));
    assert_eq!(find(b"hello world", 8, b"o"), None);
    assert_eq!(find(b"hello", 5, b"o"), None);
    assert_eq!(find(b"ab", 0, b"abc"), None);
    assert!(contains_bytes(b"xxabcxx", b"abc"));
    assert!(!contains_bytes(b"xxabxcx", b"abc"));
    assert_eq!(splice(b"hello world", 6, 5, b"there!"), b"hello there!".to_vec());
    let mut content = b"one two one".to_vec();
    substitute(&mut content, b"one", b"1");
    assert_eq!(content, b"1 two 1".to_vec());
}

#[test]
fn configurations_are_checked() {
    let service = ModifyService::new();
    let check = |pairs: &[(&[u8], &[u8])]| {
        <ModifyService as Service<LocalHost>>::accepts_options(&service, &options(pairs), false)
    };
    assert!(check(&[(b"victim", b"a"), (b"replacement", b"b")]));
    assert!(check(&[(b"replacement", b""), (b"victim", b"a")]));
    // The last one counts.
    assert!(check(&[(b"victim", b"a"), (b"replacement", b"xax"), (b"replacement", b"b")]));
    // No victim, no replacement, an empty victim, an option of another
    // name, and a replacement that holds the victim.
    assert!(!check(&[(b"replacement", b"b")]));
    assert!(!check(&[(b"victim", b"a")]));
    assert!(!check(&[(b"victim", b""), (b"replacement", b"b")]));
    assert!(!check(&[(b"victim", b"a"), (b"replacement", b"b"), (b"other", b"c")]));
    assert!(!check(&[(b"victim", b"a"), (b"replacement", b"xax")]));
    assert!(!<ModifyService as Service<LocalHost>>::is_ready(&service));
}

#[test]
fn options_of_the_host_are_passed_over() {
    let service = ModifyService::new();
    let mut list = options(&[(b"victim", b"a"), (b"replacement", b"b")]);
    let mut own = Name::new_known(b"timeout");
    own.assign_host_id(1);
    list.push(own, Area::from_bytes(b"30"));
    assert!(<ModifyService as Service<LocalHost>>::accepts_options(&service, &list, false));
}

#[test]
fn a_new_configuration_replaces_the_old_one() {
    let mut service = ModifyService::new();
    let first = options(&[(b"victim", b"a"), (b"replacement", b"b")]);
    <ModifyService as Service<LocalHost>>::configure(&mut service, &first);
    // On top of the first configuration a victim is enough; anew it is
    // not.
    let second = options(&[(b"victim", b"c")]);
    assert!(<ModifyService as Service<LocalHost>>::accepts_options(&service, &second, false));
    assert!(!<ModifyService as Service<LocalHost>>::accepts_options(&service, &second, true));
    let third = options(&[(b"victim", b"x"), (b"replacement", b"y")]);
    assert!(<ModifyService as Service<LocalHost>>::accepts_options(&service, &third, true));
    <ModifyService as Service<LocalHost>>::reconfigure(&mut service, &third);
    let mut host = LocalTransaction::new(message(true), Vec::new());
    let tx = <ModifyService as Service<LocalHost>>::make_transaction(&mut service, &mut host);
    let mut content = b"axa".to_vec();
    tx.adapt_content(&mut content);
    assert_eq!(content, b"aya".to_vec());
}

#[test]
fn the_local_host_makes_messages_and_streams() {
    let mut host = LocalHost::new();
    assert_eq!(LocalHost::tag().0, 1);
    assert_eq!(host.uri(), "ecap://rust/host/local");
    let request = host.new_request();
    assert!(request.body().is_none());
    assert_eq!(request.header().len(), 0);
    assert!(!request.first_line().version().known());
    assert!(!request.first_line().protocol().known());
    let mut response = host.new_response();
    response.add_body();
    response.add_body();
    assert_eq!(ecap::common::body::Body::size(response.body().unwrap()), None);
    response.add_trailer();
    response.trailer_mut().insert(Name::new_known(b"Checksum"), Area::from_bytes(b"0"));
    assert_eq!(response.trailer().len(), 1);
    let copy = response.clone();
    assert_eq!(copy.trailer().len(), 1);

    let mut stream = host.open_debug(ecap::common::log::LogVerbosity::new()).unwrap();
    ecap::common::log::DebugStream::write_str(&mut stream, "one ");
    ecap::common::log::DebugStream::write_str(&mut stream, "two");
    assert_eq!(stream.text(), "one two");
    host.close_debug(stream);
    assert_eq!(host.closed_streams(), 1);
}

#[test]
fn header_fields() {
    let mut list = FieldList::new();
    list.push(Name::new_known(b"Via"), Area::from_bytes(b"a"));
    list.push(Name::new_known(b"Host"), Area::from_bytes(b"h"));
    list.push(Name::new_known(b"Via"), Area::from_bytes(b"b"));
    list.push(Name::with_image_and_identified(b"Via", 3), Area::from_bytes(b"c"));
    assert!(list.contains(&Name::new_known(b"Via")));
    assert!(!list.contains(&Name::new_known(b"Age")));
    assert!(!list.contains(&Name::unknown()));
    assert_eq!(list.get(&Name::new_known(b"Via")).unwrap().as_bytes(), b"a, b, c");
    assert_eq!(list.get(&Name::new_known(b"Host")).unwrap().as_bytes(), b"h");
    assert!(list.get(&Name::new_known(b"Age")).is_none());
    assert_eq!(
        ecap::common::options::Options::option(&list, &Name::new_known(b"Via")).unwrap().as_bytes(),
        b"a"
    );
    // A name with a number equals the names with that number.
    assert_eq!(list.get(&Name::with_image_and_identified(b"x", 3)).unwrap().as_bytes(), b"c");
    list.remove_any(&Name::new_known(b"Via"));
    assert_eq!(list.len(), 1);
    assert!(list.contains(&Name::new_known(b"Host")));
    let copy = list.duplicate();
    assert_eq!(copy.len(), 1);
}
