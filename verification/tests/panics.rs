use ecap::cpp::panics::{call_ffi_maybe_panic, ffi_unwind, CppError, PanicLocation, PanicPayload, PanicQueue, Payload};

#[test]
fn a_panic_leaves_one_record() {
    let mut queue = PanicQueue::new();
    assert!(queue.rust_panic_pop().is_none());

    // The call panics: the hook records it, and the call answers false
    // without touching what it would have stored.
    queue.panic_hook(
        Payload::Message(String::from("boom")),
        Some(PanicLocation { file: String::from("src/lib.rs"), line: 10, column: 4 }),
    );
    let mut out = 17u32;
    let caught: Result<u32, ()> = Err(());
    assert!(!ffi_unwind(&mut out, caught));
    assert_eq!(out, 17);

    let record = queue.rust_panic_pop().unwrap();
    assert!(!record.is_exception);
    assert_eq!(record.message.to_rust(), b"boom".to_vec());
    assert_eq!(record.location.file.to_rust(), b"src/lib.rs".to_vec());
    assert_eq!(record.location.line, 10);
    assert_eq!(record.location.column, 4);
    assert!(queue.rust_panic_pop().is_none());
}

#[test]
fn a_call_that_returns_stores_its_result() {
    let mut out = 0u32;
    let caught: Result<u32, ()> = Ok(5);
    assert!(ffi_unwind(&mut out, caught));
    assert_eq!(out, 5);
}

#[test]
fn the_latest_panic_is_read_first() {
    let mut queue = PanicQueue::new();
    queue.panic_hook(Payload::Message(String::from("first")), None);
    queue.panic_hook(Payload::Exception, None);
    queue.panic_hook(Payload::Unknown, None);

    let record = queue.rust_panic_pop().unwrap();
    assert!(!record.is_exception);
    assert_eq!(record.message.to_rust(), b"unknown payload".to_vec());
    assert_eq!(record.location.file.to_rust(), Vec::<u8>::new());
    assert_eq!(record.location.line, 0);
    assert_eq!(record.location.column, 0);

    let record = queue.rust_panic_pop().unwrap();
    assert!(record.is_exception);
    assert_eq!(record.message.to_rust(), b"C++ exception".to_vec());

    let record = queue.rust_panic_pop().unwrap();
    assert!(!record.is_exception);
    assert_eq!(record.message.to_rust(), b"first".to_vec());
    assert!(queue.rust_panic_pop().is_none());
}

#[test]
fn records_are_laid_out_for_the_host() {
    let record = PanicPayload::new(
        Payload::Message(String::from("é")),
        Some(PanicLocation { file: String::from("a.rs"), line: 3_000_000_000, column: u32::MAX }),
    );
    assert_eq!(record.payload, "é");
    let raw = record.into_ffi();
    assert_eq!(raw.message.to_rust(), vec![0xc3, 0xa9]);
    assert_eq!(raw.location.line, -1_294_967_296);
    assert_eq!(raw.location.column, -1);
}

#[test]
fn a_failed_call_into_the_host_is_an_error() {
    assert_eq!(call_ffi_maybe_panic(true, 7u8), Ok(7));
    assert_eq!(call_ffi_maybe_panic(false, 7u8), Err(CppError));
}
