use ecap::common::area::{Area, CountedBytes, Details, DetailsConstructor, DetailsStack};
use ecap::common::body::Body;
use ecap::common::log::{FrequencyLevel, ImportanceLevel, LogVerbosity, MessageSizeLevel};
use ecap::common::timeout::Timeout;
use ecap::common::version::Version;
use ecap::cpp::version::{signed, unsigned, CppVersion};
use ecap::misc::PascalStr;
use ecap::sys;
use ecap::{Bytes, Count};

#[test]
fn versions_compare_when_known() {
    let a = Version { major: Some(1), minor: Some(1), micro: None };
    let b = Version { major: Some(1), minor: Some(1), micro: None };
    let c = Version { major: Some(1), minor: Some(0), micro: None };
    let unknown = Version { major: None, minor: Some(1), micro: None };
    assert!(a == b);
    assert!(a != c);
    assert!(unknown != unknown);
    assert!(a.known());
    assert!(!unknown.known());
}

#[test]
fn versions_are_read_from_the_host() {
    let v = CppVersion::from_raw(sys::Version { major: 1, minor: -1, micro: 0 });
    assert_eq!(v.major, Some(1));
    assert_eq!(v.minor, None);
    assert_eq!(v.micro, Some(0));
    let v = CppVersion::from_raw(sys::Version { major: -2, minor: i32::MIN, micro: i32::MAX });
    assert_eq!(v.major, Some(4_294_967_294));
    assert_eq!(v.minor, Some(2_147_483_648));
    assert_eq!(v.micro, Some(2_147_483_647));
}

#[test]
fn versions_are_laid_out_for_the_host() {
    let raw = CppVersion::to_raw(Version { major: Some(1), minor: None, micro: Some(3_000_000_000) });
    assert_eq!(raw, sys::Version { major: 1, minor: -1, micro: -1_294_967_296 });
    // The greatest part has the bits of the sentinel.
    let raw = CppVersion::to_raw(Version { major: Some(u32::MAX), minor: Some(0), micro: None });
    assert_eq!(raw.major, -1);
    assert_eq!(CppVersion::from_raw(raw).major, None);
}

#[test]
fn bits_are_read_both_ways() {
    assert_eq!(signed(0), 0);
    assert_eq!(signed(0x7fff_ffff), i32::MAX);
    assert_eq!(signed(0x8000_0000), i32::MIN);
    assert_eq!(signed(u32::MAX), -1);
    assert_eq!(unsigned(-1), u32::MAX);
    assert_eq!(unsigned(i32::MIN), 0x8000_0000);
    assert_eq!(unsigned(5), 5);
}

#[test]
fn verbosity_masks() {
    assert_eq!(LogVerbosity::new().mask(), 2);
    let v = LogVerbosity {
        importance: ImportanceLevel::Debug,
        frequency: FrequencyLevel::Application,
        size: MessageSizeLevel::Large,
    };
    assert_eq!(v.mask(), 288);
    let v = LogVerbosity {
        importance: ImportanceLevel::Normal,
        frequency: FrequencyLevel::Xaction,
        size: MessageSizeLevel::Normal,
    };
    assert_eq!(v.mask(), 17);
    assert_eq!(ImportanceLevel::Critical.bits(), 2);
    assert_eq!(FrequencyLevel::Xaction.bits(), 16);
    assert_eq!(MessageSizeLevel::Large.bits(), 256);
    assert!(ImportanceLevel::Debug < ImportanceLevel::Critical);
}

#[test]
fn areas_share_their_bytes() {
    let area = Area::from_bytes(b"hello");
    let copies: Vec<Area> = (0..5).map(|_| area.clone()).collect();
    drop(area);
    for copy in copies.iter().take(4) {
        assert_eq!(copy.as_bytes(), b"hello");
    }
    let last = copies.into_iter().last().unwrap();
    assert_eq!(last.as_bytes(), b"hello");
    assert_eq!(last.len(), 5);
    assert_eq!(Area::new(b"abc".to_vec()).as_bytes(), b"abc");
    assert_eq!(Area::new(Area::from_bytes(b"xyz")).as_bytes(), b"xyz");
    assert!(Area::from_bytes(b"").non_empty().is_none());
    assert_eq!(Area::from_bytes(b"x").non_empty().unwrap().as_bytes(), b"x");
}

#[test]
fn counted_storage_is_released_by_the_last_handle() {
    let mut storage = CountedBytes::new(b"payload".to_vec());
    let n = 7;
    for _ in 0..n {
        storage.increment();
    }
    assert_eq!(storage.count(), 8);
    for _ in 0..n {
        storage.decrement();
        assert!(!storage.is_released());
        assert_eq!(storage.as_bytes(), b"payload");
    }
    storage.decrement();
    assert!(storage.is_released());
    assert_eq!(storage.count(), 0);
}

/// Storage that writes down what is asked of it.
struct Watched {
    bytes: Vec<u8>,
    log: std::rc::Rc<std::cell::RefCell<Vec<&'static str>>>,
}

impl Details for Watched {
    fn bytes(&self) -> Bytes {
        unreachable!()
    }

    fn strong(&self) -> Count {
        unreachable!()
    }

    fn as_bytes(&self) -> &[u8] {
        self.log.borrow_mut().push("read");
        &self.bytes
    }

    fn increment(&mut self) {
        self.log.borrow_mut().push("increment");
    }

    fn decrement(&mut self) {
        self.log.borrow_mut().push("decrement");
    }
}

#[test]
fn what_is_asked_of_a_stack_reaches_its_storage() {
    let log = std::rc::Rc::new(std::cell::RefCell::new(Vec::new()));
    let mut stack = DetailsStack::from(Watched { bytes: b"abc".to_vec(), log: log.clone() });
    assert!(log.borrow().is_empty());
    stack.increment();
    assert_eq!(stack.as_bytes(), b"abc");
    stack.decrement();
    stack.decrement();
    assert_eq!(*log.borrow(), vec!["increment", "read", "decrement", "decrement"]);
}

#[test]
fn a_stack_counts_with_its_storage() {
    let mut storage = CountedBytes::new(b"abc".to_vec());
    storage.increment();
    let mut stack = DetailsStack::from(storage);
    assert_eq!(stack.as_bytes(), b"abc");
    stack.decrement();
    assert_eq!(stack.as_bytes(), b"abc");
    let mut made = b"xyz".to_vec().details();
    made.increment();
    made.decrement();
    assert_eq!(made.as_bytes(), b"xyz");
}

#[test]
fn body_sizes() {
    assert_eq!(sys::BodySize { known: true, size: 10 }.size(), Some(10));
    assert_eq!(sys::BodySize { known: false, size: 10 }.size(), None);
    assert_eq!(Body::size(&sys::BodySize { known: true, size: 0 }), Some(0));
}

#[test]
fn buffers_for_the_host() {
    let v = sys::rust_new_string(b"text");
    assert_eq!(v.size(), 4);
    sys::rust_free_string(v);
    let v = sys::CVec::from(vec![1, 2, 3]);
    assert_eq!(v.to_rust(), vec![1, 2, 3]);
    let v = sys::CVec::from_string(&String::from("héllo"));
    assert_eq!(v.to_rust(), "héllo".as_bytes().to_vec());
}

#[test]
fn pascal_strings() {
    let s = PascalStr::new(b"abc\xff");
    assert_eq!(s.as_bytes(), b"abc\xff");
    assert_eq!(s.len(), 4);
    let (bytes, len) = s.to_c();
    assert_eq!(bytes, b"abc\xff");
    assert_eq!(len, 4);
    assert_eq!(PascalStr::from_c(b"abcdef", 2).as_bytes(), b"ab");
}

#[test]
fn timeouts() {
    let t = Timeout::new(2, 3_500_000).unwrap();
    assert_eq!(t.as_secs(), 5);
    assert_eq!(t.subsec_micros(), 500_000);
    assert!(Timeout::new(u64::MAX, 1_000_000).is_none());
    assert!(Timeout::new(u64::MAX, 999_999).is_some());
    let t = Timeout::from_timeval(sys::Timeval { tv_sec: 1, tv_usec: 250 }).unwrap();
    assert_eq!(t.to_timeval(), sys::Timeval { tv_sec: 1, tv_usec: 250 });
    // A negative count is read for its bits, and does not fit.
    assert!(Timeout::from_timeval(sys::Timeval { tv_sec: -1, tv_usec: 1_000_000 }).is_none());
    let t = Timeout::from_timeval(sys::Timeval { tv_sec: -1, tv_usec: 0 }).unwrap();
    assert_eq!(t.as_secs(), u64::MAX);
    assert_eq!(t.to_timeval().tv_sec, -1);
}
