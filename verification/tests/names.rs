use ecap::common::name::{Id, Name, NameIds};
use ecap::cpp::name::CppName;
use ecap::sys;

#[test]
fn ecap_name_eq_1() {
    assert_eq!(Name::with_image(b"apple"), Name::with_image(b"apple"));
}

#[test]
fn name_name_eq_1() {
    assert_eq!(Name::with_image(b"apple"), Name::with_image(b"apple"));
}

#[test]
fn unknown_names_are_never_equal() {
    assert!(!(Name::unknown() == Name::unknown()));
    assert!(!(Name::unknown() == Name::new_known(b"GET")));
    assert!(!(Name::new_known(b"GET") == Name::unknown()));
    // A known name without an image has the image of the unknown name
    // and still does not equal it.
    assert!(!(Name::from_raw(b"", Id::Unidentified, None) == Name::unknown()));
    assert!(Name::from_raw(b"", Id::Unidentified, None) == Name::from_raw(b"", Id::Unidentified, None));
    assert!(!Name::unknown().known());
    assert_eq!(Name::unknown().image(), None);
}

#[test]
fn known_names_compare_by_image() {
    assert!(Name::new_known(b"GET") == Name::new_known(b"GET"));
    assert!(Name::new_known(b"GET") != Name::new_known(b"PUT"));
    assert!(Name::new_known(b"GET") != Name::new_known(b"GET "));
    // The comparison goes by the left side: an identified name on the
    // right is compared by its image.
    assert!(Name::new_known(b"GET") == Name::with_image_and_identified(b"GET", 7));
    assert!(Name::with_image_and_identified(b"GET", 7) != Name::new_known(b"GET"));
}

#[test]
fn identified_names_compare_by_id() {
    let a = Name::with_image_and_identified(b"GET", 7);
    let b = Name::with_image_and_identified(b"something else", 7);
    let c = Name::with_image_and_identified(b"GET", 8);
    assert!(a == b);
    assert!(a != c);
}

#[test]
fn freshly_identified_names_differ() {
    let mut ids = NameIds::new();
    let a = Name::new_identified(b"GET", &mut ids);
    let b = Name::new_identified(b"GET", &mut ids);
    assert!(a != b);
    assert!(b != a);
    assert_eq!(a.id(), Id::Id(0));
    assert_eq!(b.id(), Id::Id(1));
    assert!(a.identified());
    assert_eq!(a.image(), Some(&b"GET"[..]));
}

#[test]
fn ids_wrap_around() {
    let mut ids = NameIds::starting_at(u32::MAX);
    assert_eq!(ids.fetch(), u32::MAX);
    assert_eq!(ids.fetch(), 0);
    assert_eq!(ids.fetch(), 1);
}

#[test]
fn host_id_is_assigned_once() {
    let mut name = Name::new_known(b"Host");
    assert_eq!(name.host_id(), None);
    name.assign_host_id(42);
    // From here on the name has its number, which is what a second
    // assignment may not find.
    assert_eq!(name.host_id(), Some(42));
    assert_eq!(name.image(), Some(&b"Host"[..]));
    assert_eq!(name.id(), Id::Unidentified);
}

#[test]
fn from_raw_drops_an_empty_image() {
    let name = Name::from_raw(b"", Id::Unidentified, Some(3));
    assert_eq!(name.image(), None);
    assert_eq!(name.host_id(), Some(3));
    let name = Name::from_raw(b"x", Id::Id(9), None);
    assert_eq!(name.image(), Some(&b"x"[..]));
    assert_eq!(name.id(), Id::Id(9));
    let kept = name.clone().to_owned();
    assert_eq!(kept.image(), Some(&b"x"[..]));
    assert_eq!(kept.id(), Id::Id(9));
}

#[test]
fn names_are_laid_out_for_the_host() {
    let raw = CppName::from_name(&Name::unknown());
    assert_eq!(raw.as_raw().id, 0);
    assert_eq!(raw.as_raw().host_id, i32::MIN);
    assert!(raw.as_raw().image.buf.is_empty());

    let raw = CppName::from_name(&Name::new_known(b"GET"));
    assert_eq!(raw.as_raw().id, 1);
    assert_eq!(raw.as_raw().image.buf, b"GET".to_vec());

    let mut name = Name::with_image_and_identified(b"GET", 4_000_000_000);
    name.assign_host_id(5);
    let raw = CppName::from_name(&name);
    assert_eq!(raw.as_raw().id, -294_967_296);
    assert_eq!(raw.as_raw().host_id, 5);
}

#[test]
fn names_are_read_from_the_host() {
    let raw = sys::Name { image: sys::PStr { buf: b"GET".to_vec() }, id: 1, host_id: i32::MIN };
    let name = CppName::try_from_raw(&raw).unwrap();
    assert_eq!(name.id(), Id::Unidentified);
    assert_eq!(name.host_id(), None);
    assert_eq!(name.image(), Some(&b"GET"[..]));

    let raw = sys::Name { image: sys::PStr { buf: Vec::new() }, id: 0, host_id: 7 };
    let name = CppName::try_from_raw(&raw).unwrap();
    assert_eq!(name.id(), Id::Unknown);
    assert_eq!(name.host_id(), Some(7));
    assert_eq!(name.image(), None);

    let raw = sys::Name { image: sys::PStr { buf: b"x".to_vec() }, id: -1, host_id: -1 };
    let name = CppName::try_from_raw(&raw).unwrap();
    assert_eq!(name.id(), Id::Id(u32::MAX));
    assert_eq!(name.host_id(), Some(u32::MAX));
}

#[test]
fn an_image_that_is_not_utf8_is_not_read() {
    let raw = sys::Name { image: sys::PStr { buf: vec![0xff, 0xfe] }, id: 1, host_id: 0 };
    assert!(CppName::try_from_raw(&raw).is_none());
    let raw = sys::Name { image: sys::PStr { buf: "é".as_bytes().to_vec() }, id: 1, host_id: 0 };
    assert!(CppName::try_from_raw(&raw).is_some());
}

#[test]
fn names_come_back_from_the_layout() {
    let mut name = Name::with_image_and_identified(b"Via", 12);
    name.assign_host_id(3);
    let raw = CppName::from_name(&name);
    let back = CppName::from_raw(raw.as_raw());
    assert_eq!(back.id(), Id::Id(12));
    assert_eq!(back.host_id(), Some(3));
    assert_eq!(back.image(), Some(&b"Via"[..]));
}
