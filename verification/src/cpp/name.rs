//! Names, to and from the host's layout.
use vstd::prelude::*;
use crate::common::bytes::to_vec;
use crate::common::name::{Id, Name, NameView};
use crate::cpp::version::{signed, to_signed, to_unsigned, unsigned};
use crate::sys;

verus! {

/// What a name in the host's layout holds.
pub struct RawNameView {
    pub image: Seq<u8>,
    pub id: i32,
    pub host_id: i32,
}

/// The host's layout of a name.
pub open spec fn name_to_raw(name: NameView) -> RawNameView {
    RawNameView {
        image: match name.image {
            Some(image) => image,
            None => Seq::empty(),
        },
        id: match name.id {
            Id::Unknown => 0,
            Id::Unidentified => 1,
            Id::Id(id) => to_signed(id),
        },
        host_id: match name.host_id {
            Some(id) => to_signed(id),
            None => i32::MIN,
        },
    }
}

/// The name that the host's layout stands for.
pub open spec fn name_from_raw(raw: RawNameView) -> NameView {
    NameView {
        image: if raw.image.len() == 0 {
            None
        } else {
            Some(raw.image)
        },
        id: if raw.id == 0 {
            Id::Unknown
        } else if raw.id == 1 {
            Id::Unidentified
        } else {
            Id::Id(to_unsigned(raw.id))
        },
        host_id: if raw.host_id == i32::MIN {
            None
        } else {
            Some(to_unsigned(raw.host_id))
        },
    }
}

/// Tells whether `bytes` is well-formed UTF-8, by `core::str::from_utf8`:
/// it succeeds exactly on the byte strings that are.
#[verifier::external_body]
fn is_utf8(bytes: &[u8]) -> (r: bool)
    ensures
        r == vstd::utf8::valid_utf8(bytes@),
{
    core::str::from_utf8(bytes).is_ok()
}

/// A name laid out for the host.
pub struct CppName {
    cpp: sys::Name,
}

impl View for CppName {
    type V = RawNameView;

    closed spec fn view(&self) -> RawNameView {
        RawNameView { image: self.cpp.image.buf@, id: self.cpp.id, host_id: self.cpp.host_id }
    }
}

impl CppName {
    /// Lays a name out for the host.
    pub fn from_name(name: &Name) -> (r: CppName)
        ensures
            r@ == name_to_raw(name@),
    {
        let image: Vec<u8> = match name.image() {
            Some(bytes) => to_vec(bytes),
            None => Vec::new(),
        };
        let host_id: i32 = match name.host_id() {
            Some(hid) => signed(hid),
            None => i32::MIN,
        };
        let id: i32 = match name.id() {
            Id::Unknown => 0,
            Id::Unidentified => 1,
            Id::Id(id) => signed(id),
        };
        CppName { cpp: sys::Name { image: sys::PStr { buf: image }, id, host_id } }
    }

    /// Wraps what the host laid out.
    pub fn new(raw: sys::Name) -> (r: CppName)
        ensures
            r@ == (RawNameView { image: raw.image.buf@, id: raw.id, host_id: raw.host_id }),
    {
        CppName { cpp: raw }
    }

    /// Reads a name that the host laid out. The image has to be UTF-8.
    pub fn from_raw(name: &sys::Name) -> (r: Name)
        requires
            vstd::utf8::valid_utf8(name.image.buf@),
        ensures
            r@ == name_from_raw(
                RawNameView { image: name.image.buf@, id: name.id, host_id: name.host_id },
            ),
    {
        let id: Id = if name.id == 0 {
            Id::Unknown
        } else if name.id == 1 {
            Id::Unidentified
        } else {
            Id::Id(unsigned(name.id))
        };
        let host_id: Option<u32> = if name.host_id == i32::MIN {
            None
        } else {
            Some(unsigned(name.host_id))
        };
        Name::from_raw(name.image.buf.as_slice(), id, host_id)
    }

    /// Reads a name that the host laid out, or nothing where its image is
    /// not UTF-8.
    pub fn try_from_raw(name: &sys::Name) -> (r: Option<Name>)
        ensures
            r is Some <==> vstd::utf8::valid_utf8(name.image.buf@),
            r matches Some(n) ==> n@ == name_from_raw(
                RawNameView { image: name.image.buf@, id: name.id, host_id: name.host_id },
            ),
    {
        if is_utf8(name.image.buf.as_slice()) {
            Some(CppName::from_raw(name))
        } else {
            None
        }
    }

    /// The layout itself.
    pub fn as_raw(&self) -> (r: &sys::Name)
        ensures
            r.image.buf@ == self@.image,
            r.id == self@.id,
            r.host_id == self@.host_id,
    {
        &self.cpp
    }
}

/// A name comes back unchanged from the host's layout, unless the layout
/// has no room for it: an empty image, the numbers 0 and 1, which stand for
/// the unknown and the unidentified name, and the host number with the bits
/// of the least `i32`, which stands for none.
pub proof fn lemma_name_round_trip(name: NameView)
    requires
        name.image != Some(Seq::<u8>::empty()),
        name.id != Id::Id(0),
        name.id != Id::Id(1),
        name.host_id != Some(0x8000_0000u32),
    ensures
        name_from_raw(name_to_raw(name)) == name,
{
    match name.image {
        Some(image) => {
            assert(image.len() != 0) by {
                if image.len() == 0 {
                    assert(image =~= Seq::<u8>::empty());
                }
            }
        },
        None => {},
    }
}

} // verus!
