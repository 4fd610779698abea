//! Protocol tokens.
use vstd::prelude::*;
use crate::common::bytes::{opt_bytes_eq, opt_view, to_vec};

verus! {

/// How a [`Name`] is identified.
#[derive(Copy, Clone, Debug, PartialEq, Eq, Structural)]
pub enum Id {
    /// The name stands for nothing.
    Unknown,
    /// The name has an image only.
    Unidentified,
    /// The name carries a globally assigned number.
    Id(u32),
}

/// What a [`Name`] holds.
pub struct NameView {
    pub image: Option<Seq<u8>>,
    pub id: Id,
    pub host_id: Option<u32>,
}

impl NameView {
    /// A name is known unless it is the unknown name.
    pub open spec fn known(self) -> bool {
        self.id != Id::Unknown
    }

    /// A name is identified when it carries a number.
    pub open spec fn identified(self) -> bool {
        self.id is Id
    }

    /// The comparison that `==` makes. It is false where either name is
    /// unknown. Else an identified name is compared by its number, any
    /// other by its image.
    pub open spec fn matches(self, other: NameView) -> bool {
        self.known() && other.known() && if self.identified() {
            self.id == other.id
        } else {
            self.image == other.image
        }
    }
}

/// Hands out the numbers of identified names, each one once until the
/// 32-bit counter wraps.
pub struct NameIds {
    last_id: u32,
}

impl NameIds {
    /// The number that the next identified name gets.
    pub closed spec fn next(&self) -> u32 {
        self.last_id
    }

    /// A source that starts at zero.
    pub fn new() -> (ids: NameIds)
        ensures
            ids.next() == 0,
    {
        NameIds { last_id: 0 }
    }

    /// A source that starts at `first`, for hosts that reserve the numbers
    /// below it for their own constants.
    pub fn starting_at(first: u32) -> (ids: NameIds)
        ensures
            ids.next() == first,
    {
        NameIds { last_id: first }
    }

    /// Takes the next number.
    pub fn fetch(&mut self) -> (id: u32)
        ensures
            id == old(self).next(),
            final(self).next() == advance(old(self).next()),
    {
        let id: u32 = self.last_id;
        self.last_id = if id == u32::MAX { 0 } else { id + 1 };
        id
    }
}

/// The counter after one more number was taken.
pub open spec fn advance(next: u32) -> u32 {
    if next == u32::MAX {
        0
    } else {
        (next + 1) as u32
    }
}

/// A protocol token constant or similar name.
///
/// A name is unknown, known by its image alone, or identified by a number.
/// The host may attach a number of its own to a name, once.
#[derive(Debug)]
pub struct Name {
    image: Option<Vec<u8>>,
    id: Id,
    host_id: Option<u32>,
}

impl View for Name {
    type V = NameView;

    closed spec fn view(&self) -> NameView {
        NameView { image: opt_view(self.image), id: self.id, host_id: self.host_id }
    }
}

impl Name {
    pub fn id(&self) -> (id: Id)
        ensures
            id == self@.id,
    {
        self.id
    }

    /// The same name, owning its image.
    pub fn to_owned(self) -> (name: Name)
        ensures
            name@ == self@,
    {
        self
    }

    /// Builds a name from its parts. An empty image counts as no image.
    pub fn from_raw(image: &[u8], id: Id, host_id: Option<u32>) -> (name: Name)
        ensures
            name@ == (NameView {
                image: if image@.len() == 0 { None } else { Some(image@) },
                id,
                host_id,
            }),
    {
        Name {
            image: if image.len() == 0 { None } else { Some(to_vec(image)) },
            id,
            host_id,
        }
    }

    /// The name that stands for nothing.
    pub fn unknown() -> (name: Name)
        ensures
            name@ == (NameView { image: None, id: Id::Unknown, host_id: None }),
    {
        Name { image: None, id: Id::Unknown, host_id: None }
    }

    /// A name known by its image.
    pub fn new_known(image: &[u8]) -> (name: Name)
        ensures
            name@ == (NameView { image: Some(image@), id: Id::Unidentified, host_id: None }),
    {
        Name { image: Some(to_vec(image)), id: Id::Unidentified, host_id: None }
    }

    /// A name with the next number of `ids`.
    pub fn new_identified(image: &[u8], ids: &mut NameIds) -> (name: Name)
        ensures
            name@ == (NameView {
                image: Some(image@),
                id: Id::Id(old(ids).next()),
                host_id: None,
            }),
            final(ids).next() == advance(old(ids).next()),
    {
        let id: u32 = ids.fetch();
        Name { image: Some(to_vec(image)), id: Id::Id(id), host_id: None }
    }

    /// A name known by its image.
    pub fn with_image(image: &[u8]) -> (name: Name)
        ensures
            name@ == (NameView { image: Some(image@), id: Id::Unidentified, host_id: None }),
    {
        Name::new_known(image)
    }

    /// A name with an image and a number chosen by the caller.
    pub fn with_image_and_identified(image: &[u8], id: u32) -> (name: Name)
        ensures
            name@ == (NameView { image: Some(image@), id: Id::Id(id), host_id: None }),
    {
        Name { image: Some(to_vec(image)), id: Id::Id(id), host_id: None }
    }

    /// Is this name associated with a number?
    pub fn identified(&self) -> (r: bool)
        ensures
            r == self@.identified(),
    {
        match self.id {
            Id::Id(_) => true,
            _ => false,
        }
    }

    /// Is this name known?
    pub fn known(&self) -> (r: bool)
        ensures
            r == self@.known(),
    {
        match self.id {
            Id::Unknown => false,
            _ => true,
        }
    }

    /// The string form of this name, if it has one.
    pub fn image(&self) -> (r: Option<&[u8]>)
        ensures
            match r {
                Some(bytes) => self@.image == Some(bytes@),
                None => self@.image is None,
            },
    {
        match &self.image {
            Some(bytes) => Some(bytes.as_slice()),
            None => None,
        }
    }

    /// The number that the host attached, if it did.
    pub fn host_id(&self) -> (r: Option<u32>)
        ensures
            r == self@.host_id,
    {
        self.host_id
    }

    /// Attaches the host's number. A name takes one only once.
    pub fn assign_host_id(&mut self, id: u32)
        requires
            old(self)@.host_id is None,
        ensures
            final(self)@ == (NameView { host_id: Some(id), ..old(self)@ }),
    {
        self.host_id = Some(id);
    }

    /// A copy of this name.
    pub fn duplicate(&self) -> (name: Name)
        ensures
            name@ == self@,
    {
        Name {
            image: match &self.image {
                Some(bytes) => Some(to_vec(bytes.as_slice())),
                None => None,
            },
            id: self.id,
            host_id: self.host_id,
        }
    }
}

impl Clone for Name {
    fn clone(&self) -> (name: Name)
        ensures
            name@ == self@,
    {
        self.duplicate()
    }
}

impl PartialEq for Name {
    fn eq(&self, other: &Name) -> (r: bool) {
        self.known() && other.known() && if self.identified() {
            self.id == other.id
        } else {
            opt_bytes_eq(&self.image, &other.image)
        }
    }
}

impl vstd::std_specs::cmp::PartialEqSpecImpl for Name {
    open spec fn obeys_eq_spec() -> bool {
        true
    }

    open spec fn eq_spec(&self, other: &Name) -> bool {
        self@.matches(other@)
    }
}

/// An unknown name equals no name, itself included, and no name equals it.
pub proof fn lemma_unknown_equals_nothing(a: NameView, b: NameView)
    requires
        !a.known() || !b.known(),
    ensures
        !a.matches(b),
        !b.matches(a),
{
}

/// Identified names are equal exactly when their numbers are, whatever
/// their images.
pub proof fn lemma_identified_equal_by_id(a: NameView, b: NameView)
    requires
        a.identified(),
        b.identified(),
    ensures
        a.matches(b) <==> a.id->0 == b.id->0,
{
}

/// A name that is known but not identified equals a known name exactly
/// when their images are the same bytes.
pub proof fn lemma_known_equal_by_image(a: NameView, b: NameView)
    requires
        a.known(),
        !a.identified(),
        b.known(),
    ensures
        a.matches(b) <==> a.image == b.image,
{
}

/// Two names identified one after the other from the same source differ,
/// even with the same image.
pub proof fn lemma_fresh_names_differ(first: u32, image: Seq<u8>)
    ensures
        !(NameView { image: Some(image), id: Id::Id(first), host_id: None }).matches(
            NameView { image: Some(image), id: Id::Id(advance(first)), host_id: None },
        ),
        !(NameView { image: Some(image), id: Id::Id(advance(first)), host_id: None }).matches(
            NameView { image: Some(image), id: Id::Id(first), host_id: None },
        ),
{
}

} // verus!
