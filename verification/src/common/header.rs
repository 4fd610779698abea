//! Headers and first lines.
use vstd::prelude::*;
use crate::common::area::Area;
use crate::common::name::{Name, NameView};
use crate::common::named_values::{has_field, joined, values_of, without_field, Fields, NamedValueVisitor};
use crate::common::version::Version;

verus! {

/// A header structure: many fields, each a name with a value.
pub trait Header {
    /// The fields, in order.
    spec fn fields(&self) -> Fields;

    /// The bytes that the header was parsed from or would be written as.
    spec fn spec_image(&self) -> Seq<u8>;

    /// Returns true if this header has at least one field that `field`
    /// equals.
    fn contains_field(&self, field: &Name) -> (r: bool)
        ensures
            r == has_field(self.fields(), field@),
    ;

    /// Gets the value of the field. Where several fields have the name,
    /// their values come as one list, separated by ", ".
    fn get(&self, field: &Name) -> (r: Option<Area>)
        ensures
            r is Some <==> has_field(self.fields(), field@),
            r matches Some(value) ==> value@ == joined(values_of(self.fields(), field@)),
    ;

    /// Adds a field at the end.
    fn insert(&mut self, field: Name, value: Area)
        ensures
            final(self).fields() == old(self).fields().push((field@, value@)),
    ;

    /// Removes all fields that `field` equals.
    fn remove_any(&mut self, field: &Name)
        ensures
            final(self).fields() == without_field(old(self).fields(), field@),
    ;

    /// Shows the visitor each field.
    fn visit_each<V: NamedValueVisitor>(&self, visitor: &mut V)
        requires
            old(visitor).inv(),
        ensures
            final(visitor).inv(),
            final(visitor).visited() == old(visitor).visited() + self.fields(),
    ;

    /// The buffer that represents this header.
    fn image(&self) -> (r: Area)
        ensures
            r@ == self.spec_image(),
    ;

    /// Parses a buffer into this header. On success the buffer is the
    /// header's image; on failure the header is as it was.
    fn parse(&mut self, buf: &Area) -> (r: Result<(), ()>)
        ensures
            r is Ok ==> final(self).spec_image() == buf@,
            r is Err ==> final(self).fields() == old(self).fields() && final(self).spec_image()
                == old(self).spec_image(),
    ;
}

/// What a first line holds.
pub struct FirstLineView {
    pub version: Version,
    pub protocol: NameView,
}

/// The first line in a request or response, such as `GET / HTTP/1.1` or
/// `HTTP/1.1 200 OK`.
pub trait FirstLine {
    spec fn view(&self) -> FirstLineView;

    fn version(&self) -> (r: Version)
        ensures
            r == self@.version,
    ;

    fn set_version(&mut self, version: Version)
        ensures
            final(self)@ == (FirstLineView { version, ..old(self)@ }),
    ;

    fn protocol(&self) -> (r: Name)
        ensures
            r@ == self@.protocol,
    ;

    fn set_protocol(&mut self, protocol: Name)
        ensures
            final(self)@ == (FirstLineView { protocol: protocol@, ..old(self)@ }),
    ;
}

/// The URI and method, such as `GET /`. Only requests have them.
pub trait RequestLine: FirstLine {
    spec fn spec_uri(&self) -> Seq<u8>;

    spec fn spec_method(&self) -> NameView;

    fn uri(&self) -> (r: Area)
        ensures
            r@ == self.spec_uri(),
    ;

    fn set_uri(&mut self, area: Area)
        ensures
            final(self).spec_uri() == area@,
            final(self).spec_method() == old(self).spec_method(),
            final(self)@ == old(self)@,
    ;

    fn method(&self) -> (r: Name)
        ensures
            r@ == self.spec_method(),
    ;

    fn set_method(&mut self, name: Name)
        ensures
            final(self).spec_method() == name@,
            final(self).spec_uri() == old(self).spec_uri(),
            final(self)@ == old(self)@,
    ;
}

/// The status code and reason phrase, such as `200 OK`. Only responses
/// have them.
pub trait StatusLine: FirstLine {
    spec fn spec_status_code(&self) -> u16;

    spec fn spec_reason_phrase(&self) -> NameView;

    fn status_code(&self) -> (r: u16)
        ensures
            r == self.spec_status_code(),
    ;

    fn set_status_code(&mut self, code: u16)
        ensures
            final(self).spec_status_code() == code,
            final(self).spec_reason_phrase() == old(self).spec_reason_phrase(),
            final(self)@ == old(self)@,
    ;

    fn reason_phrase(&self) -> (r: Name)
        ensures
            r@ == self.spec_reason_phrase(),
    ;

    fn set_reason_phrase(&mut self, name: Name)
        ensures
            final(self).spec_reason_phrase() == name@,
            final(self).spec_status_code() == old(self).spec_status_code(),
            final(self)@ == old(self)@,
    ;
}

} // verus!
