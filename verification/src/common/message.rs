//! Messages.
use vstd::prelude::*;
use crate::common::body::Body;
use crate::common::header::{FirstLine, FirstLineView, Header};
use crate::common::named_values::Fields;

verus! {

/// What a message holds. `body` is `None` for a message without a body,
/// and else the size of the body as far as it is known.
pub struct MessageView {
    pub first_line: FirstLineView,
    pub header: Fields,
    pub body: Option<Option<u64>>,
    pub trailer: Option<Fields>,
}

/// A request or a response, owned by the host.
pub trait Message: Sized {
    type FirstLine: FirstLine;

    type Header: Header;

    type Body: Body;

    type Trailer: Header;

    spec fn view(&self) -> MessageView;

    /// A message of its own with the same content.
    fn clone(&self) -> (r: Self)
        ensures
            r@ == self@,
    ;

    /// The first line. It is always there, and tells a request from a
    /// response.
    fn first_line_mut(&mut self) -> (r: &mut Self::FirstLine)
        ensures
            r@ == old(self)@.first_line,
            final(self)@ == (MessageView { first_line: final(r)@, ..old(self)@ }),
    ;

    fn first_line(&self) -> (r: &Self::FirstLine)
        ensures
            r@ == self@.first_line,
    ;

    fn header_mut(&mut self) -> (r: &mut Self::Header)
        ensures
            r.fields() == old(self)@.header,
            final(self)@ == (MessageView { header: final(r).fields(), ..old(self)@ }),
    ;

    fn header(&self) -> (r: &Self::Header)
        ensures
            r.fields() == self@.header,
    ;

    /// Gives the message a body, unless it has one.
    fn add_body(&mut self)
        ensures
            final(self)@.body is Some,
            old(self)@.body is Some ==> final(self)@ == old(self)@,
            final(self)@ == (MessageView { body: final(self)@.body, ..old(self)@ }),
    ;

    fn body_mut(&mut self) -> (r: Option<&mut Self::Body>)
        ensures
            r is Some <==> old(self)@.body is Some,
            r matches Some(body) ==> Some(body.spec_size()) == old(self)@.body && final(self)@ == (
            MessageView { body: Some(final(body).spec_size()), ..old(self)@ }),
            r is None ==> final(self)@ == old(self)@,
    ;

    fn body(&self) -> (r: Option<&Self::Body>)
        ensures
            r is Some <==> self@.body is Some,
            r matches Some(body) ==> Some(body.spec_size()) == self@.body,
    ;

    /// Gives the message a trailer, unless it has one.
    fn add_trailer(&mut self)
        ensures
            final(self)@.trailer is Some,
            old(self)@.trailer is Some ==> final(self)@ == old(self)@,
            final(self)@ == (MessageView { trailer: final(self)@.trailer, ..old(self)@ }),
    ;

    fn trailer_mut(&mut self) -> (r: &mut Self::Trailer)
        requires
            old(self)@.trailer is Some,
        ensures
            Some(r.fields()) == old(self)@.trailer,
            final(self)@ == (MessageView { trailer: Some(final(r).fields()), ..old(self)@ }),
    ;

    fn trailer(&self) -> (r: &Self::Trailer)
        requires
            self@.trailer is Some,
        ensures
            Some(r.fields()) == self@.trailer,
    ;
}

} // verus!
