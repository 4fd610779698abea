//! The host itself.
use vstd::prelude::*;
use crate::common::log::{DebugStream, LogVerbosity};
use crate::common::message::Message;
use crate::common::options::Options;
use crate::host::transaction::Transaction;

verus! {

/// Tells the families of host types apart where a service is kept without
/// its type.
#[derive(Debug, Copy, Clone, PartialEq, Eq, Hash, Structural)]
pub struct HostTag(pub u64);

/// The primary interface for talking to the host itself.
pub trait Host {
    type DebugStream: DebugStream;

    type Message: Message;

    type Transaction: Transaction<Message = Self::Message>;

    type Options: Options;

    /// The tag of this family of types.
    spec fn spec_tag() -> HostTag;

    spec fn spec_uri(&self) -> Seq<char>;

    spec fn spec_describe(&self) -> Seq<char>;

    fn tag() -> (t: HostTag)
        ensures
            t == Self::spec_tag(),
    ;

    /// An identifier, unique across all vendors.
    fn uri(&self) -> (r: String)
        ensures
            r@ == self.spec_uri(),
    ;

    /// A description of the host, free-format.
    fn describe(&self) -> (r: String)
        ensures
            r@ == self.spec_describe(),
    ;

    /// Opens a logging stream with the given verbosity. The host may
    /// decline.
    fn open_debug(&mut self, verbosity: LogVerbosity) -> (r: Option<Self::DebugStream>)
        ensures
            r matches Some(stream) ==> stream.written() == Seq::<char>::empty(),
            final(self).spec_uri() == old(self).spec_uri(),
            final(self).spec_describe() == old(self).spec_describe(),
    ;

    /// Closes a debug stream.
    fn close_debug(&mut self, stream: Self::DebugStream)
        ensures
            final(self).spec_uri() == old(self).spec_uri(),
            final(self).spec_describe() == old(self).spec_describe(),
    ;

    /// A fresh request, for where copying a message will not do.
    fn new_request(&self) -> (r: Self::Message);

    /// A fresh response, for where copying a message will not do.
    fn new_response(&self) -> (r: Self::Message);
}

} // verus!
