//! Bindings that let content-adaptation services talk to an eCAP host.
//!
//! The crate is organised around the objects that cross the boundary between
//! an adapter and its host: the value types of [`common`], the host and adapter
//! sides of a transaction in [`host`] and [`adapter`], and the machinery that
//! stores adapters behind opaque handles.
use vstd::prelude::*;

pub mod adapter;
pub mod common;
pub mod cpp;
pub mod erased;
pub mod host;
pub mod misc;
pub mod registry;
pub mod samples;
pub mod sys;

use crate::erased::BoxedService;
use crate::host::host::Host;

verus! {

/// What a byte string holds, in contracts.
pub type Bytes = Seq<u8>;

/// What a string holds, in contracts.
pub type Text = Seq<char>;

/// A count, in contracts.
pub type Count = nat;

/// Takes services in for a host.
///
/// A translator is what stands between the adapters of a process and its
/// host: each service that registers is handed to it.
pub trait Translator<K: Host> {
    /// The services that were taken in, in order.
    spec fn adopted(&self) -> Seq<BoxedService<K>>;

    fn register_service(&mut self, service: BoxedService<K>)
        ensures
            final(self).adopted() == old(self).adopted().push(service),
    ;
}

} // verus!
