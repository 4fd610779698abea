//! The values that cross the boundary to the native host, as it lays them
//! out: lengths with their bytes, and sentinel numbers for what is absent.
use vstd::prelude::*;
use crate::common::bytes::to_vec;

verus! {

/// A growable byte buffer handed over to, or taken back from, the host.
pub struct CVec {
    bytes: Vec<u8>,
}

impl View for CVec {
    type V = Seq<u8>;

    closed spec fn view(&self) -> Seq<u8> {
        self.bytes@
    }
}

impl CVec {
    /// Hands a buffer over.
    pub fn from(data: Vec<u8>) -> (v: CVec)
        ensures
            v@ == data@,
    {
        CVec { bytes: data }
    }

    /// Hands the bytes of a string over.
    pub fn from_string(data: &String) -> (v: CVec)
        ensures
            v@ == vstd::utf8::encode_utf8(data@),
    {
        CVec { bytes: to_vec(data.as_str().as_bytes()) }
    }

    /// Takes the buffer back.
    pub fn to_rust(self) -> (data: Vec<u8>)
        ensures
            data@ == self@,
    {
        self.bytes
    }

    pub fn size(&self) -> (n: usize)
        ensures
            n == self@.len(),
    {
        self.bytes.len()
    }
}

/// Copies `buf` into a buffer of its own, for the host to keep.
pub fn rust_new_string(buf: &[u8]) -> (v: CVec)
    ensures
        v@ == buf@,
{
    CVec { bytes: to_vec(buf) }
}

/// Takes a buffer back from the host and releases it.
pub fn rust_free_string(s: CVec) {
    let _data: Vec<u8> = s.to_rust();
}

/// A string with its length: the image of a name.
pub struct PStr {
    pub buf: Vec<u8>,
}

/// A name as the host lays it out. `id` is 0 for the unknown name, 1 for a
/// name that has only an image, and the name's number otherwise; `host_id`
/// is the least `i32` where the host attached no number.
pub struct Name {
    pub image: PStr,
    pub id: i32,
    pub host_id: i32,
}

/// A version as the host lays it out: -1 stands for an unknown part.
#[derive(Debug, Copy, Clone, PartialEq, Eq, Structural)]
pub struct Version {
    pub major: i32,
    pub minor: i32,
    pub micro: i32,
}

/// A verbosity mask.
#[derive(Debug, Copy, Clone, PartialEq, Eq, Structural)]
pub struct LogVerbosity(pub usize);

/// The size of a body, where the host knows it.
#[derive(Debug, Copy, Clone, PartialEq, Eq, Structural)]
pub struct BodySize {
    pub known: bool,
    pub size: u64,
}

impl BodySize {
    /// The size, or nothing where it is not known.
    pub fn size(&self) -> (r: Option<u64>)
        ensures
            r == (if self.known { Some(self.size) } else { None }),
    {
        if self.known {
            Some(self.size)
        } else {
            None
        }
    }
}

/// Where a panic was raised.
pub struct PanicLocation {
    pub file: CVec,
    pub line: i32,
    pub column: i32,
}

/// One record of a failed call, as the host reads it.
pub struct Panic {
    pub is_exception: bool,
    pub message: CVec,
    pub location: PanicLocation,
}

/// A span of time as the host lays it out: seconds and microseconds.
#[derive(Debug, Copy, Clone, PartialEq, Eq, Structural)]
pub struct Timeval {
    pub tv_sec: i64,
    pub tv_usec: i64,
}

} // verus!
