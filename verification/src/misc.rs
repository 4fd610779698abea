//! Strings as the host passes them: bytes with their length.
use vstd::prelude::*;
use crate::common::bytes::to_vec;

verus! {

/// A string of bytes that carries its length and need not be UTF-8.
#[derive(Debug)]
pub struct PascalStr {
    bytes: Vec<u8>,
}

impl View for PascalStr {
    type V = Seq<u8>;

    closed spec fn view(&self) -> Seq<u8> {
        self.bytes@
    }
}

impl PascalStr {
    /// A string with the bytes of `s`.
    pub fn new(s: &[u8]) -> (r: PascalStr)
        ensures
            r@ == s@,
    {
        PascalStr { bytes: to_vec(s) }
    }

    /// A string with the first `len` bytes of `buf`.
    pub fn from_c(buf: &[u8], len: usize) -> (r: PascalStr)
        requires
            len <= buf@.len(),
        ensures
            r@ == buf@.subrange(0, len as int),
    {
        let mut bytes: Vec<u8> = Vec::new();
        crate::common::bytes::append_range(&mut bytes, buf, 0, len);
        PascalStr { bytes }
    }

    /// The bytes and their number.
    pub fn to_c(&self) -> (r: (&[u8], usize))
        ensures
            r.0@ == self@,
            r.1 == self@.len(),
    {
        (self.bytes.as_slice(), self.bytes.len())
    }

    pub fn as_bytes(&self) -> (r: &[u8])
        ensures
            r@ == self@,
    {
        self.bytes.as_slice()
    }

    pub fn len(&self) -> (n: usize)
        ensures
            n == self@.len(),
    {
        self.bytes.len()
    }
}

} // verus!
