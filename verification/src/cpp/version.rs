//! Versions, to and from the host's layout.
use vstd::prelude::*;
use crate::common::Version;
use crate::sys;

verus! {

/// The number that the host's layout holds for a part: the same 32 bits,
/// read as signed.
pub open spec fn to_signed(v: u32) -> i32 {
    if v <= i32::MAX as u32 {
        v as i32
    } else {
        (v - 0x1_0000_0000) as i32
    }
}

/// The part that a number of the host's layout stands for: the same 32
/// bits, read as unsigned.
pub open spec fn to_unsigned(v: i32) -> u32 {
    if v >= 0 {
        v as u32
    } else {
        (v + 0x1_0000_0000) as u32
    }
}

/// Reads 32 bits as a signed number.
pub fn signed(v: u32) -> (r: i32)
    ensures
        r == to_signed(v),
{
    if v <= 0x7fff_ffff {
        v as i32
    } else {
        let low: u32 = v - 0x8000_0000;
        low as i32 + i32::MIN
    }
}

/// Reads 32 bits as an unsigned number.
pub fn unsigned(v: i32) -> (r: u32)
    ensures
        r == to_unsigned(v),
{
    if v >= 0 {
        v as u32
    } else {
        let low: i32 = v - i32::MIN;
        low as u32 + 0x8000_0000
    }
}

/// Reading as signed and back gives the same number.
pub proof fn lemma_signed_round_trip(v: u32)
    ensures
        to_unsigned(to_signed(v)) == v,
{
}

/// One part of a version in the host's layout.
pub open spec fn part_from_raw(v: i32) -> Option<u32> {
    if v == -1 {
        None
    } else {
        Some(to_unsigned(v))
    }
}

/// One part of a version, for the host's layout.
pub open spec fn part_to_raw(v: Option<u32>) -> i32 {
    match v {
        Some(v) => to_signed(v),
        None => -1i32,
    }
}

/// Converts versions.
pub struct CppVersion;

impl CppVersion {
    /// The version that the host's layout stands for.
    pub fn from_raw(v: sys::Version) -> (r: Version)
        ensures
            r.major == part_from_raw(v.major),
            r.minor == part_from_raw(v.minor),
            r.micro == part_from_raw(v.micro),
    {
        let major: Option<u32> = if v.major == -1 {
            None
        } else {
            Some(unsigned(v.major))
        };
        let minor: Option<u32> = if v.minor == -1 {
            None
        } else {
            Some(unsigned(v.minor))
        };
        let micro: Option<u32> = if v.micro == -1 {
            None
        } else {
            Some(unsigned(v.micro))
        };
        Version { major, minor, micro }
    }

    /// The host's layout of a version.
    pub fn to_raw(v: Version) -> (r: sys::Version)
        ensures
            r.major == part_to_raw(v.major),
            r.minor == part_to_raw(v.minor),
            r.micro == part_to_raw(v.micro),
    {
        sys::Version {
            major: match v.major {
                Some(v) => signed(v),
                None => -1,
            },
            minor: match v.minor {
                Some(v) => signed(v),
                None => -1,
            },
            micro: match v.micro {
                Some(v) => signed(v),
                None => -1,
            },
        }
    }
}

/// A version whose parts are all below `u32::MAX` comes back unchanged from
/// the host's layout. (The part `u32::MAX` has the bits of -1, and comes
/// back as unknown.)
pub proof fn lemma_version_round_trip(v: Option<u32>)
    requires
        v != Some(u32::MAX),
    ensures
        part_from_raw(part_to_raw(v)) == v,
{
}

} // verus!
