//! Spans of time, as hosts count them.
use vstd::prelude::*;
use crate::sys::Timeval;

verus! {

/// A span of time: whole seconds, and microseconds below one second.
#[derive(Debug, Copy, Clone, PartialEq, Eq, Structural)]
pub struct Timeout {
    secs: u64,
    micros: u32,
}

/// The microseconds in a second.
pub const MICROS_PER_SEC: u64 = 1_000_000;

impl Timeout {
    /// The span in microseconds.
    pub closed spec fn micros(&self) -> nat {
        (self.secs * 1_000_000 + self.micros) as nat
    }

    /// The microseconds are below one second.
    #[verifier::type_invariant]
    closed spec fn wf(self) -> bool {
        self.micros < 1_000_000
    }

    /// A span of `secs` seconds and `micros` microseconds, or `None` where
    /// the seconds do not fit.
    pub fn new(secs: u64, micros: u64) -> (r: Option<Timeout>)
        ensures
            r is Some <==> secs + micros / 1_000_000 <= u64::MAX,
            r matches Some(t) ==> t.micros() == secs * 1_000_000 + micros,
    {
        let carry: u64 = micros / MICROS_PER_SEC;
        let rest: u64 = micros % MICROS_PER_SEC;
        if secs > u64::MAX - carry {
            None
        } else {
            let t = Timeout { secs: secs + carry, micros: rest as u32 };
            assert((secs + carry) * 1_000_000 + rest == secs * 1_000_000 + micros) by (nonlinear_arith)
                requires
                    carry == micros / 1_000_000,
                    rest == micros % 1_000_000,
            ;
            Some(t)
        }
    }

    /// The whole seconds of the span.
    pub fn as_secs(&self) -> (r: u64)
        ensures
            r == self.micros() / 1_000_000,
    {
        proof {
            use_type_invariant(self);
        }
        self.secs
    }

    /// The microseconds of the span below one second.
    pub fn subsec_micros(&self) -> (r: u32)
        ensures
            r == self.micros() % 1_000_000,
    {
        proof {
            use_type_invariant(self);
        }
        self.micros
    }

    /// Reads the host's span. The host counts in signed numbers; a
    /// negative one is read for its bits. `None` where the sum does not fit.
    pub fn from_timeval(tv: Timeval) -> (r: Option<Timeout>)
        ensures
            r is Some <==> unsigned64(tv.tv_sec) + unsigned64(tv.tv_usec) / 1_000_000 <= u64::MAX,
            r matches Some(t) ==> t.micros() == unsigned64(tv.tv_sec) * 1_000_000 + unsigned64(
                tv.tv_usec,
            ),
    {
        Timeout::new(to_unsigned64(tv.tv_sec), to_unsigned64(tv.tv_usec))
    }

    /// Writes the span for the host.
    pub fn to_timeval(&self) -> (tv: Timeval)
        ensures
            tv.tv_sec == signed64((self.micros() / 1_000_000) as u64),
            tv.tv_usec == self.micros() % 1_000_000,
    {
        proof {
            use_type_invariant(self);
        }
        Timeval { tv_sec: to_signed64(self.secs), tv_usec: self.micros as i64 }
    }
}

/// The same 64 bits, read as unsigned.
pub open spec fn unsigned64(v: i64) -> u64 {
    if v >= 0 {
        v as u64
    } else {
        (v + 0x1_0000_0000_0000_0000) as u64
    }
}

/// The same 64 bits, read as signed.
pub open spec fn signed64(v: u64) -> i64 {
    if v <= i64::MAX as u64 {
        v as i64
    } else {
        (v - 0x1_0000_0000_0000_0000) as i64
    }
}

/// Reads 64 bits as an unsigned number.
pub fn to_unsigned64(v: i64) -> (r: u64)
    ensures
        r == unsigned64(v),
{
    if v >= 0 {
        v as u64
    } else {
        let low: i64 = v - i64::MIN;
        low as u64 + 0x8000_0000_0000_0000
    }
}

/// Reads 64 bits as a signed number.
pub fn to_signed64(v: u64) -> (r: i64)
    ensures
        r == signed64(v),
{
    if v <= 0x7fff_ffff_ffff_ffff {
        v as i64
    } else {
        let low: u64 = v - 0x8000_0000_0000_0000;
        low as i64 + i64::MIN
    }
}

} // verus!
