//! Failed calls: how they are recorded, and how the host reads the records.
//!
//! No panic may cross the boundary to the host. A call that failed answers
//! `false`, and what went wrong waits in a queue until the host asks for it.
use vstd::prelude::*;
use vstd::utf8::encode_utf8;
use crossbeam::sync::TreiberStack;
use crate::cpp::version::{signed, to_signed};
use crate::sys;

verus! {

/// Stands in a panic for an exception that the host raised in a call that
/// the library made into it.
#[derive(Debug, Copy, Clone, PartialEq, Eq, Structural)]
pub struct CppError;

/// What a panic carried, as far as the library can tell.
pub enum Payload {
    /// A message.
    Message(String),
    /// A [`CppError`].
    Exception,
    /// Anything else.
    Unknown,
}

/// Where a panic was raised.
#[derive(Debug)]
pub struct PanicLocation {
    pub file: String,
    pub line: u32,
    pub column: u32,
}

/// One recorded panic.
#[derive(Debug)]
pub struct PanicPayload {
    pub is_exception: bool,
    pub payload: String,
    pub location: Option<PanicLocation>,
}

/// What a [`PanicLocation`] holds.
pub struct PanicLocationView {
    pub file: Seq<char>,
    pub line: u32,
    pub column: u32,
}

/// What a [`PanicPayload`] holds.
pub struct PanicPayloadView {
    pub is_exception: bool,
    pub payload: Seq<char>,
    pub location: Option<PanicLocationView>,
}

/// What a record holds in the host's layout.
pub struct RawPanicView {
    pub is_exception: bool,
    pub message: Seq<u8>,
    pub file: Seq<u8>,
    pub line: i32,
    pub column: i32,
}

impl View for PanicLocation {
    type V = PanicLocationView;

    open spec fn view(&self) -> PanicLocationView {
        PanicLocationView { file: self.file@, line: self.line, column: self.column }
    }
}

impl View for PanicPayload {
    type V = PanicPayloadView;

    open spec fn view(&self) -> PanicPayloadView {
        PanicPayloadView {
            is_exception: self.is_exception,
            payload: self.payload@,
            location: match self.location {
                Some(l) => Some(l@),
                None => None,
            },
        }
    }
}

impl View for sys::Panic {
    type V = RawPanicView;

    open spec fn view(&self) -> RawPanicView {
        RawPanicView {
            is_exception: self.is_exception,
            message: self.message@,
            file: self.location.file@,
            line: self.location.line,
            column: self.location.column,
        }
    }
}

/// The message recorded for a payload.
pub open spec fn payload_text(payload: Payload) -> Seq<char> {
    match payload {
        Payload::Message(s) => s@,
        Payload::Exception => "C++ exception"@,
        Payload::Unknown => "unknown payload"@,
    }
}

/// The record made of a panic.
pub open spec fn record_of(payload: Payload, location: Option<PanicLocation>) -> PanicPayloadView {
    PanicPayloadView {
        is_exception: payload is Exception,
        payload: payload_text(payload),
        location: match location {
            Some(l) => Some(l@),
            None => None,
        },
    }
}

/// The host's layout of a record. A record without a location has an
/// empty file name, at line and column 0.
pub open spec fn record_to_raw(record: PanicPayloadView) -> RawPanicView {
    RawPanicView {
        is_exception: record.is_exception,
        message: encode_utf8(record.payload),
        file: match record.location {
            Some(l) => encode_utf8(l.file),
            None => Seq::empty(),
        },
        line: match record.location {
            Some(l) => to_signed(l.line),
            None => 0i32,
        },
        column: match record.location {
            Some(l) => to_signed(l.column),
            None => 0i32,
        },
    }
}

impl PanicPayload {
    /// Makes the record of a panic.
    pub fn new(payload: Payload, location: Option<PanicLocation>) -> (record: PanicPayload)
        ensures
            record@ == record_of(payload, location),
    {
        let (is_exception, text): (bool, String) = match payload {
            Payload::Message(s) => (false, s),
            Payload::Exception => (true, "C++ exception".to_owned()),
            Payload::Unknown => (false, "unknown payload".to_owned()),
        };
        PanicPayload { is_exception, payload: text, location }
    }

    /// Lays the record out for the host.
    pub fn into_ffi(self) -> (raw: sys::Panic)
        ensures
            raw@ == record_to_raw(self@),
    {
        let message: sys::CVec = sys::CVec::from_string(&self.payload);
        let location: sys::PanicLocation = match self.location {
            Some(l) => sys::PanicLocation {
                file: sys::CVec::from_string(&l.file),
                line: signed(l.line),
                column: signed(l.column),
            },
            None => sys::PanicLocation { file: sys::CVec::from(Vec::new()), line: 0, column: 0 },
        };
        sys::Panic { is_exception: self.is_exception, message, location }
    }
}

/// `crossbeam::sync::TreiberStack`, a stack that many threads may push to
/// and pop from. Nothing is known of what is inside it.
#[verifier::external_type_specification]
#[verifier::external_body]
#[verifier::reject_recursive_types(T)]
pub struct ExTreiberStack<T>(TreiberStack<T>);

/// The records on a stack, the oldest first.
pub uninterp spec fn stack_items(stack: TreiberStack<PanicPayload>) -> Seq<PanicPayloadView>;

/// `TreiberStack::new`: a stack with nothing on it.
#[verifier::external_body]
fn stack_new() -> (stack: TreiberStack<PanicPayload>)
    ensures
        stack_items(stack) == Seq::<PanicPayloadView>::empty(),
{
    TreiberStack::new()
}

/// `TreiberStack::push`: puts `record` on top of the stack. The caller
/// holds the stack alone, so nothing else comes between.
#[verifier::external_body]
fn stack_push(stack: &mut TreiberStack<PanicPayload>, record: PanicPayload)
    ensures
        stack_items(*final(stack)) == stack_items(*old(stack)).push(record@),
{
    stack.push(record)
}

/// `TreiberStack::try_pop`: takes the top of the stack, the record pushed
/// last, or answers `None` where the stack is empty.
#[verifier::external_body]
fn stack_try_pop(stack: &mut TreiberStack<PanicPayload>) -> (top: Option<PanicPayload>)
    ensures
        stack_items(*old(stack)).len() == 0 ==> top is None && stack_items(*final(stack))
            == stack_items(*old(stack)),
        stack_items(*old(stack)).len() > 0 ==> top is Some && top->0@ == stack_items(
            *old(stack),
        ).last() && stack_items(*final(stack)) == stack_items(*old(stack)).drop_last(),
{
    stack.try_pop()
}

/// The panics that wait for the host, the latest on top.
pub struct PanicQueue {
    stack: TreiberStack<PanicPayload>,
}

impl View for PanicQueue {
    type V = Seq<PanicPayloadView>;

    closed spec fn view(&self) -> Seq<PanicPayloadView> {
        stack_items(self.stack)
    }
}

impl PanicQueue {
    /// A queue with no record.
    pub fn new() -> (queue: PanicQueue)
        ensures
            queue@ == Seq::<PanicPayloadView>::empty(),
    {
        PanicQueue { stack: stack_new() }
    }

    /// Records a panic.
    pub fn panic_hook(&mut self, payload: Payload, location: Option<PanicLocation>)
        ensures
            final(self)@ == old(self)@.push(record_of(payload, location)),
    {
        let record: PanicPayload = PanicPayload::new(payload, location);
        stack_push(&mut self.stack, record);
    }

    /// Hands the latest record to the host, laid out for it, or answers
    /// `None` where no record waits.
    pub fn rust_panic_pop(&mut self) -> (panic: Option<sys::Panic>)
        ensures
            old(self)@.len() == 0 ==> panic is None && final(self)@ == old(self)@,
            old(self)@.len() > 0 ==> panic is Some && panic->0@ == record_to_raw(old(self)@.last())
                && final(self)@ == old(self)@.drop_last(),
    {
        match stack_try_pop(&mut self.stack) {
            Some(next) => Some(next.into_ffi()),
            None => None,
        }
    }
}

/// Ends a call that the host made: `caught` is what came of running it,
/// `Err` where it panicked. The result is stored through `out` and the
/// answer is `true`, or `out` is left alone and the answer is `false`.
pub fn ffi_unwind<R, E>(out: &mut R, caught: Result<R, E>) -> (ok: bool)
    ensures
        ok == (caught is Ok),
        caught matches Ok(res) ==> *final(out) == res,
        caught is Err ==> *final(out) == *old(out),
{
    match caught {
        Ok(res) => {
            *out = res;
            true
        },
        Err(_) => false,
    }
}

/// Ends a call that the library made into the host: `ok` is the host's
/// answer and `value` what it stored. Where the host reports a failure the
/// caller has to raise the error.
pub fn call_ffi_maybe_panic<R>(ok: bool, value: R) -> (r: Result<R, CppError>)
    ensures
        r == (if ok { Ok::<R, CppError>(value) } else { Err::<R, CppError>(CppError) }),
{
    if ok {
        Ok(value)
    } else {
        Err(CppError)
    }
}

/// A call that panicked leaves one record behind: on a queue that was empty,
/// the host reads that record, with the panic's message, and then nothing.
pub proof fn lemma_one_panic_one_record(payload: Payload, location: Option<PanicLocation>)
    ensures
        ({
            let queue = Seq::<PanicPayloadView>::empty().push(record_of(payload, location));
            &&& queue.len() == 1
            &&& record_to_raw(queue.last()).message == encode_utf8(payload_text(payload))
            &&& record_to_raw(queue.last()).is_exception == (payload is Exception)
            &&& queue.drop_last().len() == 0
        }),
{
}

} // verus!
