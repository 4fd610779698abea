//! Byte buffers that are shared, not copied.
use vstd::prelude::*;
use std::rc::Rc;
use crate::common::bytes::to_vec;

verus! {

/// `Rc::clone`: another pointer to the same allocation, which holds the
/// same value.
#[verifier::external_body]
fn share(data: &Rc<Vec<u8>>) -> (r: Rc<Vec<u8>>)
    ensures
        r == *data,
{
    data.clone()
}

/// A continuous, fixed buffer of bytes that can be copied without copying
/// the bytes.
///
/// Within the library the handles of one buffer are counted by `Rc`. A
/// buffer that comes from elsewhere comes as counted storage, through
/// [`Details`]: the area takes its content and gives its handle up.
#[derive(Debug)]
pub struct Area {
    data: Rc<Vec<u8>>,
}

impl View for Area {
    type V = Seq<u8>;

    closed spec fn view(&self) -> Seq<u8> {
        (*self.data)@
    }
}

impl Area {
    /// An area over the buffer that `value` hands over.
    pub fn new<T: DetailsConstructor>(value: T) -> (area: Area)
        ensures
            area@ == value.contents(),
    {
        // The area takes the content over and gives up the one handle of
        // the storage, which goes with it.
        let mut details: DetailsStack = value.details();
        let bytes: Vec<u8> = to_vec(details.as_bytes());
        details.decrement();
        Area { data: Rc::new(bytes) }
    }

    /// An area with a copy of `v`.
    pub fn from_bytes(v: &[u8]) -> (area: Area)
        ensures
            area@ == v@,
    {
        Area { data: Rc::new(to_vec(v)) }
    }

    pub fn as_bytes(&self) -> (r: &[u8])
        ensures
            r@ == self@,
    {
        self.data.as_slice()
    }

    pub fn len(&self) -> (n: usize)
        ensures
            n == self@.len(),
    {
        self.data.len()
    }

    /// The area, unless it is empty. Hosts give an empty area where they
    /// have no value.
    pub fn non_empty(self) -> (r: Option<Area>)
        ensures
            r == (if self@.len() == 0 {
                None
            } else {
                Some(self)
            }),
    {
        if self.len() == 0 {
            None
        } else {
            Some(self)
        }
    }
}

impl Clone for Area {
    /// Another handle of the same buffer.
    fn clone(&self) -> (area: Area)
        ensures
            area@ == self@,
    {
        Area { data: share(&self.data) }
    }
}

/// Conversion of a buffer into counted storage.
pub trait DetailsConstructor {
    /// The bytes that the storage will hold.
    spec fn contents(&self) -> Seq<u8>;

    /// Makes the storage, held by one handle.
    fn details(self) -> (d: DetailsStack)
        ensures
            d.bytes() == self.contents(),
            d.strong() == 1,
    ;
}

/// Counted storage: the content of an area, and the number of handles that
/// hold it.
///
/// The storage lives as long as it is held. Whoever takes a handle
/// increments, whoever gives one up decrements, and the decrement that
/// brings the count to zero releases the buffer.
pub trait Details {
    /// The buffer, while the storage is held.
    spec fn bytes(&self) -> Seq<u8>;

    /// The number of handles.
    spec fn strong(&self) -> nat;

    /// The underlying buffer.
    fn as_bytes(&self) -> (r: &[u8])
        requires
            self.strong() > 0,
        ensures
            r@ == self.bytes(),
    ;

    /// Counts one more handle.
    fn increment(&mut self)
        requires
            0 < old(self).strong() < usize::MAX,
        ensures
            final(self).strong() == old(self).strong() + 1,
            Some(final(self).strong()) == handles_after(old(self).strong(), seq![HandleOp::Clone]),
            final(self).bytes() == old(self).bytes(),
    ;

    /// Counts one handle less. With the last handle the buffer goes.
    fn decrement(&mut self)
        requires
            old(self).strong() > 0,
        ensures
            final(self).strong() == old(self).strong() - 1,
            Some(final(self).strong()) == handles_after(old(self).strong(), seq![HandleOp::Drop]),
            final(self).strong() > 0 ==> final(self).bytes() == old(self).bytes(),
    ;
}

/// Counted storage without its type. Every [`Details`] is one.
pub trait Backing {
    /// The buffer, while the storage is held.
    spec fn backing_bytes(&self) -> Seq<u8>;

    /// The number of handles.
    spec fn backing_strong(&self) -> nat;

    fn read(&self) -> (r: &[u8])
        requires
            self.backing_strong() > 0,
        ensures
            r@ == self.backing_bytes(),
    ;

    fn count_up(&mut self)
        requires
            0 < old(self).backing_strong() < usize::MAX,
        ensures
            final(self).backing_strong() == old(self).backing_strong() + 1,
            final(self).backing_bytes() == old(self).backing_bytes(),
    ;

    fn count_down(&mut self)
        requires
            old(self).backing_strong() > 0,
        ensures
            final(self).backing_strong() == old(self).backing_strong() - 1,
            final(self).backing_strong() > 0 ==> final(self).backing_bytes() == old(self).backing_bytes(),
    ;
}

impl<T: Details> Backing for T {
    open spec fn backing_bytes(&self) -> Seq<u8> {
        self.bytes()
    }

    open spec fn backing_strong(&self) -> nat {
        self.strong()
    }

    fn read(&self) -> (r: &[u8]) {
        self.as_bytes()
    }

    fn count_up(&mut self) {
        self.increment();
    }

    fn count_down(&mut self) {
        self.decrement();
    }
}

/// Counted storage of any kind behind one face: what is asked of it goes
/// on to the storage that it was made from.
pub struct DetailsStack {
    inner: Box<dyn Backing>,
}

impl DetailsStack {
    /// Has the buffer been released?
    pub open spec fn released(&self) -> bool {
        self.strong() == 0
    }

    /// Puts the storage `v` behind the common face. The result is `v`:
    /// it has the bytes and the handles of `v`, and every read, increment
    /// and decrement of it is one of `v`.
    pub fn from<T: Details + 'static>(v: T) -> (d: DetailsStack)
        ensures
            d.bytes() == v.bytes(),
            d.strong() == v.strong(),
    {
        let inner: Box<dyn Backing> = Box::new(v);
        DetailsStack { inner }
    }
}

impl Details for DetailsStack {
    closed spec fn bytes(&self) -> Seq<u8> {
        self.inner.backing_bytes()
    }

    closed spec fn strong(&self) -> nat {
        self.inner.backing_strong()
    }

    fn as_bytes(&self) -> (r: &[u8]) {
        self.inner.read()
    }

    fn increment(&mut self) {
        proof {
            lemma_one_step(self.strong(), HandleOp::Clone);
        }
        self.inner.count_up();
    }

    fn decrement(&mut self) {
        proof {
            lemma_one_step(self.strong(), HandleOp::Drop);
        }
        self.inner.count_down();
    }
}

/// Counted storage that holds its buffer in place and releases it with the
/// last handle.
pub struct CountedBytes {
    buffer: Vec<u8>,
    strong: usize,
}

impl CountedBytes {
    /// Storage for `bytes`, held by one handle.
    pub fn new(bytes: Vec<u8>) -> (c: CountedBytes)
        ensures
            c.bytes() == bytes@,
            c.strong() == 1,
    {
        CountedBytes { buffer: bytes, strong: 1 }
    }

    /// The number of handles.
    pub fn count(&self) -> (n: usize)
        ensures
            n == self.strong(),
    {
        self.strong
    }

    /// Has the buffer been released?
    pub fn is_released(&self) -> (r: bool)
        ensures
            r == (self.strong() == 0),
    {
        self.strong == 0
    }
}

impl Details for CountedBytes {
    closed spec fn bytes(&self) -> Seq<u8> {
        self.buffer@
    }

    closed spec fn strong(&self) -> nat {
        self.strong as nat
    }

    fn as_bytes(&self) -> (r: &[u8]) {
        self.buffer.as_slice()
    }

    fn increment(&mut self) {
        proof {
            lemma_one_step(self.strong as nat, HandleOp::Clone);
        }
        self.strong = self.strong + 1;
    }

    fn decrement(&mut self)
        ensures
            final(self).strong() == 0 ==> final(self).bytes() == Seq::<u8>::empty(),
    {
        proof {
            lemma_one_step(self.strong as nat, HandleOp::Drop);
        }
        self.strong = self.strong - 1;
        if self.strong == 0 {
            self.buffer = Vec::new();
        }
    }
}

impl DetailsConstructor for Vec<u8> {
    open spec fn contents(&self) -> Seq<u8> {
        self@
    }

    fn details(self) -> (d: DetailsStack) {
        DetailsStack::from(CountedBytes::new(self))
    }
}

impl DetailsConstructor for Area {
    open spec fn contents(&self) -> Seq<u8> {
        self@
    }

    fn details(self) -> (d: DetailsStack) {
        DetailsStack::from(CountedBytes::new(to_vec(self.as_bytes())))
    }
}

/// What a holder does with a handle of counted storage.
pub enum HandleOp {
    /// Makes one more handle.
    Clone,
    /// Gives one handle up.
    Drop,
}

/// The number of handles after `ops`, done in order on storage that `start`
/// handles hold; `None` where an operation comes when no handle is left,
/// which no holder can do.
pub open spec fn handles_after(start: nat, ops: Seq<HandleOp>) -> Option<nat>
    decreases ops.len(),
{
    if ops.len() == 0 {
        Some(start)
    } else {
        match handles_after(start, ops.drop_last()) {
            Some(n) => if n == 0 {
                None
            } else {
                match ops.last() {
                    HandleOp::Clone => Some(n + 1),
                    HandleOp::Drop => Some((n - 1) as nat),
                }
            },
            None => None,
        }
    }
}

/// One operation on storage that is held counts one handle up or down.
pub proof fn lemma_one_step(start: nat, op: HandleOp)
    requires
        start > 0,
    ensures
        handles_after(start, seq![op]) == Some(
            match op {
                HandleOp::Clone => start + 1,
                HandleOp::Drop => (start - 1) as nat,
            },
        ),
{
    let ops = seq![op];
    assert(ops.drop_last() =~= Seq::<HandleOp>::empty());
    assert(handles_after(start, ops.drop_last()) == Some(start));
}

/// How often a clone occurs in `ops`, or how often a drop.
pub open spec fn count_op(ops: Seq<HandleOp>, clone: bool) -> nat
    decreases ops.len(),
{
    if ops.len() == 0 {
        0
    } else {
        count_op(ops.drop_last(), clone) + if (ops.last() is Clone) == clone {
            1nat
        } else {
            0nat
        }
    }
}

/// Through any run of clones and drops the count is the number of handles
/// that are left: the first one, and one for each clone, less the drops.
pub proof fn lemma_count_is_live_handles(ops: Seq<HandleOp>)
    requires
        handles_after(1, ops) is Some,
    ensures
        handles_after(1, ops)->0 + count_op(ops, false) == 1 + count_op(ops, true),
    decreases ops.len(),
{
    if ops.len() > 0 {
        lemma_count_is_live_handles(ops.drop_last());
    }
}

/// The buffer is released once, by the drop of the last handle, and not
/// before: in a run of clones and drops every step but the last leaves a
/// handle, so the storage is released at the end of the run or not at all.
pub proof fn lemma_released_once_at_the_end(ops: Seq<HandleOp>, k: int)
    requires
        handles_after(1, ops) is Some,
        0 <= k < ops.len(),
    ensures
        handles_after(1, ops.subrange(0, k)) is Some,
        handles_after(1, ops.subrange(0, k))->0 > 0,
    decreases ops.len(),
{
    let front = ops.drop_last();
    if k == ops.len() - 1 {
        assert(ops.subrange(0, k) == front);
    } else {
        assert(front.subrange(0, k) == ops.subrange(0, k));
        lemma_released_once_at_the_end(front, k);
    }
}

/// After `n` clones and `n` drops one handle is left and the buffer is
/// still there; the next drop releases it.
pub proof fn lemma_last_drop_releases(ops: Seq<HandleOp>)
    requires
        handles_after(1, ops) is Some,
        count_op(ops, true) == count_op(ops, false),
    ensures
        handles_after(1, ops) == Some(1nat),
        handles_after(1, ops.push(HandleOp::Drop)) == Some(0nat),
        handles_after(1, ops.push(HandleOp::Drop).push(HandleOp::Drop)) is None,
        handles_after(1, ops.push(HandleOp::Drop).push(HandleOp::Clone)) is None,
{
    lemma_count_is_live_handles(ops);
    let once = ops.push(HandleOp::Drop);
    assert(once.drop_last() == ops);
    assert(once.push(HandleOp::Drop).drop_last() == once);
    assert(once.push(HandleOp::Clone).drop_last() == once);
}

} // verus!
