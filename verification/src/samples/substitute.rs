//! Replacing one byte string by another throughout a buffer.
use vstd::prelude::*;
use crate::common::area::Area;
use crate::common::bytes::append_range;

verus! {

/// Does `v` stand in `s` at index `i`?
pub open spec fn occurs_at(s: Seq<u8>, v: Seq<u8>, i: int) -> bool {
    0 <= i && i + v.len() <= s.len() && s.subrange(i, i + v.len()) == v
}

/// Does `v` stand in `s` anywhere?
pub open spec fn contains(s: Seq<u8>, v: Seq<u8>) -> bool {
    exists|i: int| occurs_at(s, v, i)
}

/// The first index from `i` on at which `v` stands in `s`.
pub open spec fn find_from(s: Seq<u8>, v: Seq<u8>, i: int) -> Option<int>
    decreases s.len() - i,
{
    if i < 0 || i + v.len() > s.len() {
        None
    } else if occurs_at(s, v, i) {
        Some(i)
    } else if i >= s.len() {
        None
    } else {
        find_from(s, v, i + 1)
    }
}

/// The first index at which `v` stands in `s`.
pub open spec fn first_match(s: Seq<u8>, v: Seq<u8>) -> Option<int> {
    find_from(s, v, 0)
}

/// `lead` followed by `rest`, with `v` replaced by `r` from left to right.
/// Each search begins where the last replacement began, so that a `v` that
/// a replacement completes is replaced too. `lead` is text in which `v`
/// does not stand: nothing at first, and `r` after a replacement.
pub open spec fn replace_in(lead: Seq<u8>, rest: Seq<u8>, v: Seq<u8>, r: Seq<u8>) -> Seq<u8>
    decreases rest.len(),
    when v.len() > 0 && !contains(lead, v) && !contains(r, v)
    via replace_in_decreases
{
    let w = lead + rest;
    match first_match(w, v) {
        None => w,
        Some(j) => w.subrange(0, j) + replace_in(r, w.subrange(j + v.len(), w.len() as int), v, r),
    }
}

/// `content` with `v` replaced by `r` throughout.
pub open spec fn substituted(content: Seq<u8>, v: Seq<u8>, r: Seq<u8>) -> Seq<u8> {
    replace_in(Seq::empty(), content, v, r)
}

/// What `find_from` finds is the first place from `i` on.
pub proof fn lemma_find_from(s: Seq<u8>, v: Seq<u8>, i: int)
    requires
        0 <= i,
    ensures
        match find_from(s, v, i) {
            Some(j) => i <= j && occurs_at(s, v, j) && forall|k: int|
                i <= k < j ==> !occurs_at(s, v, k),
            None => forall|k: int| i <= k ==> !occurs_at(s, v, k),
        },
    decreases s.len() - i,
{
    if i + v.len() > s.len() {
    } else if occurs_at(s, v, i) {
    } else if i >= s.len() {
        assert(s.subrange(i, i + v.len()) == v);
    } else {
        lemma_find_from(s, v, i + 1);
    }
}

/// A place at which `v` stands in `lead + rest` reaches into `rest`, where
/// `v` does not stand in `lead`.
pub proof fn lemma_match_reaches_rest(lead: Seq<u8>, rest: Seq<u8>, v: Seq<u8>, j: int)
    requires
        !contains(lead, v),
        occurs_at(lead + rest, v, j),
    ensures
        j + v.len() > lead.len(),
{
    if j + v.len() <= lead.len() {
        assert((lead + rest).subrange(j, j + v.len()) == lead.subrange(j, j + v.len()));
        assert(occurs_at(lead, v, j));
    }
}

#[via_fn]
proof fn replace_in_decreases(lead: Seq<u8>, rest: Seq<u8>, v: Seq<u8>, r: Seq<u8>) {
    let w = lead + rest;
    match first_match(w, v) {
        None => {},
        Some(j) => {
            lemma_find_from(w, v, 0);
            lemma_match_reaches_rest(lead, rest, v, j);
        },
    }
}

/// Where `v` does not stand in `content`, nothing is replaced.
pub proof fn lemma_substituted_without_match(content: Seq<u8>, v: Seq<u8>, r: Seq<u8>)
    requires
        v.len() > 0,
        !contains(r, v),
        !contains(content, v),
    ensures
        substituted(content, v, r) == content,
{
    let lead = Seq::<u8>::empty();
    assert(lead + content == content);
    assert(!contains(lead, v)) by {
        assert forall|i: int| !occurs_at(lead, v, i) by {}
    }
    lemma_find_from(content, v, 0);
    match first_match(content, v) {
        None => {},
        Some(j) => {
            assert(occurs_at(content, v, j));
        },
    }
}

/// Does `victim` stand in `content` at `at`?
fn matches_at(content: &[u8], at: usize, victim: &[u8]) -> (r: bool)
    requires
        at + victim@.len() <= content@.len(),
    ensures
        r == occurs_at(content@, victim@, at as int),
{
    let n: usize = content.len();
    let mut k: usize = 0;
    while k < victim.len()
        invariant
            n == content@.len(),
            at + victim@.len() <= content@.len(),
            k <= victim@.len(),
            content@.subrange(at as int, at + k) == victim@.subrange(0, k as int),
        decreases victim.len() - k,
    {
        if content[at + k] != victim[k] {
            assert(content@.subrange(at as int, at + victim@.len())[k as int] != victim@[k as int]);
            return false;
        }
        assert(content@.subrange(at as int, at + k + 1) == content@.subrange(
            at as int,
            at + k,
        ).push(content@[at + k]));
        assert(victim@.subrange(0, k + 1) == victim@.subrange(0, k as int).push(victim@[k as int]));
        k += 1;
    }
    assert(victim@.subrange(0, victim@.len() as int) == victim@);
    true
}

/// Does `victim` stand anywhere in `content`?
pub fn contains_bytes(content: &[u8], victim: &[u8]) -> (r: bool)
    requires
        victim@.len() > 0,
    ensures
        r == contains(content@, victim@),
{
    proof {
        lemma_find_from(content@, victim@, 0);
        assert(content@.subrange(0, content@.len() as int) == content@);
    }
    match find(content, 0, victim) {
        Some(_) => true,
        None => false,
    }
}

/// The first place from `from` on at which `victim` stands in `content`,
/// counted from `from`.
pub fn find(content: &[u8], from: usize, victim: &[u8]) -> (r: Option<usize>)
    requires
        from <= content@.len(),
        victim@.len() > 0,
    ensures
        match r {
            Some(idx) => first_match(
                content@.subrange(from as int, content@.len() as int),
                victim@,
            ) == Some(idx as int) && from + idx + victim@.len() <= content@.len(),
            None => first_match(content@.subrange(from as int, content@.len() as int), victim@)
                is None,
        },
{
    let ghost sub = content@.subrange(from as int, content@.len() as int);
    let mut i: usize = from;
    while content.len() - i >= victim.len()
        invariant
            victim@.len() > 0,
            from <= i <= content@.len(),
            sub == content@.subrange(from as int, content@.len() as int),
            first_match(sub, victim@) == find_from(sub, victim@, i - from),
        decreases content@.len() - i,
    {
        let hit: bool = matches_at(content, i, victim);
        proof {
            assert(sub.subrange(i - from, i - from + victim@.len()) == content@.subrange(
                i as int,
                i + victim@.len(),
            ));
        }
        if hit {
            return Some(i - from);
        }
        i += 1;
    }
    None
}

/// `content` with the `len` bytes at `at` replaced by `r`.
pub fn splice(content: &[u8], at: usize, len: usize, r: &[u8]) -> (out: Vec<u8>)
    requires
        at + len <= content@.len(),
    ensures
        out@ == content@.subrange(0, at as int) + r@ + content@.subrange(
            at + len,
            content@.len() as int,
        ),
{
    let n: usize = content.len();
    let mut out: Vec<u8> = Vec::new();
    append_range(&mut out, content, 0, at);
    append_range(&mut out, r, 0, r.len());
    append_range(&mut out, content, at + len, n);
    assert(r@.subrange(0, r@.len() as int) == r@);
    assert(Seq::<u8>::empty() + content@.subrange(0, at as int) == content@.subrange(0, at as int));
    out
}

/// Replaces `victim` by `replacement` throughout `content`.
pub fn substitute(content: &mut Vec<u8>, victim: &[u8], replacement: &[u8])
    requires
        victim@.len() > 0,
        !contains(replacement@, victim@),
    ensures
        final(content)@ == substituted(old(content)@, victim@, replacement@),
{
    let mut pos: usize = 0;
    let ghost mut lead: Seq<u8> = Seq::empty();
    proof {
        assert(content@.subrange(0, 0) + replace_in(
            lead,
            content@.subrange(0, content@.len() as int),
            victim@,
            replacement@,
        ) == substituted(old(content)@, victim@, replacement@)) by {
            assert(content@.subrange(0, content@.len() as int) == content@);
            assert(content@.subrange(0, 0) + replace_in(lead, content@, victim@, replacement@)
                == replace_in(lead, content@, victim@, replacement@));
        }
        assert(!contains(lead, victim@)) by {
            assert forall|i: int| !occurs_at(lead, victim@, i) by {}
        }
    }
    loop
        invariant_except_break
            pos + lead.len() <= content@.len(),
            content@.subrange(pos as int, pos + lead.len()) == lead,
            content@.subrange(0, pos as int) + replace_in(
                lead,
                content@.subrange(pos + lead.len(), content@.len() as int),
                victim@,
                replacement@,
            ) == substituted(old(content)@, victim@, replacement@),
        invariant
            victim@.len() > 0,
            !contains(lead, victim@),
            !contains(replacement@, victim@),
        ensures
            content@ == substituted(old(content)@, victim@, replacement@),
        decreases content@.len() - pos - lead.len(),
    {
        let ghost before = content@;
        let ghost rest = before.subrange(pos + lead.len(), before.len() as int);
        let ghost w = before.subrange(pos as int, before.len() as int);
        proof {
            assert(w == lead + rest);
            lemma_find_from(w, victim@, 0);
        }
        let n: usize = content.len();
        match find(content.as_slice(), pos, victim) {
            Some(idx) => {
                proof {
                    lemma_match_reaches_rest(lead, rest, victim@, idx as int);
                }
                let next: Vec<u8> = splice(content.as_slice(), pos + idx, victim.len(), replacement);
                *content = next;
                pos = pos + idx;
                proof {
                    let tail = w.subrange(idx + victim@.len(), w.len() as int);
                    assert(content@.subrange(pos as int, pos + replacement@.len())
                        == replacement@);
                    assert(content@.subrange(pos + replacement@.len(), content@.len() as int)
                        == tail);
                    assert(content@.subrange(0, pos as int) == before.subrange(
                        0,
                        pos - idx,
                    ) + w.subrange(0, idx as int));
                    assert(before.subrange(0, pos - idx) + (w.subrange(0, idx as int) + replace_in(
                        replacement@,
                        tail,
                        victim@,
                        replacement@,
                    )) == (before.subrange(0, pos - idx) + w.subrange(0, idx as int)) + replace_in(
                        replacement@,
                        tail,
                        victim@,
                        replacement@,
                    ));
                    lead = replacement@;
                }
            },
            None => {
                proof {
                    assert(before.subrange(0, pos as int) + w == before);
                }
                break ;
            },
        }
    }
}

/// A victim and its replacement, fit for replacing: the victim is not empty
/// and does not stand in the replacement. This holds of every value of the
/// type, and `victim_bytes` and `replacement_bytes` say so.
pub struct Substitution {
    victim: Area,
    replacement: Area,
}

impl Substitution {
    #[verifier::type_invariant]
    closed spec fn wf(self) -> bool {
        self.victim@.len() > 0 && !contains(self.replacement@, self.victim@)
    }

    /// The byte string that is replaced.
    pub closed spec fn victim(&self) -> Seq<u8> {
        self.victim@
    }

    /// The byte string that is put in its place.
    pub closed spec fn replacement(&self) -> Seq<u8> {
        self.replacement@
    }

    pub fn new(victim: Area, replacement: Area) -> (r: Substitution)
        requires
            victim@.len() > 0,
            !contains(replacement@, victim@),
        ensures
            r.victim() == victim@,
            r.replacement() == replacement@,
    {
        Substitution { victim, replacement }
    }

    /// The byte string that is replaced. It is not empty.
    pub fn victim_bytes(&self) -> (r: &[u8])
        ensures
            r@ == self.victim(),
            r@.len() > 0,
    {
        proof {
            use_type_invariant(self);
        }
        self.victim.as_bytes()
    }

    /// The byte string that is put in its place. The victim does not stand
    /// in it.
    pub fn replacement_bytes(&self) -> (r: &[u8])
        ensures
            r@ == self.replacement(),
            !contains(r@, self.victim()),
    {
        proof {
            use_type_invariant(self);
        }
        self.replacement.as_bytes()
    }

    /// Replaces the victim by the replacement throughout `content`.
    pub fn apply(&self, content: &mut Vec<u8>)
        ensures
            final(content)@ == substituted(old(content)@, self.victim(), self.replacement()),
    {
        proof {
            use_type_invariant(self);
        }
        substitute(content, self.victim.as_bytes(), self.replacement.as_bytes());
    }
}

} // verus!
