//! The host name that a certificate is matched against.
//!
//! A literal address stands in a target between square brackets; the name to
//! match has none. The brackets are taken off both ends of the host.

use vstd::prelude::*;
use vstd::string::StrSliceExecFns;

verus! {

/// Whether a character is one of the two square brackets.
pub open spec fn is_bracket(c: char) -> bool {
    c == '[' || c == ']'
}

/// `s` without the brackets that it starts with.
pub open spec fn strip_leading(s: Seq<char>) -> Seq<char>
    decreases s.len(),
{
    if s.len() > 0 && is_bracket(s.first()) {
        strip_leading(s.drop_first())
    } else {
        s
    }
}

/// `s` without the brackets that it ends with.
pub open spec fn strip_trailing(s: Seq<char>) -> Seq<char>
    decreases s.len(),
{
    if s.len() > 0 && is_bracket(s.last()) {
        strip_trailing(s.drop_last())
    } else {
        s
    }
}

/// `s` without the brackets at either end. Brackets inside stay.
pub open spec fn strip_brackets(s: Seq<char>) -> Seq<char> {
    strip_trailing(strip_leading(s))
}

fn bracket(c: char) -> (b: bool)
    ensures
        b == is_bracket(c),
{
    c == '[' || c == ']'
}

/// Takes the square brackets off both ends of a host.
pub fn trim_brackets(host: &str) -> (name: &str)
    ensures
        name@ == strip_brackets(host@),
{
    let len = host.unicode_len();
    let mut start: usize = 0;
    assert(host@.subrange(0, len as int) =~= host@);
    while start < len && bracket(host.get_char(start))
        invariant
            len == host@.len(),
            start <= len,
            strip_leading(host@) == strip_leading(host@.subrange(start as int, len as int)),
        decreases len - start,
    {
        assert(host@.subrange(start as int, len as int).drop_first() =~= host@.subrange(
            start + 1,
            len as int,
        ));
        start = start + 1;
    }
    let ghost head = host@.subrange(start as int, len as int);
    assert(strip_leading(host@) == head);
    let mut end: usize = len;
    while end > start && bracket(host.get_char(end - 1))
        invariant
            len == host@.len(),
            start <= end <= len,
            head == host@.subrange(start as int, len as int),
            strip_trailing(head) == strip_trailing(host@.subrange(start as int, end as int)),
        decreases end - start,
    {
        assert(host@.subrange(start as int, end as int).drop_last() =~= host@.subrange(
            start as int,
            end - 1,
        ));
        end = end - 1;
    }
    host.substring_char(start, end)
}

/// What stripping leaves has no bracket at either end, and it is a stretch
/// of the host with nothing but brackets before and after it.
pub proof fn lemma_strip_brackets(s: Seq<char>)
    ensures
        strip_brackets(s).len() > 0 ==> !is_bracket(strip_brackets(s).first()) && !is_bracket(
            strip_brackets(s).last(),
        ),
        exists|from: int, to: int|
            0 <= from <= to <= s.len() && strip_brackets(s) == s.subrange(from, to) && (forall|
                i: int,
            |
                0 <= i < from || to <= i < s.len() ==> is_bracket(#[trigger] s[i])),
{
    lemma_strip_leading(s);
    let from = choose|from: int|
        0 <= from <= s.len() && strip_leading(s) == s.subrange(from, s.len() as int) && (forall|
            i: int,
        |
            0 <= i < from ==> is_bracket(#[trigger] s[i]));
    let head = strip_leading(s);
    lemma_strip_trailing(head);
    let cut = choose|cut: int|
        0 <= cut <= head.len() && strip_trailing(head) == head.subrange(0, cut) && (forall|i: int|
            cut <= i < head.len() ==> is_bracket(#[trigger] head[i]));
    let to = from + cut;
    assert(strip_brackets(s) =~= s.subrange(from, to));
    assert forall|i: int| 0 <= i < from || to <= i < s.len() implies is_bracket(
        #[trigger] s[i],
    ) by {
        if to <= i {
            assert(s[i] == head[i - from]);
        }
    }
    if strip_brackets(s).len() > 0 {
        assert(strip_brackets(s).first() == head.first());
    }
}

/// Stripping at the front takes a run of brackets off the front, and what
/// is left does not start with one.
proof fn lemma_strip_leading(s: Seq<char>)
    ensures
        strip_leading(s).len() > 0 ==> !is_bracket(strip_leading(s).first()),
        exists|from: int|
            0 <= from <= s.len() && strip_leading(s) == s.subrange(from, s.len() as int) && (forall|
                i: int,
            |
                0 <= i < from ==> is_bracket(#[trigger] s[i])),
    decreases s.len(),
{
    if s.len() > 0 && is_bracket(s.first()) {
        let tail = s.drop_first();
        lemma_strip_leading(tail);
        let from = choose|from: int|
            0 <= from <= tail.len() && strip_leading(tail) == tail.subrange(
                from,
                tail.len() as int,
            ) && (forall|i: int| 0 <= i < from ==> is_bracket(#[trigger] tail[i]));
        assert(tail.subrange(from, tail.len() as int) =~= s.subrange(from + 1, s.len() as int));
        assert forall|i: int| 0 <= i < from + 1 implies is_bracket(#[trigger] s[i]) by {
            if i > 0 {
                assert(s[i] == tail[i - 1]);
            }
        }
    } else {
        assert(s.subrange(0, s.len() as int) =~= s);
    }
}

/// Stripping at the back takes a run of brackets off the back, what is left
/// does not end with one, and its front is untouched.
proof fn lemma_strip_trailing(s: Seq<char>)
    ensures
        strip_trailing(s).len() > 0 ==> !is_bracket(strip_trailing(s).last()) && strip_trailing(
            s,
        ).first() == s.first(),
        exists|cut: int|
            0 <= cut <= s.len() && strip_trailing(s) == s.subrange(0, cut) && (forall|i: int|
                cut <= i < s.len() ==> is_bracket(#[trigger] s[i])),
    decreases s.len(),
{
    if s.len() > 0 && is_bracket(s.last()) {
        let front = s.drop_last();
        lemma_strip_trailing(front);
        let cut = choose|cut: int|
            0 <= cut <= front.len() && strip_trailing(front) == front.subrange(0, cut) && (forall|
                i: int,
            |
                cut <= i < front.len() ==> is_bracket(#[trigger] front[i]));
        assert(front.subrange(0, cut) =~= s.subrange(0, cut));
        assert forall|i: int| cut <= i < s.len() implies is_bracket(#[trigger] s[i]) by {
            if i < front.len() {
                assert(s[i] == front[i]);
            }
        }
    } else {
        assert(s.subrange(0, s.len() as int) =~= s);
    }
}

} // verus!
