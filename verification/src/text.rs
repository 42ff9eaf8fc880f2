//! Character-level helpers on strings.

use vstd::prelude::*;

verus! {

/// `s` ends with the characters of `suffix`.
pub open spec fn ends_with(s: Seq<char>, suffix: Seq<char>) -> bool {
    suffix.len() <= s.len() && s.subrange(s.len() - suffix.len(), s.len() as int) == suffix
}

/// No character of `s` is `sep`.
pub open spec fn free_of(s: Seq<char>, sep: char) -> bool {
    forall|i: int| 0 <= i < s.len() ==> s[i] != sep
}

/// The characters after the last `sep` in `s`; all of `s` where it holds no
/// `sep`.
pub open spec fn after_last(s: Seq<char>, sep: char) -> Seq<char>
    decreases s.len(),
{
    if s.len() == 0 {
        s
    } else if s.last() == sep {
        Seq::<char>::empty()
    } else {
        after_last(s.drop_last(), sep).push(s.last())
    }
}

/// A text without the separator is its own last segment.
pub proof fn lemma_after_last_whole(s: Seq<char>, sep: char)
    requires
        free_of(s, sep),
    ensures
        after_last(s, sep) == s,
    decreases s.len(),
{
    if s.len() > 0 {
        lemma_after_last_whole(s.drop_last(), sep);
        assert(s.drop_last().push(s.last()) =~= s);
    }
}

/// Where the last separator stands at `at`, the last segment is what follows
/// it.
pub proof fn lemma_after_last_at(s: Seq<char>, sep: char, at: int)
    requires
        0 <= at < s.len(),
        s[at] == sep,
        forall|j: int| at < j < s.len() ==> s[j] != sep,
    ensures
        after_last(s, sep) == s.subrange(at + 1, s.len() as int),
    decreases s.len(),
{
    if s.last() == sep {
        assert(at == s.len() - 1);
        assert(s.subrange(at + 1, s.len() as int) =~= Seq::<char>::empty());
    } else {
        let front = s.drop_last();
        lemma_after_last_at(front, sep, at);
        assert(front.subrange(at + 1, front.len() as int).push(s.last()) =~= s.subrange(
            at + 1,
            s.len() as int,
        ));
    }
}

/// Last-separator law: whatever separators `head` holds, the last segment of
/// `head`, a separator and a `tail` without separators is `tail`.
pub proof fn lemma_after_last_of_join(head: Seq<char>, sep: char, tail: Seq<char>)
    requires
        free_of(tail, sep),
    ensures
        after_last(head + seq![sep] + tail, sep) == tail,
{
    let joined = head + seq![sep] + tail;
    lemma_after_last_at(joined, sep, head.len() as int);
    assert(joined.subrange(head.len() as int + 1, joined.len() as int) =~= tail);
}

/// The last segment of a text never holds the separator and always ends
/// the text.
pub proof fn lemma_after_last_is_suffix(s: Seq<char>, sep: char)
    ensures
        free_of(after_last(s, sep), sep),
        ends_with(s, after_last(s, sep)),
    decreases s.len(),
{
    if s.len() == 0 {
        assert(s.subrange(0, 0) =~= s);
    } else if s.last() == sep {
        assert(s.subrange(s.len() as int, s.len() as int) =~= Seq::<char>::empty());
    } else {
        let front = s.drop_last();
        lemma_after_last_is_suffix(front, sep);
        let inner = after_last(front, sep);
        assert(front.subrange(front.len() - inner.len(), front.len() as int).push(s.last())
            =~= s.subrange(s.len() - inner.len() - 1, s.len() as int));
    }
}

/// The characters of a string, in order.
pub fn characters(s: &str) -> (r: Vec<char>)
    ensures
        r@ == s@,
{
    let mut r: Vec<char> = Vec::new();
    for c in it: s.chars()
        invariant
            it.seq() == s@,
            r@ == s@.take(it.index()),
    {
        r.push(c);
        proof {
            assert(s@.take(it.index() + 1) =~= s@.take(it.index()).push(c));
        }
    }
    proof {
        assert(s@.take(s@.len() as int) =~= s@);
    }
    r
}

/// Whether two strings hold the same characters.
pub fn same_text(a: &str, b: &str) -> (r: bool)
    ensures
        r == (a@ == b@),
{
    let x = characters(a);
    let y = characters(b);
    if x.len() != y.len() {
        return false;
    }
    let mut i: usize = 0;
    while i < x.len()
        invariant
            x@ == a@,
            y@ == b@,
            x@.len() == y@.len(),
            i <= x@.len(),
            forall|j: int| 0 <= j < i ==> x@[j] == y@[j],
        decreases x@.len() - i,
    {
        if x[i] != y[i] {
            return false;
        }
        i += 1;
    }
    proof {
        assert(a@ =~= b@);
    }
    true
}

/// Whether `s` ends with `suffix`, character by character.
pub fn has_suffix(s: &str, suffix: &str) -> (r: bool)
    ensures
        r == ends_with(s@, suffix@),
{
    let x = characters(s);
    let y = characters(suffix);
    if y.len() > x.len() {
        return false;
    }
    let offset = x.len() - y.len();
    let ghost tail = s@.subrange(offset as int, s@.len() as int);
    let mut i: usize = 0;
    while i < y.len()
        invariant
            x@ == s@,
            y@ == suffix@,
            y@.len() <= x@.len(),
            offset + y.len() == x.len(),
            tail == s@.subrange(offset as int, s@.len() as int),
            i <= y.len(),
            forall|j: int| 0 <= j < i ==> tail[j] == y@[j],
        decreases y@.len() - i,
    {
        if x[offset + i] != y[i] {
            assert(tail[i as int] != suffix@[i as int]);
            return false;
        }
        i += 1;
    }
    proof {
        assert(tail =~= suffix@);
    }
    true
}

/// The part of `s` after its last `sep`, or all of `s` where it has none.
pub fn last_segment<'a>(s: &'a str, sep: char) -> (r: &'a str)
    ensures
        r@ == after_last(s@, sep),
{
    let x = characters(s);
    let n = x.len();
    let mut i: usize = n;
    while i > 0
        invariant
            x@ == s@,
            n == s@.len(),
            i <= n,
            forall|j: int| i <= j < n ==> s@[j] != sep,
        decreases i,
    {
        if x[i - 1] == sep {
            proof {
                lemma_after_last_at(s@, sep, i - 1);
            }
            return s.substring_char(i, n);
        }
        i -= 1;
    }
    proof {
        lemma_after_last_whole(s@, sep);
    }
    s
}

/// What `Debug` prints for a string: the string between double quotes, with
/// the characters that cannot stand there as they are written as escapes.
pub uninterp spec fn quoted_text(s: Seq<char>) -> Seq<char>;

/// Formats a string with `{:?}`, that is with std's `Debug` for `str`: the
/// result is the text named [`quoted_text`]. Not proved.
#[verifier::external_body]
pub(crate) fn quoted(s: &str) -> (r: String)
    ensures
        r@ == quoted_text(s@),
{
    format!("{:?}", s)
}

} // verus!
