//! Strings as sequences of characters, and the `://` separator of runtime
//! identifiers.

use vstd::prelude::*;
use vstd::string::*;

verus! {

/// Whether the three characters `://` stand in `s` at position `i`.
pub open spec fn separator_at(s: Seq<char>, i: int) -> bool {
    &&& 0 <= i
    &&& i + 3 <= s.len()
    &&& s[i] == ':'
    &&& s[i + 1] == '/'
    &&& s[i + 2] == '/'
}

/// Whether `://` occurs in `s`.
pub open spec fn has_separator(s: Seq<char>) -> bool {
    exists|i: int| separator_at(s, i)
}

/// Whether the leftmost `://` of `s` stands at position `i`.
pub open spec fn is_first_separator(s: Seq<char>, i: int) -> bool {
    &&& separator_at(s, i)
    &&& forall|j: int| 0 <= j < i ==> !separator_at(s, j)
}

/// Where the first segment of `s` ends: at its leftmost `://`, or at the end
/// of `s` where there is none.
pub open spec fn segment_end(s: Seq<char>) -> int {
    if has_separator(s) {
        choose|i: int| is_first_separator(s, i)
    } else {
        s.len() as int
    }
}

/// What stands before the leftmost `://` of `s`; all of `s` without one.
pub open spec fn first_segment(s: Seq<char>) -> Seq<char> {
    s.subrange(0, segment_end(s))
}

/// What follows the leftmost `://` of `s`. Meant for an `s` that has one.
pub open spec fn after_separator(s: Seq<char>) -> Seq<char> {
    s.subrange(segment_end(s) + 3, s.len() as int)
}

/// The leftmost `://` is the only position that `is_first_separator` accepts,
/// and `segment_end` names it.
pub proof fn lemma_first_separator_unique(s: Seq<char>, i: int)
    requires
        is_first_separator(s, i),
    ensures
        has_separator(s),
        segment_end(s) == i,
{
    let k = choose|k: int| is_first_separator(s, k);
    if k < i {
        assert(!separator_at(s, k));
    }
    if i < k {
        assert(!separator_at(s, i));
    }
}

/// A string with a separator splits into its first segment, `://` and the rest.
pub proof fn lemma_split_joins(s: Seq<char>)
    requires
        has_separator(s),
    ensures
        0 <= segment_end(s) <= s.len() - 3,
        is_first_separator(s, segment_end(s)),
        !has_separator(first_segment(s)),
        s == first_segment(s) + seq![':', '/', '/'] + after_separator(s),
{
    lemma_least_separator(s, choose|i: int| separator_at(s, i));
    let e = segment_end(s);
    assert(is_first_separator(s, e));
    let head = first_segment(s);
    assert forall|j: int| !separator_at(head, j) by {
        if separator_at(head, j) {
            assert(head[j] == s[j] && head[j + 1] == s[j + 1] && head[j + 2] == s[j + 2]);
            assert(separator_at(s, j));
        }
    }
    assert(s =~= head + seq![':', '/', '/'] + after_separator(s));
}

/// Below any position with a separator there is a leftmost one.
proof fn lemma_least_separator(s: Seq<char>, i: int)
    requires
        separator_at(s, i),
    ensures
        exists|k: int| is_first_separator(s, k),
    decreases i,
{
    if exists|j: int| 0 <= j < i && separator_at(s, j) {
        let j = choose|j: int| 0 <= j < i && separator_at(s, j);
        lemma_least_separator(s, j);
    } else {
        assert(is_first_separator(s, i));
    }
}

/// The characters of `s`, in order.
pub fn chars_of(s: &str) -> (v: Vec<char>)
    ensures
        v@ == s@,
{
    let mut v: Vec<char> = Vec::new();
    for c in it: s.chars()
        invariant
            v@ == it.seq().take(it.index() as int),
            it.seq() == s@,
    {
        v.push(c);
    }
    v
}

/// The position of the leftmost `://` in `chars` at or after `from`, or the
/// length of `chars` where there is none.
pub(crate) fn find_separator(chars: &Vec<char>, from: usize) -> (end: usize)
    requires
        from <= chars.len(),
    ensures
        from <= end <= chars.len(),
        end == from + segment_end(chars@.subrange(from as int, chars.len() as int)),
        end < chars.len() <==> has_separator(chars@.subrange(from as int, chars.len() as int)),
{
    let n = chars.len();
    let ghost tail = chars@.subrange(from as int, n as int);
    let mut i: usize = from;
    while i < n
        invariant
            from <= i <= n,
            n == chars.len(),
            tail == chars@.subrange(from as int, n as int),
            forall|j: int| 0 <= j < i - from ==> !separator_at(tail, j),
        decreases n - i,
    {
        if n - i >= 3 && chars[i] == ':' && chars[i + 1] == '/' && chars[i + 2] == '/' {
            proof {
                assert(separator_at(tail, i - from));
                lemma_first_separator_unique(tail, i - from);
            }
            return i;
        }
        assert(!separator_at(tail, i - from));
        i += 1;
    }
    assert(!has_separator(tail));
    n
}

/// Whether `://` occurs in `s`.
pub fn contains_separator(s: &str) -> (found: bool)
    ensures
        found == has_separator(s@),
{
    let chars = chars_of(s);
    assert(chars@.subrange(0, chars.len() as int) =~= s@);
    find_separator(&chars, 0) < chars.len()
}

/// `a` followed by `b`.
pub fn join(a: &str, b: &str) -> (r: String)
    ensures
        r@ == a@ + b@,
{
    String::from_str(a).concat(b)
}

} // verus!
