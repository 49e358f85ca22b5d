//! Small verified operations on strings.

use vstd::prelude::*;
use vstd::string::StringSliceAdditionalSpecFns;
use vstd::string::StrSliceExecFns;
use vstd::std_specs::iter::IteratorSpec;
use vstd::utf8::encode_utf8_decode_utf8;

verus! {

/// Whether a character has the Unicode property White_Space.
pub uninterp spec fn white_space(c: char) -> bool;

/// `char::is_whitespace` of std tells whether a character has the Unicode
/// property White_Space; the library names that answer and states no more.
pub assume_specification[ char::is_whitespace ](c: char) -> (b: bool)
    ensures
        b == white_space(c),
;

/// Index of the first character that is not white space, or the length.
pub open spec fn ink_start(s: Seq<char>) -> int
    decreases s.len(),
{
    if s.len() == 0 || !white_space(s.first()) {
        0
    } else {
        1 + ink_start(s.drop_first())
    }
}

/// Index after the last character that is not white space, or zero.
pub open spec fn ink_end(s: Seq<char>) -> int
    decreases s.len(),
{
    if s.len() == 0 {
        0
    } else if !white_space(s.last()) {
        s.len() as int
    } else {
        ink_end(s.drop_last())
    }
}

/// A string without its leading and trailing white space.
pub open spec fn trimmed(s: Seq<char>) -> Seq<char> {
    if ink_start(s) < ink_end(s) {
        s.subrange(ink_start(s), ink_end(s))
    } else {
        Seq::empty()
    }
}

/// `ink_start` is the one index with white space alone before it and none at it.
pub proof fn lemma_ink_start(s: Seq<char>, k: int)
    requires
        0 <= k <= s.len(),
        forall|j: int| 0 <= j < k ==> white_space(#[trigger] s[j]),
        k < s.len() ==> !white_space(s[k]),
    ensures
        ink_start(s) == k,
    decreases s.len(),
{
    if s.len() == 0 || !white_space(s.first()) {
        if k > 0 {
            assert(white_space(s[0]));
        }
    } else {
        let rest = s.drop_first();
        assert forall|j: int| 0 <= j < k - 1 implies white_space(#[trigger] rest[j]) by {
            assert(rest[j] == s[j + 1]);
        }
        lemma_ink_start(rest, k - 1);
    }
}

/// The bounds of the trimmed part lie within the string.
pub proof fn lemma_ink_bounds(s: Seq<char>)
    ensures
        0 <= ink_start(s) <= s.len(),
        0 <= ink_end(s) <= s.len(),
        ink_end(s) > 0 ==> !white_space(s[ink_end(s) - 1]),
        forall|j: int| ink_end(s) <= j < s.len() ==> white_space(#[trigger] s[j]),
    decreases s.len(),
{
    if s.len() > 0 {
        lemma_ink_bounds(s.drop_first());
        lemma_ink_bounds(s.drop_last());
        if white_space(s.last()) {
            let head = s.drop_last();
            assert forall|j: int| ink_end(s) <= j < s.len() implies white_space(
                #[trigger] s[j],
            ) by {
                if j < head.len() {
                    assert(head[j] == s[j]);
                }
            }
        }
    }
}

/// Compares two strings character by character.
pub fn str_equals(a: &str, b: &str) -> (same: bool)
    ensures
        same == (a@ == b@),
{
    let x = a.as_bytes();
    let y = b.as_bytes();
    proof {
        encode_utf8_decode_utf8(a@);
        encode_utf8_decode_utf8(b@);
    }
    if x.len() != y.len() {
        return false;
    }
    let mut i: usize = 0;
    while i < x.len()
        invariant
            i <= x.len(),
            x.len() == y.len(),
            forall|k: int| 0 <= k < i ==> x@[k] == y@[k],
            x@ == a.spec_bytes(),
            y@ == b.spec_bytes(),
            x@ == y@ ==> a@ == b@,
        decreases x.len() - i,
    {
        if x[i] != y[i] {
            return false;
        }
        i += 1;
    }
    assert(x@ =~= y@);
    true
}

/// Finds where the trimmed part of a string starts and ends, in characters.
pub fn trim_bounds(s: &str) -> (b: (usize, usize))
    ensures
        b.0 == ink_start(s@),
        b.1 == ink_end(s@),
{
    let n = s.unicode_len();
    let mut start: usize = 0;
    let mut found = false;
    let mut end: usize = 0;
    let mut i: usize = 0;
    let mut it = s.chars();
    while i < n
        invariant
            i <= n,
            n == s@.len(),
            it.obeys_prophetic_iter_laws(),
            it.remaining() == s@.skip(i as int),
            end == ink_end(s@.take(i as int)),
            found ==> start < i && !white_space(s@[start as int]),
            !found ==> start == i,
            forall|j: int| 0 <= j < start ==> white_space(#[trigger] s@[j]),
        decreases n - i,
    {
        let next = it.next();
        let c = next.unwrap();
        assert(c == s@[i as int]);
        assert(s@.take(i + 1).drop_last() == s@.take(i as int));
        if c.is_whitespace() {
            if !found {
                start = i + 1;
            }
        } else {
            if !found {
                start = i;
                found = true;
            }
            end = i + 1;
        }
        i += 1;
    }
    proof {
        assert(s@.take(n as int) == s@);
        lemma_ink_start(s@, start as int);
    }
    (start, end)
}

/// The string without its leading and trailing white space.
pub fn trim(s: &str) -> (t: &str)
    ensures
        t@ == trimmed(s@),
{
    let (start, end) = trim_bounds(s);
    proof {
        lemma_ink_bounds(s@);
    }
    if start < end {
        s.substring_char(start, end)
    } else {
        s.substring_char(0, 0)
    }
}

} // verus!
