//! Text as sequences of characters: searching for a pattern, comparing, and
//! joining path text.

use vstd::prelude::*;
use vstd::string::*;

verus! {

/// `pattern` stands in `text` at index `at`.
pub open spec fn occurs_at(text: Seq<char>, pattern: Seq<char>, at: int) -> bool {
    &&& 0 <= at
    &&& at + pattern.len() <= text.len()
    &&& text.subrange(at, at + pattern.len()) == pattern
}

/// The least index at or after `from` at which `pattern` stands in `text`.
pub open spec fn first_occurrence_from(text: Seq<char>, pattern: Seq<char>, from: int) -> Option<
    int,
>
    decreases text.len() + 1 - from,
{
    if from < 0 || from + pattern.len() > text.len() {
        None
    } else if occurs_at(text, pattern, from) {
        Some(from)
    } else {
        first_occurrence_from(text, pattern, from + 1)
    }
}

/// The least index at which `pattern` stands in `text`.
pub open spec fn first_occurrence(text: Seq<char>, pattern: Seq<char>) -> Option<int> {
    first_occurrence_from(text, pattern, 0)
}

/// `first_occurrence_from` gives an index at which the pattern stands and
/// before which, from `from` on, it does not; it gives nothing only when the
/// pattern stands nowhere from `from` on.
pub proof fn lemma_first_occurrence_from(text: Seq<char>, pattern: Seq<char>, from: int)
    requires
        0 <= from,
    ensures
        match first_occurrence_from(text, pattern, from) {
            Some(at) => {
                &&& from <= at
                &&& occurs_at(text, pattern, at)
                &&& forall|j: int| from <= j < at ==> !occurs_at(text, pattern, j)
            },
            None => forall|j: int| from <= j ==> !occurs_at(text, pattern, j),
        },
    decreases text.len() + 1 - from,
{
    if from + pattern.len() <= text.len() && !occurs_at(text, pattern, from) {
        lemma_first_occurrence_from(text, pattern, from + 1);
    }
}

/// An index at which the pattern stands, with no earlier one, is the first
/// occurrence.
pub proof fn lemma_first_occurrence_is(text: Seq<char>, pattern: Seq<char>, at: int)
    requires
        occurs_at(text, pattern, at),
        forall|j: int| 0 <= j < at ==> !occurs_at(text, pattern, j),
    ensures
        first_occurrence(text, pattern) == Some(at),
{
    lemma_first_occurrence_from(text, pattern, 0);
}

/// Path text for `rel` below `base`: the two parts with one `/` between them,
/// which is left out where `base` is empty or already ends in one.
pub open spec fn joined(base: Seq<char>, rel: Seq<char>) -> Seq<char> {
    if base.len() == 0 || base.last() == '/' {
        base + rel
    } else {
        base + seq!['/'] + rel
    }
}

/// The characters of `s`, in order.
pub fn chars_of(s: &str) -> (chars: Vec<char>)
    ensures
        chars@ == s@,
{
    let mut chars: Vec<char> = Vec::new();
    for c in it: s.chars()
        invariant
            chars@ == it.seq().take(it.index()),
    {
        chars.push(c);
    }
    chars
}

/// Whether two texts hold the same characters.
pub fn same_text(a: &str, b: &str) -> (same: bool)
    ensures
        same == (a@ == b@),
{
    String::from_str(a) == String::from_str(b)
}

/// Whether `pattern` stands in `text` at `at`.
fn stands_at(text: &Vec<char>, pattern: &Vec<char>, at: usize) -> (stands: bool)
    requires
        at + pattern.len() <= text.len(),
    ensures
        stands == occurs_at(text@, pattern@, at as int),
{
    let mut k: usize = 0;
    while k < pattern.len()
        invariant
            k <= pattern.len(),
            at + pattern.len() <= text.len(),
            forall|j: int| 0 <= j < k ==> text@[at + j] == pattern@[j],
        decreases pattern.len() - k,
    {
        if text[at + k] != pattern[k] {
            assert(text@.subrange(at as int, at + pattern.len())[k as int] == text@[at + k]);
            return false;
        }
        k += 1;
    }
    assert(text@.subrange(at as int, at + pattern.len()) =~= pattern@);
    true
}

/// The index of the first occurrence of `pattern` in `text`.
pub fn find(text: &Vec<char>, pattern: &Vec<char>) -> (found: Option<usize>)
    ensures
        match found {
            Some(at) => first_occurrence(text@, pattern@) == Some(at as int),
            None => first_occurrence(text@, pattern@) is None,
        },
{
    if pattern.len() > text.len() {
        return None;
    }
    let mut at: usize = 0;
    while at <= text.len() - pattern.len()
        invariant
            pattern.len() <= text.len(),
            at <= text.len() - pattern.len() + 1,
            first_occurrence(text@, pattern@) == first_occurrence_from(
                text@,
                pattern@,
                at as int,
            ),
        decreases text.len() - pattern.len() + 1 - at,
    {
        if stands_at(text, pattern, at) {
            return Some(at);
        }
        assert(pattern.len() > 0) by {
            if pattern.len() == 0 {
                assert(text@.subrange(at as int, at as int) =~= pattern@);
            }
        }
        at += 1;
    }
    None
}

/// Joins path text: `rel` below `base`.
pub fn join_path(base: &str, rel: &str) -> (path: String)
    ensures
        path@ == joined(base@, rel@),
{
    let n: usize = base.unicode_len();
    let mut path = String::from_str(base);
    if n > 0 && base.get_char(n - 1) != '/' {
        proof {
            reveal_strlit("/");
            assert("/"@ =~= seq!['/']);
        }
        path.append("/");
    }
    path.append(rel);
    path
}

} // verus!
