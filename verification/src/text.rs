//! Substring search over strings, with the exact first-occurrence semantics
//! the rc-file mutator relies on: occurrences are found at the earliest
//! position, and removal splices out exactly the matched range.

use vstd::prelude::*;

verus! {

/// `needle` occurs in `haystack` starting at position `i`.
pub open spec fn matches_at(haystack: Seq<char>, needle: Seq<char>, i: int) -> bool {
    &&& 0 <= i
    &&& i + needle.len() <= haystack.len()
    &&& haystack.subrange(i, i + needle.len()) == needle
}

/// `needle` occurs somewhere in `haystack`.
pub open spec fn has_match(haystack: Seq<char>, needle: Seq<char>) -> bool {
    exists|i: int| matches_at(haystack, needle, i)
}

/// Position of the first occurrence of `needle` at or after position `from`,
/// if any.
pub open spec fn find_from(haystack: Seq<char>, needle: Seq<char>, from: int) -> Option<int>
    decreases haystack.len() - from,
{
    if from + needle.len() > haystack.len() {
        None
    } else if needle.len() == 0 {
        Some(from)
    } else if haystack.subrange(from, from + needle.len()) == needle {
        Some(from)
    } else {
        find_from(haystack, needle, from + 1)
    }
}

/// Position of the first occurrence of `needle` in `haystack`, if any.
pub open spec fn find_first(haystack: Seq<char>, needle: Seq<char>) -> Option<int> {
    find_from(haystack, needle, 0)
}

/// `haystack` with the first occurrence of `needle` spliced out; `haystack`
/// unchanged when `needle` does not occur.
pub open spec fn remove_first_match(haystack: Seq<char>, needle: Seq<char>) -> Seq<char> {
    match find_first(haystack, needle) {
        Some(i) => haystack.subrange(0, i) + haystack.subrange(
            i + needle.len(),
            haystack.len() as int,
        ),
        None => haystack,
    }
}

/// `find_from` returns the earliest occurrence at or after `from`, and `None`
/// exactly when no occurrence starts at or after `from`.
pub proof fn lemma_find_from_is_first(haystack: Seq<char>, needle: Seq<char>, from: int)
    requires
        0 <= from,
    ensures
        match find_from(haystack, needle, from) {
            Some(i) => {
                &&& from <= i
                &&& matches_at(haystack, needle, i)
                &&& forall|j: int| from <= j < i ==> !matches_at(haystack, needle, j)
            },
            None => forall|j: int| from <= j ==> !matches_at(haystack, needle, j),
        },
    decreases haystack.len() - from,
{
    if from + needle.len() > haystack.len() {
    } else if needle.len() == 0 {
        assert(haystack.subrange(from, from + needle.len()) =~= needle);
        assert(matches_at(haystack, needle, from));
    } else if haystack.subrange(from, from + needle.len()) == needle {
    } else {
        lemma_find_from_is_first(haystack, needle, from + 1);
    }
}

/// `find_first` fails exactly when `needle` does not occur at all.
pub proof fn lemma_find_first_none(haystack: Seq<char>, needle: Seq<char>)
    ensures
        find_first(haystack, needle) is None <==> !has_match(haystack, needle),
{
    lemma_find_from_is_first(haystack, needle, 0);
    match find_first(haystack, needle) {
        Some(i) => {
            assert(has_match(haystack, needle));
        },
        None => {
            assert(forall|j: int| 0 <= j ==> !matches_at(haystack, needle, j));
        },
    }
}

/// Removing a needle that does not occur leaves the haystack unchanged.
pub proof fn lemma_remove_when_absent(haystack: Seq<char>, needle: Seq<char>)
    requires
        !has_match(haystack, needle),
    ensures
        remove_first_match(haystack, needle) == haystack,
{
    lemma_find_first_none(haystack, needle);
}

/// Compares `needle` against `haystack` at offset `i`.
fn check_match(haystack: &str, needle: &str, i: usize) -> (r: bool)
    requires
        i + needle@.len() <= haystack@.len(),
    ensures
        r == matches_at(haystack@, needle@, i as int),
{
    let hlen = haystack.unicode_len();
    let nlen = needle.unicode_len();
    let mut j: usize = 0;
    while j < nlen
        invariant
            hlen == haystack@.len(),
            nlen == needle@.len(),
            i + nlen <= hlen,
            j <= nlen,
            forall|k: int| 0 <= k < j ==> haystack@[i + k] == needle@[k],
        decreases nlen - j,
    {
        if haystack.get_char(i + j) != needle.get_char(j) {
            proof {
                assert(haystack@.subrange(i as int, i + needle@.len())[j as int] == haystack@[i
                    + j]);
            }
            return false;
        }
        j = j + 1;
    }
    proof {
        assert(haystack@.subrange(i as int, i + needle@.len()) =~= needle@);
    }
    true
}

/// Position of the first occurrence of `needle` in `haystack`, scanning left
/// to right.
pub fn substring_position(haystack: &str, needle: &str) -> (r: Option<usize>)
    ensures
        match r {
            Some(i) => find_first(haystack@, needle@) == Some(i as int),
            None => find_first(haystack@, needle@) is None,
        },
{
    let hlen = haystack.unicode_len();
    let nlen = needle.unicode_len();
    if nlen > hlen {
        return None;
    }
    if nlen == 0 {
        return Some(0);
    }
    let mut i: usize = 0;
    while i <= hlen - nlen
        invariant
            1 <= nlen <= hlen,
            hlen == haystack@.len(),
            nlen == needle@.len(),
            i <= hlen - nlen + 1,
            find_first(haystack@, needle@) == find_from(haystack@, needle@, i as int),
        decreases hlen - nlen - i + 1,
    {
        if check_match(haystack, needle, i) {
            return Some(i);
        }
        i = i + 1;
    }
    None
}

/// Whether `needle` occurs anywhere in `haystack`.
pub fn contains_substring(haystack: &str, needle: &str) -> (r: bool)
    ensures
        r == has_match(haystack@, needle@),
{
    let position = substring_position(haystack, needle);
    proof {
        lemma_find_first_none(haystack@, needle@);
        lemma_find_from_is_first(haystack@, needle@, 0);
    }
    position.is_some()
}

/// `haystack` with the first occurrence of `needle` spliced out, byte-exact:
/// only the matched range is deleted, and nothing changes when `needle` does
/// not occur.
pub fn remove_first_occurrence(haystack: &str, needle: &str) -> (r: String)
    ensures
        r@ == remove_first_match(haystack@, needle@),
{
    match substring_position(haystack, needle) {
        Some(i) => {
            proof {
                lemma_find_from_is_first(haystack@, needle@, 0);
            }
            let hlen = haystack.unicode_len();
            let nlen = needle.unicode_len();
            let prefix = haystack.substring_char(0, i);
            let suffix = haystack.substring_char(i + nlen, hlen);
            prefix.to_owned().concat(suffix)
        },
        None => haystack.to_owned(),
    }
}

} // verus!
