//! Verified character-sequence utilities: conversion of a string to its
//! characters, substring containment, and last-occurrence search. These are
//! the building blocks of the browser-tab heuristic and of the process-path
//! display-name extraction.

use vstd::prelude::*;
use vstd::string::StrSliceExecFns;

verus! {

/// The needle occurs in the haystack starting at position `i`.
pub open spec fn contains_at(hay: Seq<char>, needle: Seq<char>, i: int) -> bool {
    &&& 0 <= i
    &&& i + needle.len() <= hay.len()
    &&& hay.subrange(i, i + needle.len()) == needle
}

/// The needle occurs somewhere in the haystack.
pub open spec fn seq_contains(hay: Seq<char>, needle: Seq<char>) -> bool {
    exists|i: int| contains_at(hay, needle, i)
}

/// Position of the last occurrence of the needle in the haystack, if any.
pub open spec fn last_occurrence(hay: Seq<char>, needle: Seq<char>) -> Option<int> {
    if seq_contains(hay, needle) {
        Some(
            choose|i: int|
                contains_at(hay, needle, i) && (forall|j: int| i < j ==> !contains_at(
                    hay,
                    needle,
                    j,
                )),
        )
    } else {
        None
    }
}

/// The characters of a string, as a vector.
pub fn chars_of(s: &str) -> (v: Vec<char>)
    ensures
        v@ == s@,
{
    let n: usize = s.unicode_len();
    let mut v: Vec<char> = Vec::new();
    let mut i: usize = 0;
    while i < n
        invariant
            n == s@.len(),
            i <= n,
            v@ == s@.subrange(0, i as int),
        decreases n - i,
    {
        let c = s.get_char(i);
        v.push(c);
        i += 1;
        proof {
            assert(v@ =~= s@.subrange(0, i as int));
        }
    }
    proof {
        assert(s@.subrange(0, n as int) =~= s@);
    }
    v
}

/// Whether the needle occurs in the haystack exactly at position `i`.
pub fn matches_at(hay: &Vec<char>, needle: &Vec<char>, i: usize) -> (r: bool)
    requires
        i + needle@.len() <= hay@.len(),
    ensures
        r == contains_at(hay@, needle@, i as int),
{
    let n = hay.len();
    let m = needle.len();
    let mut j: usize = 0;
    while j < m
        invariant
            j <= m,
            n == hay@.len(),
            m == needle@.len(),
            i + m <= n,
            forall|k: int| 0 <= k < j ==> hay@[i + k] == needle@[k],
        decreases m - j,
    {
        if hay[i + j] != needle[j] {
            proof {
                let sub = hay@.subrange(i as int, i + m as int);
                assert(sub[j as int] == hay@[i + j]);
                assert(sub != needle@);
            }
            return false;
        }
        j += 1;
    }
    proof {
        assert(hay@.subrange(i as int, i + m as int) =~= needle@);
    }
    true
}

/// Substring search: does the needle occur anywhere in the haystack?
pub fn contains_seq(hay: &Vec<char>, needle: &Vec<char>) -> (r: bool)
    ensures
        r == seq_contains(hay@, needle@),
{
    let n = hay.len();
    let m = needle.len();
    if m > n {
        proof {
            assert(forall|i: int| !contains_at(hay@, needle@, i));
        }
        return false;
    }
    let mut i: usize = 0;
    loop
        invariant
            m <= n,
            n == hay@.len(),
            m == needle@.len(),
            i <= n - m,
            forall|k: int| 0 <= k < i ==> !contains_at(hay@, needle@, k),
        decreases n - m - i,
    {
        if matches_at(hay, needle, i) {
            proof {
                assert(contains_at(hay@, needle@, i as int));
            }
            return true;
        }
        if i == n - m {
            proof {
                assert(forall|k: int| k > n - m ==> !contains_at(hay@, needle@, k));
            }
            return false;
        }
        i += 1;
    }
}

/// Position of the last occurrence of the needle in the haystack, if any.
pub fn rfind_seq(hay: &Vec<char>, needle: &Vec<char>) -> (r: Option<usize>)
    ensures
        match r {
            Some(i) => contains_at(hay@, needle@, i as int) && (forall|j: int|
                i < j ==> !contains_at(hay@, needle@, j)),
            None => forall|j: int| !contains_at(hay@, needle@, j),
        },
        r matches Some(i) ==> last_occurrence(hay@, needle@) == Some(i as int),
        r is None ==> last_occurrence(hay@, needle@) is None,
{
    let n = hay.len();
    let m = needle.len();
    if m > n {
        proof {
            assert(forall|i: int| !contains_at(hay@, needle@, i));
        }
        return None;
    }
    let mut i: usize = n - m;
    loop
        invariant
            m <= n,
            n == hay@.len(),
            m == needle@.len(),
            i <= n - m,
            forall|k: int| i < k ==> !contains_at(hay@, needle@, k),
        decreases i,
    {
        if matches_at(hay, needle, i) {
            proof {
                assert(contains_at(hay@, needle@, i as int));
                let w = choose|w: int|
                    contains_at(hay@, needle@, w) && (forall|j: int| w < j ==> !contains_at(
                        hay@,
                        needle@,
                        j,
                    ));
                assert(contains_at(hay@, needle@, w) && (forall|j: int| w < j ==> !contains_at(
                    hay@,
                    needle@,
                    j,
                )));
                assert(w == i as int);
            }
            return Some(i);
        }
        if i == 0 {
            proof {
                assert(forall|k: int| !contains_at(hay@, needle@, k));
            }
            return None;
        }
        i -= 1;
    }
}

} // verus!
