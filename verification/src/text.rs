//! Text predicates over the characters of a string.
//!
//! Every contract here speaks of a string through its view, the sequence of
//! its characters.

use vstd::prelude::*;
use vstd::std_specs::iter::IteratorSpec;

verus! {

/// `needle` stands in `s` at position `at`.
pub open spec fn occurs_at(needle: Seq<char>, s: Seq<char>, at: int) -> bool {
    &&& 0 <= at
    &&& at + needle.len() <= s.len()
    &&& s.subrange(at, at + needle.len()) == needle
}

/// `needle` stands somewhere in `s`.
pub open spec fn occurs_in(needle: Seq<char>, s: Seq<char>) -> bool {
    exists|at: int| occurs_at(needle, s, at)
}

/// The characters of an optional string, where there is one.
pub open spec fn text_of(s: Option<&str>) -> Option<Seq<char>> {
    match s {
        Some(s) => Some(s@),
        None => None,
    }
}

/// The characters of `s`, in order.
pub fn chars_of(s: &str) -> (v: Vec<char>)
    ensures
        v@ == s@,
{
    broadcast use vstd::string::axiom_spec_iter;

    let mut v: Vec<char> = Vec::new();
    for c in it: s.chars()
        invariant
            it.seq() == s@,
            v@ == it.seq().take(it.index()),
    {
        v.push(c);
    }
    v
}

/// Whether `needle` stands in `s` at position `at`.
fn matches_at(s: &Vec<char>, needle: &Vec<char>, at: usize) -> (b: bool)
    requires
        at + needle@.len() <= s@.len(),
    ensures
        b == occurs_at(needle@, s@, at as int),
{
    let n: usize = needle.len();
    let mut k: usize = 0;
    while k < n
        invariant
            n == needle.len(),
            at + n <= s.len(),
            k <= n,
            forall|j: int| 0 <= j < k ==> s@[at + j] == needle@[j],
        decreases n - k,
    {
        if s[at + k] != needle[k] {
            proof {
                let window = s@.subrange(at as int, at + n);
                assert(window[k as int] == s@[at + k]);
            }
            return false;
        }
        k += 1;
    }
    assert(s@.subrange(at as int, at + n) =~= needle@);
    true
}

/// Whether the two strings hold the same characters.
pub fn same_text(a: &str, b: &str) -> (r: bool)
    ensures
        r == (a@ == b@),
{
    let left = chars_of(a);
    let right = chars_of(b);
    if left.len() != right.len() {
        return false;
    }
    let r = matches_at(&left, &right, 0);
    assert(left@.subrange(0, left@.len() as int) =~= left@);
    r
}

/// Whether `s` ends with `suffix`.
pub fn ends_with(s: &str, suffix: &str) -> (b: bool)
    ensures
        b == suffix@.is_suffix_of(s@),
{
    let whole = chars_of(s);
    let tail = chars_of(suffix);
    if tail.len() > whole.len() {
        return false;
    }
    matches_at(&whole, &tail, whole.len() - tail.len())
}

/// Whether `needle` stands somewhere in `s`.
pub fn contains(s: &str, needle: &str) -> (b: bool)
    ensures
        b == occurs_in(needle@, s@),
{
    let whole = chars_of(s);
    let part = chars_of(needle);
    if part.len() > whole.len() {
        return false;
    }
    let last: usize = whole.len() - part.len();
    let mut at: usize = 0;
    loop
        invariant
            whole@ == s@,
            part@ == needle@,
            last + part.len() == whole.len(),
            at <= last,
            forall|j: int| 0 <= j < at ==> !occurs_at(part@, whole@, j),
        decreases last - at,
    {
        if matches_at(&whole, &part, at) {
            return true;
        }
        if at == last {
            return false;
        }
        at += 1;
    }
}

} // verus!
