//! Matching on character sequences: ASCII case folding, prefixes and
//! substrings.
//!
//! Case is folded for the 26 ASCII letters only; every other character,
//! cased or not, matches nothing but itself.

use vstd::prelude::*;

verus! {

/// The lower-case form of an ASCII capital letter; any other character is
/// left as it is.
pub open spec fn fold_char(c: char) -> char {
    if 'A' <= c && c <= 'Z' {
        ((c as u8) + 32) as char
    } else {
        c
    }
}

/// A sequence with every character folded.
pub open spec fn fold(s: Seq<char>) -> Seq<char> {
    Seq::new(s.len(), |i: int| fold_char(s[i]))
}

/// Whether two sequences are equal once case is folded.
pub open spec fn eq_ignoring_case(a: Seq<char>, b: Seq<char>) -> bool {
    fold(a) =~= fold(b)
}

/// Whether `s` begins with `prefix`.
pub open spec fn is_prefix(s: Seq<char>, prefix: Seq<char>) -> bool {
    prefix.len() <= s.len() && s.subrange(0, prefix.len() as int) =~= prefix
}

/// Whether `pat` stands in `s` at position `at`.
pub open spec fn occurs_at(s: Seq<char>, pat: Seq<char>, at: int) -> bool {
    0 <= at && at + pat.len() <= s.len() && s.subrange(at, at + pat.len()) =~= pat
}

/// Whether `pat` stands somewhere in `s`.
pub open spec fn occurs(s: Seq<char>, pat: Seq<char>) -> bool {
    exists|at: int| occurs_at(s, pat, at)
}

/// Whether `pat` stands somewhere in `s` once case is folded in both.
pub open spec fn occurs_ignoring_case(s: Seq<char>, pat: Seq<char>) -> bool {
    occurs(fold(s), fold(pat))
}

/// Folds one character.
pub fn fold_ascii(c: char) -> (r: char)
    ensures
        r == fold_char(c),
{
    if 'A' <= c && c <= 'Z' {
        ((c as u8) + 32) as char
    } else {
        c
    }
}

/// The characters of a string, in order.
pub fn chars_of(s: &str) -> (v: Vec<char>)
    ensures
        v@ == s@,
{
    let mut v: Vec<char> = Vec::new();
    for c in it: s.chars()
        invariant
            it.seq() == s@,
            v@ == it.seq().take(it.index() as int),
    {
        v.push(c);
    }
    v
}

/// The characters of a string, each folded.
pub fn folded_chars_of(s: &str) -> (v: Vec<char>)
    ensures
        v@ == fold(s@),
{
    let mut v: Vec<char> = Vec::new();
    for c in it: s.chars()
        invariant
            it.seq() == s@,
            v@ == fold(it.seq().take(it.index() as int)),
    {
        v.push(fold_ascii(c));
    }
    v
}

/// Whether `pat` stands in `hay` at position `at`. A position from which
/// `pat` would run past the end of `hay` holds no occurrence.
pub fn matches_at(hay: &[char], pat: &[char], at: usize) -> (r: bool)
    ensures
        r == occurs_at(hay@, pat@, at as int),
{
    if at > hay.len() || pat.len() > hay.len() - at {
        return false;
    }
    let mut k: usize = 0;
    while k < pat.len()
        invariant
            at + pat.len() <= hay.len(),
            k <= pat.len(),
            forall|j: int| 0 <= j < k ==> hay@[at + j] == pat@[j],
        decreases pat.len() - k,
    {
        if hay[at + k] != pat[k] {
            assert(hay@.subrange(at as int, at + pat.len())[k as int] != pat@[k as int]);
            return false;
        }
        k += 1;
    }
    true
}

/// The first position at which `pat` stands in `hay`, if there is one.
pub fn find(hay: &[char], pat: &[char]) -> (r: Option<usize>)
    ensures
        match r {
            Some(at) => occurs_at(hay@, pat@, at as int) && forall|j: int|
                0 <= j < at ==> !occurs_at(hay@, pat@, j),
            None => !occurs(hay@, pat@),
        },
{
    if pat.len() > hay.len() {
        return None;
    }
    let last: usize = hay.len() - pat.len();
    let mut at: usize = 0;
    while at <= last
        invariant
            last == hay.len() - pat.len(),
            at <= last + 1,
            forall|j: int| 0 <= j < at ==> !occurs_at(hay@, pat@, j),
        decreases last + 1 - at,
    {
        if matches_at(hay, pat, at) {
            return Some(at);
        }
        at += 1;
    }
    None
}

/// Whether `s` begins with `prefix`, character for character.
pub fn starts_with(s: &str, prefix: &str) -> (r: bool)
    ensures
        r == is_prefix(s@, prefix@),
{
    let hay = chars_of(s);
    let pat = chars_of(prefix);
    let r = matches_at(hay.as_slice(), pat.as_slice(), 0);
    r
}

/// Whether `pat` stands somewhere in `s`, character for character.
pub fn contains(s: &str, pat: &str) -> (r: bool)
    ensures
        r == occurs(s@, pat@),
{
    let hay = chars_of(s);
    let pat = chars_of(pat);
    find(hay.as_slice(), pat.as_slice()).is_some()
}

/// Whether `pat` stands somewhere in `s`, ASCII case ignored.
pub fn contains_ignoring_case(s: &str, pat: &str) -> (r: bool)
    ensures
        r == occurs_ignoring_case(s@, pat@),
{
    let hay = folded_chars_of(s);
    let pat = folded_chars_of(pat);
    find(hay.as_slice(), pat.as_slice()).is_some()
}

/// Whether `a` and `b` are the same string, ASCII case ignored.
pub fn equals_ignoring_case(a: &str, b: &str) -> (r: bool)
    ensures
        r == eq_ignoring_case(a@, b@),
{
    let x = folded_chars_of(a);
    let y = folded_chars_of(b);
    x.len() == y.len() && matches_at(x.as_slice(), y.as_slice(), 0)
}

} // verus!
