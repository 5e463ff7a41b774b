//! Character-sequence utilities: conversion between `String` and `Vec<char>`,
//! verified substring search, and lemmas about occurrences in concatenations.
use vstd::prelude::*;

verus! {

/// True iff `needle` occurs as a contiguous run in `hay` starting at `at`.
pub open spec fn occurs_at<T>(hay: Seq<T>, needle: Seq<T>, at: int) -> bool {
    &&& 0 <= at
    &&& at + needle.len() <= hay.len()
    &&& hay.subrange(at, at + needle.len()) == needle
}

/// True iff `needle` occurs somewhere in `hay`.
pub open spec fn contains_seq<T>(hay: Seq<T>, needle: Seq<T>) -> bool {
    exists|at: int| occurs_at(hay, needle, at)
}

/// Relies on str::chars and Vec's FromIterator: the characters of the
/// string, in order, as a vector.
#[verifier::external_body]
pub fn string_to_chars(s: &str) -> (v: Vec<char>)
    ensures
        v@ == s@,
{
    s.chars().collect()
}

/// Relies on String's FromIterator over chars: the string holding exactly
/// the given characters, in order.
#[verifier::external_body]
pub fn chars_to_string(v: &Vec<char>) -> (s: String)
    ensures
        s@ == v@,
{
    v.iter().collect()
}

/// Appends every character of `s` to `out`.
pub fn append_str(out: &mut Vec<char>, s: &str)
    ensures
        final(out)@ == old(out)@ + s@,
{
    let chars = string_to_chars(s);
    let mut i: usize = 0;
    while i < chars.len()
        invariant
            i <= chars.len(),
            chars@ == s@,
            out@ == old(out)@ + s@.subrange(0, i as int),
        decreases chars.len() - i,
    {
        out.push(chars[i]);
        proof {
            assert(out@ =~= old(out)@ + s@.subrange(0, i + 1 as int));
        }
        i = i + 1;
    }
    proof {
        assert(out@ =~= old(out)@ + s@);
    }
}

/// Appends every character of `extra` to `out`.
pub fn append_chars(out: &mut Vec<char>, extra: &Vec<char>)
    ensures
        final(out)@ == old(out)@ + extra@,
{
    let mut i: usize = 0;
    while i < extra.len()
        invariant
            i <= extra.len(),
            out@ == old(out)@ + extra@.subrange(0, i as int),
        decreases extra.len() - i,
    {
        out.push(extra[i]);
        proof {
            assert(out@ =~= old(out)@ + extra@.subrange(0, i + 1 as int));
        }
        i = i + 1;
    }
    proof {
        assert(out@ =~= old(out)@ + extra@);
    }
}

/// Compares two character vectors for equality.
pub fn chars_eq(a: &Vec<char>, b: &Vec<char>) -> (r: bool)
    ensures
        r == (a@ == b@),
{
    if a.len() != b.len() {
        proof {
            assert(a@ != b@);
        }
        return false;
    }
    let mut i: usize = 0;
    while i < a.len()
        invariant
            i <= a.len(),
            a.len() == b.len(),
            forall|j: int| 0 <= j < i ==> a@[j] == b@[j],
        decreases a.len() - i,
    {
        if a[i] != b[i] {
            return false;
        }
        i = i + 1;
    }
    proof {
        assert(a@ =~= b@);
    }
    true
}

/// Decides whether `needle` occurs in `hay` at position `at`.
pub fn matches_at(hay: &Vec<char>, needle: &Vec<char>, at: usize) -> (r: bool)
    requires
        at + needle@.len() <= hay@.len(),
    ensures
        r == occurs_at(hay@, needle@, at as int),
{
    let hay_len = hay.len();
    let needle_len = needle.len();
    let mut i: usize = 0;
    while i < needle_len
        invariant
            i <= needle_len,
            hay_len == hay@.len(),
            needle_len == needle@.len(),
            at + needle@.len() <= hay@.len(),
            forall|j: int| 0 <= j < i ==> hay@[at + j] == needle@[j],
        decreases needle_len - i,
    {
        if hay[at + i] != needle[i] {
            proof {
                let sub = hay@.subrange(at as int, at + needle@.len());
                assert(sub[i as int] != needle@[i as int]);
            }
            return false;
        }
        i = i + 1;
    }
    proof {
        assert(hay@.subrange(at as int, at + needle@.len()) =~= needle@);
    }
    true
}

/// Finds the first occurrence of `needle` in `hay` at or after `from`.
pub fn find_from(hay: &Vec<char>, needle: &Vec<char>, from: usize) -> (r: Option<usize>)
    ensures
        match r {
            Some(i) => {
                &&& from <= i
                &&& occurs_at(hay@, needle@, i as int)
                &&& forall|k: int| from <= k < i ==> !occurs_at(hay@, needle@, k)
            },
            None => forall|k: int| from <= k ==> !occurs_at(hay@, needle@, k),
        },
{
    if needle.len() == 0 {
        if from > hay.len() {
            return None;
        }
        proof {
            assert(hay@.subrange(from as int, from as int) =~= needle@);
        }
        return Some(from);
    }
    if needle.len() > hay.len() {
        return None;
    }
    let hay_len = hay.len();
    let last = hay_len - needle.len();
    if from > last {
        return None;
    }
    let mut i: usize = from;
    while i <= last
        invariant
            from <= i,
            i <= last + 1,
            needle@.len() >= 1,
            hay_len == hay@.len(),
            needle@.len() + last == hay@.len(),
            forall|k: int| from <= k < i ==> !occurs_at(hay@, needle@, k),
        decreases last + 1 - i,
    {
        if matches_at(hay, needle, i) {
            return Some(i);
        }
        i = i + 1;
    }
    None
}

/// Decides whether `needle` occurs anywhere in `hay`.
pub fn contains_chars(hay: &Vec<char>, needle: &Vec<char>) -> (r: bool)
    ensures
        r == contains_seq(hay@, needle@),
{
    match find_from(hay, needle, 0) {
        Some(_) => true,
        None => false,
    }
}

/// An occurrence within the left part of a concatenation is an occurrence in the whole.
pub proof fn lemma_occurs_left<T>(a: Seq<T>, b: Seq<T>, needle: Seq<T>, at: int)
    requires
        occurs_at(a, needle, at),
    ensures
        occurs_at(a + b, needle, at),
{
    assert((a + b).subrange(at, at + needle.len()) =~= a.subrange(at, at + needle.len()));
}

/// An occurrence within the right part of a concatenation is an occurrence in the whole.
pub proof fn lemma_occurs_right<T>(a: Seq<T>, b: Seq<T>, needle: Seq<T>, at: int)
    requires
        occurs_at(b, needle, at),
    ensures
        occurs_at(a + b, needle, a.len() + at),
{
    assert((a + b).subrange(a.len() + at, a.len() + at + needle.len()) =~= b.subrange(
        at,
        at + needle.len(),
    ));
}

/// Containment is preserved on either side of a concatenation.
pub proof fn lemma_contains_concat<T>(a: Seq<T>, b: Seq<T>, needle: Seq<T>)
    requires
        contains_seq(a, needle) || contains_seq(b, needle),
    ensures
        contains_seq(a + b, needle),
{
    if contains_seq(a, needle) {
        let at = choose|at: int| occurs_at(a, needle, at);
        lemma_occurs_left(a, b, needle, at);
    } else {
        let at = choose|at: int| occurs_at(b, needle, at);
        lemma_occurs_right(a, b, needle, at);
    }
}

/// Each character of an occurrence agrees with the needle.
pub proof fn lemma_occurs_index<T>(hay: Seq<T>, needle: Seq<T>, at: int, j: int)
    requires
        occurs_at(hay, needle, at),
        0 <= j < needle.len(),
    ensures
        hay[at + j] == needle[j],
{
    assert(hay.subrange(at, at + needle.len())[j] == needle[j]);
}

/// Containment carries down to any contiguous part of the needle.
pub proof fn lemma_sub_occurrence<T>(hay: Seq<T>, needle: Seq<T>, part: Seq<T>, off: int)
    requires
        contains_seq(hay, needle),
        occurs_at(needle, part, off),
    ensures
        contains_seq(hay, part),
{
    let at = choose|at: int| occurs_at(hay, needle, at);
    assert forall|j: int| 0 <= j < part.len() implies hay[at + off + j] == part[j] by {
        lemma_occurs_index(hay, needle, at, off + j);
        lemma_occurs_index(needle, part, off, j);
    }
    assert(hay.subrange(at + off, at + off + part.len()) =~= part);
    assert(occurs_at(hay, part, at + off));
}

/// True iff the character `c` appears nowhere in `s`.
pub open spec fn lacks_char(s: Seq<char>, c: char) -> bool {
    forall|i: int| 0 <= i < s.len() ==> s[i] != c
}

/// Absence of a character is preserved by concatenation.
pub proof fn lemma_lacks_char_concat(a: Seq<char>, b: Seq<char>, c: char)
    requires
        lacks_char(a, c),
        lacks_char(b, c),
    ensures
        lacks_char(a + b, c),
{
    assert forall|i: int| 0 <= i < (a + b).len() implies (a + b)[i] != c by {
        if i < a.len() {
            assert((a + b)[i] == a[i]);
        } else {
            assert((a + b)[i] == b[i - a.len()]);
        }
    }
}

/// Text lacking some character of the needle cannot contain the needle.
pub proof fn lemma_lacks_char_not_contains(s: Seq<char>, needle: Seq<char>, j: int, c: char)
    requires
        lacks_char(s, c),
        0 <= j < needle.len(),
        needle[j] == c,
    ensures
        !contains_seq(s, needle),
{
    if contains_seq(s, needle) {
        let at = choose|at: int| occurs_at(s, needle, at);
        lemma_occurs_index(s, needle, at, j);
        assert(s[at + j] == c);
    }
}

/// A sequence occurs in itself at position zero.
pub proof fn lemma_occurs_self<T>(s: Seq<T>)
    ensures
        occurs_at(s, s, 0),
        contains_seq(s, s),
{
    assert(s.subrange(0, s.len() as int) =~= s);
    assert(contains_seq(s, s)) by {
        assert(occurs_at(s, s, 0));
    }
}

/// The text of a boolean.
pub open spec fn bool_text(b: bool) -> Seq<char> {
    if b {
        "true"@
    } else {
        "false"@
    }
}

/// Appends the text of a boolean.
pub fn append_bool(out: &mut Vec<char>, b: bool)
    ensures
        final(out)@ == old(out)@ + bool_text(b),
{
    if b {
        append_str(out, "true");
    } else {
        append_str(out, "false");
    }
}

/// The decimal digits of `n`, most significant first.
pub open spec fn dec_digits(n: nat) -> Seq<char>
    decreases n,
{
    if n < 10 {
        seq![digit_char(n)]
    } else {
        dec_digits(n / 10) + seq![digit_char(n % 10)]
    }
}

/// The character for a single decimal digit.
pub open spec fn digit_char(d: nat) -> char {
    if d == 0 {
        '0'
    } else if d == 1 {
        '1'
    } else if d == 2 {
        '2'
    } else if d == 3 {
        '3'
    } else if d == 4 {
        '4'
    } else if d == 5 {
        '5'
    } else if d == 6 {
        '6'
    } else if d == 7 {
        '7'
    } else if d == 8 {
        '8'
    } else {
        '9'
    }
}

/// Renders `n` in decimal, most significant digit first.
pub fn u32_dec_chars(n: u32) -> (r: Vec<char>)
    ensures
        r@ == dec_digits(n as nat),
    decreases n,
{
    let d: u32 = n % 10;
    let c: char = if d == 0 {
        '0'
    } else if d == 1 {
        '1'
    } else if d == 2 {
        '2'
    } else if d == 3 {
        '3'
    } else if d == 4 {
        '4'
    } else if d == 5 {
        '5'
    } else if d == 6 {
        '6'
    } else if d == 7 {
        '7'
    } else if d == 8 {
        '8'
    } else {
        '9'
    };
    proof {
        assert(c == digit_char((n % 10) as nat));
    }
    if n < 10 {
        let mut r: Vec<char> = Vec::new();
        r.push(c);
        proof {
            assert(r@ =~= dec_digits(n as nat));
        }
        r
    } else {
        let mut r = u32_dec_chars(n / 10);
        r.push(c);
        proof {
            assert(r@ =~= dec_digits(n as nat));
        }
        r
    }
}

/// Renders `n` in decimal, most significant digit first.
pub fn usize_dec_chars(n: usize) -> (r: Vec<char>)
    ensures
        r@ == dec_digits(n as nat),
    decreases n,
{
    let d: usize = n % 10;
    let c: char = if d == 0 {
        '0'
    } else if d == 1 {
        '1'
    } else if d == 2 {
        '2'
    } else if d == 3 {
        '3'
    } else if d == 4 {
        '4'
    } else if d == 5 {
        '5'
    } else if d == 6 {
        '6'
    } else if d == 7 {
        '7'
    } else if d == 8 {
        '8'
    } else {
        '9'
    };
    proof {
        assert(c == digit_char((n % 10) as nat));
    }
    if n < 10 {
        let mut r: Vec<char> = Vec::new();
        r.push(c);
        proof {
            assert(r@ =~= dec_digits(n as nat));
        }
        r
    } else {
        let mut r = usize_dec_chars(n / 10);
        r.push(c);
        proof {
            assert(r@ =~= dec_digits(n as nat));
        }
        r
    }
}

} // verus!
