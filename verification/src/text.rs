//! Character-level helpers shared by the rest of the library.

use vstd::prelude::*;

verus! {

/// Lower-cases an ASCII letter and leaves every other character alone.
pub open spec fn ascii_lower(c: char) -> char {
    if 'A' <= c && c <= 'Z' {
        ((c as u32) + 32) as char
    } else {
        c
    }
}

/// `s` equals `lower_target` once its ASCII letters are lower-cased.
///
/// When `lower_target` is made of lower-case ASCII letters other than `k`,
/// this is exactly `s.to_lowercase() == lower_target`: outside `A..=Z`, the
/// only character whose lower-case form is a single ASCII letter is the
/// Kelvin sign, which becomes `k`; every other character either keeps its
/// form or lower-cases to something that is not an ASCII letter alone.
pub open spec fn ascii_case_equal(s: Seq<char>, lower_target: Seq<char>) -> bool {
    &&& s.len() == lower_target.len()
    &&& forall|i: int| 0 <= i < s.len() ==> #[trigger] ascii_lower(s[i]) == lower_target[i]
}

/// Appends one character to a string (`String::push`).
#[verifier::external_body]
pub(crate) fn push_char(s: &mut String, c: char)
    ensures
        final(s)@ == old(s)@.push(c),
{
    s.push(c);
}

/// Appends the characters of `t` to `s`.
pub(crate) fn push_text(s: &mut String, t: &str)
    ensures
        final(s)@ == old(s)@ + t@,
{
    s.append(t);
}

/// A fresh string holding the characters of `t`.
pub(crate) fn owned(t: &str) -> (res: String)
    ensures
        res@ == t@,
{
    String::from_str(t)
}

/// The characters of `s`, in order.
pub fn chars_of(s: &str) -> (res: Vec<char>)
    ensures
        res@ == s@,
{
    let mut res: Vec<char> = Vec::new();
    for c in it: s.chars()
        invariant
            res@ == it.seq().take(it.index() as int),
    {
        res.push(c);
    }
    res
}

/// Lower-cases an ASCII letter.
pub fn lower_ascii_char(c: char) -> (res: char)
    ensures
        res == ascii_lower(c),
{
    if 'A' <= c && c <= 'Z' {
        let b: u8 = c as u8;
        assert(b as u32 == c as u32);
        let l: u8 = b + 32;
        (l as char)
    } else {
        c
    }
}

/// Compares `s` with `lower_target` ignoring the case of ASCII letters in `s`.
pub fn ascii_case_equals(s: &str, lower_target: &str) -> (res: bool)
    ensures
        res == ascii_case_equal(s@, lower_target@),
{
    let a = chars_of(s);
    let b = chars_of(lower_target);
    if a.len() != b.len() {
        return false;
    }
    let mut i: usize = 0;
    while i < a.len()
        invariant
            a@ == s@,
            b@ == lower_target@,
            a.len() == b.len(),
            i <= a.len(),
            forall|j: int| 0 <= j < i ==> #[trigger] ascii_lower(a@[j]) == b@[j],
        decreases a.len() - i,
    {
        if lower_ascii_char(a[i]) != b[i] {
            return false;
        }
        i = i + 1;
    }
    true
}

} // verus!

verus! {

/// Whether two texts hold the same characters.
pub fn text_equals(a: &str, b: &str) -> (res: bool)
    ensures
        res == (a@ == b@),
{
    let x = chars_of(a);
    let y = chars_of(b);
    if x.len() != y.len() {
        return false;
    }
    let mut i: usize = 0;
    while i < x.len()
        invariant
            x@ == a@,
            y@ == b@,
            x.len() == y.len(),
            i <= x.len(),
            forall|j: int| 0 <= j < i ==> x@[j] == y@[j],
        decreases x.len() - i,
    {
        if x[i] != y[i] {
            return false;
        }
        i = i + 1;
    }
    assert(x@ =~= y@);
    true
}

} // verus!
