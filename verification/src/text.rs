//! Plain-text helpers: the characters of a text, ASCII classes and case folding.

use vstd::prelude::*;
use vstd::string::*;

verus! {

/// Whether `c` is one of the hexadecimal digits, in either case.
pub open spec fn is_hex_digit(c: char) -> bool {
    ('0' <= c <= '9') || ('a' <= c <= 'f') || ('A' <= c <= 'F')
}

/// The characters of `s`, in order.
pub fn chars_of(s: &str) -> (chars: Vec<char>)
    ensures
        chars@ == s@,
{
    let mut chars: Vec<char> = Vec::new();
    for c in it: s.chars()
        invariant
            chars@ == it.seq().take(it.index() as int),
            it.seq() == s@,
    {
        chars.push(c);
    }
    chars
}

/// `String::push` appends one character to the end of the string.
pub assume_specification[ String::push ](s: &mut String, c: char)
    ensures
        final(s)@ == old(s)@.push(c),
;

/// A string made of the characters `chars`, in order.
pub fn string_of(chars: &Vec<char>) -> (s: String)
    ensures
        s@ == chars@,
{
    let mut s = String::new();
    let mut index: usize = 0;
    while index < chars.len()
        invariant
            index <= chars.len(),
            s@ == chars@.take(index as int),
        decreases chars.len() - index,
    {
        s.push(chars[index]);
        assert(chars@.take(index as int).push(chars@[index as int]) =~= chars@.take(index + 1));
        index += 1;
    }
    assert(chars@.take(chars.len() as int) =~= chars@);
    s
}

/// `first` followed by `second`.
pub fn join_text(first: &str, second: &str) -> (s: String)
    ensures
        s@ == first@ + second@,
{
    let mut s = String::from_str(first);
    s.append(second);
    s
}

/// Compares two byte strings.
pub fn same_bytes(left: &[u8], right: &[u8]) -> (same: bool)
    ensures
        same == (left@ == right@),
{
    if left.len() != right.len() {
        return false;
    }
    let mut index: usize = 0;
    while index < left.len()
        invariant
            index <= left.len(),
            left.len() == right.len(),
            forall|i: int| 0 <= i < index ==> left@[i] == right@[i],
        decreases left.len() - index,
    {
        if left[index] != right[index] {
            return false;
        }
        index += 1;
    }
    assert(left@ =~= right@);
    true
}

/// `c` with an upper-case ASCII letter replaced by its lower-case form.
pub open spec fn lower_ascii(c: char) -> char {
    if 'A' <= c <= 'Z' {
        ((c as u8) + 32) as char
    } else {
        c
    }
}

/// `s` with every upper-case ASCII letter replaced by its lower-case form.
pub open spec fn fold_ascii_case(s: Seq<char>) -> Seq<char> {
    Seq::new(s.len(), |i: int| lower_ascii(s[i]))
}

/// Lower-cases one character where it is an upper-case ASCII letter.
pub fn to_lower_ascii(c: char) -> (lowered: char)
    ensures
        lowered == lower_ascii(c),
{
    if 'A' <= c && c <= 'Z' {
        ((c as u8) + 32) as char
    } else {
        c
    }
}

/// Compares two texts without regard to the case of ASCII letters.
pub fn eq_ignore_ascii_case(left: &str, right: &str) -> (same: bool)
    ensures
        same == (fold_ascii_case(left@) == fold_ascii_case(right@)),
{
    let a = chars_of(left);
    let b = chars_of(right);
    if a.len() != b.len() {
        assert(fold_ascii_case(left@).len() != fold_ascii_case(right@).len());
        return false;
    }
    let mut index: usize = 0;
    while index < a.len()
        invariant
            index <= a.len(),
            a.len() == b.len(),
            a@ == left@,
            b@ == right@,
            forall|i: int| 0 <= i < index ==> lower_ascii(a@[i]) == lower_ascii(b@[i]),
        decreases a.len() - index,
    {
        if to_lower_ascii(a[index]) != to_lower_ascii(b[index]) {
            assert(fold_ascii_case(left@)[index as int] != fold_ascii_case(right@)[index as int]);
            return false;
        }
        index += 1;
    }
    assert(fold_ascii_case(left@) =~= fold_ascii_case(right@));
    true
}

} // verus!
