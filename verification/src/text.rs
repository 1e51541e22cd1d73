//! Small operations on text that the other modules share.

use vstd::prelude::*;

verus! {

/// `c` with an ASCII capital letter turned into its small letter.
pub open spec fn ascii_lower(c: char) -> char {
    if 'A' <= c && c <= 'Z' {
        ((c as u8) + 32) as u8 as char
    } else {
        c
    }
}

/// `text` with every ASCII capital letter turned into its small letter.
pub open spec fn ascii_lowercase(text: Seq<char>) -> Seq<char> {
    text.map_values(|c: char| ascii_lower(c))
}

/// Whether `text` holds no ASCII capital letter.
pub open spec fn is_ascii_lowercase(text: Seq<char>) -> bool {
    ascii_lowercase(text) == text
}

/// Text in lower case holds no ASCII capital letter.
pub proof fn lemma_ascii_lowercase_is_lowercase(text: Seq<char>)
    ensures
        is_ascii_lowercase(ascii_lowercase(text)),
{
    assert(ascii_lowercase(ascii_lowercase(text)) =~= ascii_lowercase(text));
}

/// Appends one character to a string, by `String::push`.
#[verifier::external_body]
fn push_char(text: &mut String, c: char)
    ensures
        final(text)@ == old(text)@.push(c),
{
    text.push(c)
}

/// `c`, or its small letter where it is an ASCII capital letter.
pub fn to_ascii_lower(c: char) -> (lower: char)
    ensures
        lower == ascii_lower(c),
{
    if 'A' <= c && c <= 'Z' {
        ((c as u8) + 32u8) as char
    } else {
        c
    }
}

/// A copy of `text` in which every ASCII capital letter is a small letter.
pub fn to_ascii_lowercase(text: &str) -> (lower: String)
    ensures
        lower@ == ascii_lowercase(text@),
        is_ascii_lowercase(lower@),
{
    let n: usize = text.unicode_len();
    let mut lower = String::new();
    let mut i: usize = 0;
    while i < n
        invariant
            n == text@.len(),
            i <= n,
            lower@ == ascii_lowercase(text@.subrange(0, i as int)),
        decreases n - i,
    {
        let c = text.get_char(i);
        push_char(&mut lower, to_ascii_lower(c));
        assert(text@.subrange(0, i + 1) == text@.subrange(0, i as int).push(c));
        assert(lower@ == ascii_lowercase(text@.subrange(0, i + 1)));
        i = i + 1;
    }
    assert(text@.subrange(0, n as int) == text@);
    proof {
        lemma_ascii_lowercase_is_lowercase(text@);
    }
    lower
}

/// Whether two texts are equal once ASCII capital letters count as small.
pub fn eq_ignoring_ascii_case(a: &str, b: &str) -> (same: bool)
    ensures
        same == (ascii_lowercase(a@) == ascii_lowercase(b@)),
{
    let n: usize = a.unicode_len();
    if b.unicode_len() != n {
        assert(ascii_lowercase(a@).len() != ascii_lowercase(b@).len());
        return false;
    }
    let mut i: usize = 0;
    while i < n
        invariant
            n == a@.len(),
            n == b@.len(),
            i <= n,
            forall|k: int| 0 <= k < i ==> ascii_lower(a@[k]) == ascii_lower(b@[k]),
        decreases n - i,
    {
        if to_ascii_lower(a.get_char(i)) != to_ascii_lower(b.get_char(i)) {
            assert(ascii_lowercase(a@)[i as int] != ascii_lowercase(b@)[i as int]);
            return false;
        }
        i = i + 1;
    }
    assert(ascii_lowercase(a@) =~= ascii_lowercase(b@));
    true
}

/// `text` without its first character; the empty text stays empty.
pub open spec fn rest_after_first(text: Seq<char>) -> Seq<char> {
    if text.len() == 0 {
        text
    } else {
        text.subrange(1, text.len() as int)
    }
}

/// A copy of `text` without its first character; the empty text stays empty.
pub fn without_first_char(text: &str) -> (rest: String)
    ensures
        rest@ == rest_after_first(text@),
{
    let n: usize = text.unicode_len();
    if n == 0 {
        String::from_str(text)
    } else {
        String::from_str(text.substring_char(1, n))
    }
}

/// A copy of a byte vector.
pub fn copy_bytes(bytes: &Vec<u8>) -> (copy: Vec<u8>)
    ensures
        copy@ == bytes@,
{
    let copy = bytes.clone();
    assert(copy@ =~= bytes@);
    copy
}

} // verus!
