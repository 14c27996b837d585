//! Validators for the wizard's two kinds of answers: field names and
//! single-character option codes.

use vstd::prelude::*;

verus! {

/// A character allowed in a field name: a letter, a digit or an underscore.
pub open spec fn is_word_char(c: char) -> bool {
    ('a' <= c && c <= 'z') || ('A' <= c && c <= 'Z') || ('0' <= c && c <= '9') || c == '_'
}

/// A valid field name is a non-empty run of word characters,
/// i.e. it matches `[_a-zA-Z0-9]+`.
pub open spec fn valid_field_name(s: Seq<char>) -> bool {
    s.len() > 0 && forall|i: int| 0 <= i < s.len() ==> is_word_char(#[trigger] s[i])
}

/// Decides whether `name` is acceptable as a field name.
pub fn is_valid_field_name(name: &str) -> (r: bool)
    ensures
        r == valid_field_name(name@),
{
    let n = name.unicode_len();
    if n == 0 {
        return false;
    }
    for i in 0..n
        invariant
            n == name@.len(),
            forall|j: int| 0 <= j < i ==> is_word_char(#[trigger] name@[j]),
    {
        let c = name.get_char(i);
        if !(('a' <= c && c <= 'z') || ('A' <= c && c <= 'Z') || ('0' <= c && c <= '9') || c
            == '_') {
            return false;
        }
    }
    true
}

/// Checks a field name, reporting the fixed error message on rejection.
pub fn field_name_validate(name: &str) -> (r: Result<(), String>)
    ensures
        r is Ok <==> valid_field_name(name@),
        r matches Err(m) ==> m@ == "Field name must match the pattern [_a-zA-Z0-9]+"@,
{
    if is_valid_field_name(name) {
        Ok(())
    } else {
        Err(field_name_error().to_owned())
    }
}

/// The error message printed when a field name is rejected.
pub fn field_name_error() -> (r: &'static str)
    ensures
        r@ == "Field name must match the pattern [_a-zA-Z0-9]+"@,
{
    "Field name must match the pattern [_a-zA-Z0-9]+"
}

/// ASCII upper-casing of a single character; everything outside `a..z`
/// is returned unchanged.
pub open spec fn upper_char(c: char) -> char {
    if 'a' <= c && c <= 'z' {
        ((c as u8) - 32) as char
    } else {
        c
    }
}

/// Upper-cases one ASCII letter, leaving every other character unchanged.
pub fn ascii_upper(c: char) -> (r: char)
    ensures
        r == upper_char(c),
{
    if 'a' <= c && c <= 'z' {
        ((c as u8) - 32) as char
    } else {
        c
    }
}

/// The normalization an option prompt applies to a raw answer: accepted
/// exactly when the answer is a single character whose upper-cased form is
/// one of the allowed codes, in which case that upper-cased code is the
/// normalized answer.
pub open spec fn option_norm(line: Seq<char>, codes: Seq<char>) -> Option<char> {
    if line.len() == 1 && codes.contains(upper_char(line[0])) {
        Some(upper_char(line[0]))
    } else {
        None
    }
}

/// Law: an option prompt accepts exactly the single-character answers that
/// name an allowed code, in either case, and normalizes the accepted answer
/// to the upper-cased code; every other answer is rejected.
pub proof fn lemma_option_normalizes(line: Seq<char>, codes: Seq<char>)
    ensures
        option_norm(line, codes) matches Some(c) ==> line.len() == 1 && c == upper_char(line[0])
            && codes.contains(c),
        option_norm(line, codes) is None <==> !(line.len() == 1 && codes.contains(
            upper_char(line[0]),
        )),
{
}

/// Validates a single-character option answer against the allowed `codes`,
/// returning the normalized (upper-cased) code when accepted.
pub fn validate_option(entry: &str, codes: &Vec<char>) -> (r: Option<char>)
    ensures
        r == option_norm(entry@, codes@),
{
    if entry.unicode_len() != 1 {
        return None;
    }
    let c = ascii_upper(entry.get_char(0));
    for i in 0..codes.len()
        invariant
            entry@.len() == 1,
            c == upper_char(entry@[0]),
            forall|j: int| 0 <= j < i ==> codes@[j] != c,
    {
        if codes[i] == c {
            assert(codes@.contains(c)) by {
                assert(codes@[i as int] == c);
            }
            return Some(c);
        }
    }
    None
}

} // verus!
