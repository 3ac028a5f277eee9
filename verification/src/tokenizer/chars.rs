//! Character classes that the tokenizer dispatches on.
use vstd::prelude::*;

verus! {

/// Whether `c` has the Unicode property `White_Space`.
pub uninterp spec fn char_is_whitespace(c: char) -> bool;

/// Whether `c` has the Unicode property `Alphabetic`.
pub uninterp spec fn char_is_alphabetic(c: char) -> bool;

/// Whether `c` is in one of the Unicode general categories for numbers.
pub uninterp spec fn char_is_numeric(c: char) -> bool;

/// `char::is_whitespace` tells whether the character has the `White_Space`
/// property; the answer depends on the character alone.
pub assume_specification[ char::is_whitespace ](c: char) -> (r: bool)
    ensures
        r == char_is_whitespace(c),
;

/// `char::is_alphabetic` tells whether the character has the `Alphabetic`
/// property; the answer depends on the character alone.
pub assume_specification[ char::is_alphabetic ](c: char) -> (r: bool)
    ensures
        r == char_is_alphabetic(c),
;

/// `char::is_numeric` tells whether the character is in a general category
/// for numbers; the answer depends on the character alone.
pub assume_specification[ std::primitive::char::is_numeric ](c: char) -> (r: bool)
    ensures
        r == char_is_numeric(c),
;

/// Whether `c` is in the ASCII range.
pub open spec fn is_ascii_char(c: char) -> bool {
    c <= '\u{7f}'
}

/// Whether `c` is whitespace. In the ASCII range these are the space and the
/// control characters from the tab to the carriage return, the newline among
/// them; beyond it, the characters with the `White_Space` property.
pub open spec fn spec_is_space(c: char) -> bool {
    if is_ascii_char(c) {
        c == ' ' || ('\u{9}' <= c && c <= '\u{d}')
    } else {
        char_is_whitespace(c)
    }
}

/// Whether `c` is a letter. In the ASCII range these are `a` to `z` and `A`
/// to `Z`; beyond it, the characters with the `Alphabetic` property.
pub open spec fn spec_is_letter(c: char) -> bool {
    if is_ascii_char(c) {
        ('a' <= c && c <= 'z') || ('A' <= c && c <= 'Z')
    } else {
        char_is_alphabetic(c)
    }
}

/// Whether `c` is a numeric character. In the ASCII range these are `0` to
/// `9`; beyond it, the characters of the general categories for numbers.
pub open spec fn spec_is_number(c: char) -> bool {
    if is_ascii_char(c) {
        '0' <= c && c <= '9'
    } else {
        char_is_numeric(c)
    }
}

/// Whether `c` is whitespace.
pub fn is_space(c: char) -> (r: bool)
    ensures
        r == spec_is_space(c),
{
    if c <= '\u{7f}' {
        c == ' ' || ('\u{9}' <= c && c <= '\u{d}')
    } else {
        c.is_whitespace()
    }
}

/// Whether `c` is a letter.
pub fn is_letter(c: char) -> (r: bool)
    ensures
        r == spec_is_letter(c),
{
    if c <= '\u{7f}' {
        ('a' <= c && c <= 'z') || ('A' <= c && c <= 'Z')
    } else {
        c.is_alphabetic()
    }
}

/// Whether `c` is a numeric character.
pub fn is_number(c: char) -> (r: bool)
    ensures
        r == spec_is_number(c),
{
    if c <= '\u{7f}' {
        '0' <= c && c <= '9'
    } else {
        c.is_numeric()
    }
}

/// The value of `c` as a digit: `0` to `9`, then the letters, in either case,
/// from ten up.
pub open spec fn digit_value(c: char) -> Option<nat> {
    if '0' <= c && c <= '9' {
        Some((c as nat - '0' as nat) as nat)
    } else if 'a' <= c && c <= 'z' {
        Some((c as nat - 'a' as nat + 10) as nat)
    } else if 'A' <= c && c <= 'Z' {
        Some((c as nat - 'A' as nat + 10) as nat)
    } else {
        None
    }
}

/// Whether `c` is a digit of the given base.
pub open spec fn spec_is_numeric(c: char, base: nat) -> bool {
    digit_value(c) is Some && digit_value(c)->0 < base
}

/// The value of `c` as a digit, where it is one.
pub fn digit_of(c: char) -> (d: Option<u32>)
    ensures
        d is Some == digit_value(c) is Some,
        d is Some ==> d->0 == digit_value(c)->0 && d->0 < 36,
{
    if '0' <= c && c <= '9' {
        Some(c as u32 - '0' as u32)
    } else if 'a' <= c && c <= 'z' {
        Some(c as u32 - 'a' as u32 + 10)
    } else if 'A' <= c && c <= 'Z' {
        Some(c as u32 - 'A' as u32 + 10)
    } else {
        None
    }
}

/// Whether `c` is a digit of the given base.
pub fn is_numeric(c: char, base: u32) -> (r: bool)
    ensures
        r == spec_is_numeric(c, base as nat),
{
    match digit_of(c) {
        Some(d) => d < base,
        None => false,
    }
}

/// Whether an operator token can begin with `c`.
pub open spec fn spec_is_operator(c: char) -> bool {
    c == '+' || c == '-' || c == '/' || c == '*' || c == '%' || c == '!' || c == '&' || c == '|'
        || c == '^' || c == '=' || c == '<' || c == '>'
}

/// Whether an operator token can begin with `c`.
pub fn is_operator(c: char) -> (r: bool)
    ensures
        r == spec_is_operator(c),
{
    c == '+' || c == '-' || c == '/' || c == '*' || c == '%' || c == '!' || c == '&' || c == '|'
        || c == '^' || c == '=' || c == '<' || c == '>'
}

/// Whether `c` can begin an identifier or a keyword.
pub open spec fn is_ident_start(c: char) -> bool {
    c == '_' || spec_is_letter(c)
}

/// Whether `c` can continue an identifier or a keyword.
pub open spec fn is_ident_char(c: char) -> bool {
    spec_is_letter(c) || spec_is_number(c) || c == '_'
}

/// Whether `c` can continue an identifier or a keyword.
pub fn is_word_char(c: char) -> (r: bool)
    ensures
        r == is_ident_char(c),
{
    is_letter(c) || is_number(c) || c == '_'
}

} // verus!
