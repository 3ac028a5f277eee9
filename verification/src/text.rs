//! Small helpers for building and comparing text.
use vstd::prelude::*;
use vstd::string::*;

verus! {

/// `String::push` appends the character to the end of the string and leaves
/// every earlier character in place.
pub assume_specification[ std::string::String::push ](s: &mut std::string::String, c: char)
    ensures
        final(s)@ == old(s)@.push(c),
;

/// The string holding exactly the given characters, in order.
pub fn collect_chars(chars: &Vec<char>) -> (s: String)
    ensures
        s@ == chars@,
{
    let mut s = String::new();
    let mut i: usize = 0;
    while i < chars.len()
        invariant
            i <= chars.len(),
            s@ == chars@.take(i as int),
        decreases chars.len() - i,
    {
        s.push(chars[i]);
        i += 1;
        assert(chars@.take(i as int) =~= chars@.take(i - 1).push(chars@[i - 1]));
    }
    assert(chars@.take(chars.len() as int) =~= chars@);
    s
}

/// Whether the characters spell exactly `text`.
pub fn same_text(chars: &Vec<char>, text: &str) -> (r: bool)
    ensures
        r == (chars@ == text@),
{
    let n: usize = text.unicode_len();
    if chars.len() != n {
        return false;
    }
    let mut i: usize = 0;
    while i < n
        invariant
            i <= n,
            n == chars@.len(),
            n == text@.len(),
            chars@.take(i as int) == text@.take(i as int),
        decreases n - i,
    {
        if chars[i] != text.get_char(i) {
            return false;
        }
        i += 1;
        assert(chars@.take(i as int) =~= chars@.take(i - 1).push(chars@[i - 1]));
        assert(text@.take(i as int) =~= text@.take(i - 1).push(text@[i - 1]));
    }
    assert(chars@.take(n as int) =~= chars@);
    assert(text@.take(n as int) =~= text@);
    true
}

/// The characters of a string, in order.
pub fn chars_of(text: &str) -> (chars: Vec<char>)
    ensures
        chars@ == text@,
{
    let n: usize = text.unicode_len();
    let mut chars: Vec<char> = Vec::new();
    let mut i: usize = 0;
    while i < n
        invariant
            i <= n,
            n == text@.len(),
            chars@ == text@.take(i as int),
        decreases n - i,
    {
        chars.push(text.get_char(i));
        i += 1;
        assert(text@.take(i as int) =~= text@.take(i - 1).push(text@[i - 1]));
    }
    assert(text@.take(n as int) =~= text@);
    chars
}

/// The character that writes the digit `d` in bases up to sixteen, lower case.
pub open spec fn digit_char(d: nat) -> char {
    if d == 0 {
        '0'
    } else if d == 1 {
        '1'
    } else if d == 2 {
        '2'
    } else if d == 3 {
        '3'
    } else if d == 4 {
        '4'
    } else if d == 5 {
        '5'
    } else if d == 6 {
        '6'
    } else if d == 7 {
        '7'
    } else if d == 8 {
        '8'
    } else if d == 9 {
        '9'
    } else if d == 10 {
        'a'
    } else if d == 11 {
        'b'
    } else if d == 12 {
        'c'
    } else if d == 13 {
        'd'
    } else if d == 14 {
        'e'
    } else {
        'f'
    }
}

/// The decimal notation of `n`, most significant digit first and without
/// leading zeros; zero is written `0`.
pub open spec fn decimal_text(n: nat) -> Seq<char>
    decreases n,
{
    if n < 10 {
        seq![digit_char(n)]
    } else {
        decimal_text(n / 10).push(digit_char(n % 10))
    }
}

/// The lower-case hexadecimal notation of `n`, without leading zeros; zero is
/// written `0`.
pub open spec fn hex_text(n: nat) -> Seq<char>
    decreases n,
{
    if n < 16 {
        seq![digit_char(n)]
    } else {
        hex_text(n / 16).push(digit_char(n % 16))
    }
}

fn digit_to_char(d: usize) -> (c: char)
    requires
        d < 16,
    ensures
        c == digit_char(d as nat),
{
    if d == 0 {
        '0'
    } else if d == 1 {
        '1'
    } else if d == 2 {
        '2'
    } else if d == 3 {
        '3'
    } else if d == 4 {
        '4'
    } else if d == 5 {
        '5'
    } else if d == 6 {
        '6'
    } else if d == 7 {
        '7'
    } else if d == 8 {
        '8'
    } else if d == 9 {
        '9'
    } else if d == 10 {
        'a'
    } else if d == 11 {
        'b'
    } else if d == 12 {
        'c'
    } else if d == 13 {
        'd'
    } else if d == 14 {
        'e'
    } else {
        'f'
    }
}

/// Appends the decimal notation of `n` to `s`.
pub fn push_decimal(s: &mut String, n: usize)
    ensures
        final(s)@ == old(s)@ + decimal_text(n as nat),
    decreases n,
{
    if n >= 10 {
        push_decimal(s, n / 10);
    }
    s.push(digit_to_char(n % 10));
    assert(s@ =~= old(s)@ + decimal_text(n as nat));
}

/// Appends the lower-case hexadecimal notation of `n` to `s`.
pub fn push_hex(s: &mut String, n: u8)
    ensures
        final(s)@ == old(s)@ + hex_text(n as nat),
    decreases n,
{
    if n >= 16 {
        push_hex(s, n / 16);
    }
    s.push(digit_to_char((n % 16) as usize));
    assert(s@ =~= old(s)@ + hex_text(n as nat));
}

/// The last segment of a dotted path: what follows its last dot, or all of it
/// where it holds no dot.
pub open spec fn last_segment(path: Seq<char>) -> Seq<char>
    decreases path.len(),
{
    if path.len() == 0 || path.last() == '.' {
        Seq::<char>::empty()
    } else {
        last_segment(path.drop_last()).push(path.last())
    }
}

/// The last segment of a dotted path.
pub fn last_segment_of(path: &Vec<char>) -> (r: Vec<char>)
    ensures
        r@ == last_segment(path@),
{
    let mut start: usize = path.len();
    proof {
        assert(path@.take(start as int) =~= path@);
        assert(last_segment(path@) + path@.skip(start as int) =~= last_segment(path@));
    }
    while start > 0 && path[start - 1] != '.'
        invariant
            start <= path@.len(),
            last_segment(path@) == last_segment(path@.take(start as int)) + path@.skip(start as int),
        decreases start,
    {
        proof {
            let head = path@.take(start as int);
            assert(head.drop_last() =~= path@.take(start - 1));
            assert(last_segment(head) == last_segment(head.drop_last()).push(head.last()));
            assert(last_segment(head.drop_last()).push(head.last()) + path@.skip(start as int)
                =~= last_segment(head.drop_last()) + path@.skip(start - 1));
        }
        start -= 1;
    }
    proof {
        if start == 0 {
            assert(path@.take(0) =~= Seq::<char>::empty());
        }
        assert(last_segment(path@.take(start as int)) =~= Seq::<char>::empty());
        assert(path@.take(path@.len() as int) =~= path@);
    }
    let mut r: Vec<char> = Vec::new();
    let mut i: usize = start;
    while i < path.len()
        invariant
            start <= i <= path@.len(),
            r@ == path@.subrange(start as int, i as int),
        decreases path@.len() - i,
    {
        r.push(path[i]);
        i += 1;
        assert(r@ =~= path@.subrange(start as int, i as int));
    }
    assert(r@ =~= Seq::<char>::empty() + path@.skip(start as int));
    r
}

} // verus!
