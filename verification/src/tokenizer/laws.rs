//! What holds of every read of a token stream.
use crate::tokenizer::chars::{
    is_ident_start, spec_is_number, spec_is_operator, spec_is_space,
};
use crate::tokenizer::decoder::Item;
use crate::tokenizer::error::ReadError;
use crate::tokenizer::error::ErrorModel;
use crate::tokenizer::model::{
    column_after, digits_end, ident_end, is_empty, lemma_advance_add, lemma_advance_zero,
    lemma_digits_end_bounds, line_after, next_token, number_base, number_first, peek,
    punctuation_value, read_char_close, read_char_literal, read_escape, read_ident, read_number,
    read_operator, read_string_from, read_token, StreamModel,
};
use crate::tokenizer::token::TokenModel;
use vstd::prelude::*;

verus! {

/// Whether `rest` is what is left of the stream `s` after some of its
/// pending items were consumed, with the position moved over exactly those
/// items.
pub open spec fn consumes(s: StreamModel, rest: StreamModel) -> bool {
    &&& rest.pending.len() <= s.pending.len()
    &&& rest == s.advance((s.pending.len() - rest.pending.len()) as nat)
}

/// How much of a stream is left to read: a pending item counts twice, the
/// token set aside once, so that both a read and a peek that reads count.
pub open spec fn measure(s: StreamModel) -> nat {
    2 * s.pending.len() + if s.cached is Some {
        1nat
    } else {
        0nat
    }
}

/// The number of newlines among the items.
pub open spec fn newline_count(items: Seq<Item>) -> nat
    decreases items.len(),
{
    if items.len() == 0 {
        0
    } else {
        newline_count(items.drop_last()) + if items.last() == Ok::<char, ReadError>('\n') {
            1nat
        } else {
            0nat
        }
    }
}

/// The number of characters among the items that stand after the last
/// newline.
pub open spec fn chars_since_newline(items: Seq<Item>) -> nat
    decreases items.len(),
{
    if items.len() == 0 || items.last() == Ok::<char, ReadError>('\n') {
        0
    } else {
        chars_since_newline(items.drop_last()) + if items.last() is Ok {
            1nat
        } else {
            0nat
        }
    }
}

/// Consuming items moves the line by the number of newlines among them, and
/// by nothing else. The column is 1 after a newline and counts the
/// characters consumed since the last newline; without a newline it counts
/// on from where it was.
pub proof fn lemma_position_after(line: nat, column: nat, items: Seq<Item>)
    ensures
        line_after(line, items) == line + newline_count(items),
        newline_count(items) == 0 ==> column_after(column, items) == column + chars_since_newline(
            items,
        ),
        newline_count(items) > 0 ==> column_after(column, items) == 1 + chars_since_newline(items),
    decreases items.len(),
{
    if items.len() > 0 {
        lemma_position_after(line, column, items.drop_last());
    }
}

/// The position after a read follows from the items that the read consumed.
pub proof fn lemma_consumed_position(s: StreamModel, rest: StreamModel)
    requires
        consumes(s, rest),
    ensures
        ({
            let consumed = s.pending.take(s.pending.len() - rest.pending.len());
            &&& s.pending == consumed + rest.pending
            &&& rest.line == s.line + newline_count(consumed)
            &&& newline_count(consumed) == 0 ==> rest.column == s.column + chars_since_newline(
                consumed,
            )
            &&& newline_count(consumed) > 0 ==> rest.column == 1 + chars_since_newline(consumed)
            &&& rest.path == s.path
            &&& rest.cached == s.cached
        }),
{
    let n = s.pending.len() - rest.pending.len();
    let consumed = s.pending.take(n);
    lemma_position_after(s.line, s.column, consumed);
    assert(s.pending =~= consumed + s.pending.skip(n));
}

proof fn lemma_consumes_trans(a: StreamModel, b: StreamModel, c: StreamModel)
    requires
        consumes(a, b),
        consumes(b, c),
    ensures
        consumes(a, c),
{
    lemma_advance_add(
        a,
        (a.pending.len() - b.pending.len()) as nat,
        (b.pending.len() - c.pending.len()) as nat,
    );
}

proof fn lemma_ident_end_bounds(items: Seq<Item>, i: nat)
    requires
        i <= items.len(),
    ensures
        i <= ident_end(items, i) <= items.len(),
    decreases items.len() - i,
{
    if i < items.len() && ident_end(items, i) != i {
        lemma_ident_end_bounds(items, i + 1);
    }
}

proof fn lemma_read_ident(s: StreamModel)
    ensures
        consumes(s, read_ident(s).1),
        read_ident(s).0 is Some,
        s.pending.len() > 0 && s.pending[0] is Ok && is_ident_start(s.pending[0]->Ok_0)
            ==> read_ident(s).1.pending.len() < s.pending.len(),
{
    lemma_ident_end_bounds(s.pending, 0);
    if s.pending.len() > 0 {
        lemma_ident_end_bounds(s.pending, 1);
    }
}

proof fn lemma_read_number(s: StreamModel)
    ensures
        consumes(s, read_number(s).1),
        read_number(s).0 is Some,
        s.pending.len() > 0 && s.pending[0] is Ok && spec_is_number(s.pending[0]->Ok_0)
            ==> read_number(s).1.pending.len() < s.pending.len(),
{
    let items = s.pending;
    let base = number_base(items);
    let first = number_first(items);
    lemma_digits_end_bounds(items, first, base);
    let whole_end = digits_end(items, first, base);
    if whole_end < items.len() {
        lemma_digits_end_bounds(items, whole_end + 1, 10);
    }
}

proof fn lemma_read_escape(s: StreamModel)
    ensures
        consumes(s, read_escape(s).1),
        read_escape(s).0 is Ok ==> read_escape(s).1.pending.len() < s.pending.len(),
{
    lemma_advance_zero(s);
}

proof fn lemma_read_string_from(s: StreamModel, decoded: Seq<char>, line: nat, column: nat)
    ensures
        consumes(s, read_string_from(s, decoded, line, column).1),
        read_string_from(s, decoded, line, column).0 is Some,
    decreases s.pending.len(),
{
    lemma_advance_zero(s);
    match s.first() {
        Some(Ok(c)) => {
            if c == '"' || c == '\n' {
            } else if c == '\\' {
                lemma_read_escape(s.advance(1));
                let (r, rest) = read_escape(s.advance(1));
                lemma_consumes_trans(s, s.advance(1), rest);
                match r {
                    Ok(d) => {
                        lemma_read_string_from(rest, decoded.push(d), line, column);
                        lemma_consumes_trans(
                            s,
                            rest,
                            read_string_from(rest, decoded.push(d), line, column).1,
                        );
                    },
                    Err(_) => {},
                }
            } else {
                lemma_read_string_from(s.advance(1), decoded.push(c), line, column);
                lemma_consumes_trans(
                    s,
                    s.advance(1),
                    read_string_from(s.advance(1), decoded.push(c), line, column).1,
                );
            }
        },
        _ => {},
    }
}

proof fn lemma_read_char_close(s: StreamModel, c: char, line: nat, column: nat)
    ensures
        consumes(s, read_char_close(s, c, line, column).1),
        read_char_close(s, c, line, column).0 is Some,
{
    lemma_advance_zero(s);
}

proof fn lemma_read_char_literal(s: StreamModel, line: nat, column: nat)
    ensures
        consumes(s, read_char_literal(s, line, column).1),
        read_char_literal(s, line, column).0 is Some,
{
    lemma_advance_zero(s);
    match s.first() {
        Some(Ok(c)) => {
            if c == '\'' {
            } else if c == '\\' {
                lemma_read_escape(s.advance(1));
                let (r, rest) = read_escape(s.advance(1));
                lemma_consumes_trans(s, s.advance(1), rest);
                match r {
                    Ok(d) => {
                        lemma_read_char_close(rest, d, line, column);
                        lemma_consumes_trans(s, rest, read_char_close(rest, d, line, column).1);
                    },
                    Err(_) => {},
                }
            } else {
                lemma_read_char_close(s.advance(1), c, line, column);
                lemma_consumes_trans(
                    s,
                    s.advance(1),
                    read_char_close(s.advance(1), c, line, column).1,
                );
            }
        },
        _ => {},
    }
}

proof fn lemma_read_operator(s: StreamModel)
    ensures
        consumes(s, read_operator(s).1),
        s.pending.len() > 0 ==> read_operator(s).0 is Some && read_operator(s).1.pending.len()
            < s.pending.len(),
{
    lemma_advance_zero(s);
}

/// Reading a token consumes a prefix of the pending items and moves the
/// position over exactly that prefix. A read that gives a token or an error
/// consumes at least one item; a read that finds the end of the input leaves
/// no item behind.
pub proof fn lemma_read_token_advances(s: StreamModel)
    ensures
        consumes(s, read_token(s).1),
        read_token(s).0 is Some ==> read_token(s).1.pending.len() < s.pending.len(),
        read_token(s).0 is None ==> read_token(s).1.pending.len() == 0,
    decreases s.pending.len(),
{
    lemma_advance_zero(s);
    match s.first() {
        Some(Ok(c)) => {
            if c == '\n' {
            } else if spec_is_space(c) {
                lemma_read_token_advances(s.advance(1));
                lemma_consumes_trans(s, s.advance(1), read_token(s.advance(1)).1);
            } else if is_ident_start(c) {
                lemma_read_ident(s);
            } else if spec_is_number(c) {
                lemma_read_number(s);
            } else if punctuation_value(c) is Some {
            } else if c == '"' {
                lemma_read_string_from(s.advance(1), Seq::<char>::empty(), s.line, s.column);
                lemma_consumes_trans(
                    s,
                    s.advance(1),
                    read_string_from(s.advance(1), Seq::<char>::empty(), s.line, s.column).1,
                );
            } else if c == '\'' {
                lemma_read_char_literal(s.advance(1), s.line, s.column);
                lemma_consumes_trans(
                    s,
                    s.advance(1),
                    read_char_literal(s.advance(1), s.line, s.column).1,
                );
            } else if spec_is_operator(c) {
                lemma_read_operator(s);
            } else {
            }
        },
        _ => {},
    }
}

/// `next_token` and `peek` consume a prefix of the pending items, which is
/// empty where a token was set aside, and move the position over exactly
/// that prefix: apart from the token set aside, what they leave is the
/// stream advanced over what they consumed.
pub proof fn lemma_reads_advance(s: StreamModel)
    ensures
        consumes(s.with_cached(None), next_token(s).1.with_cached(None)),
        consumes(s.with_cached(None), peek(s).1.with_cached(None)),
        s.cached is Some ==> next_token(s).1.pending == s.pending && peek(s).1 == s,
{
    lemma_read_token_advances(s);
    lemma_advance_zero(s.with_cached(None));
    lemma_advance_zero(s);
}

/// A read never gives back what was consumed: what is left after
/// `next_token` and after `peek` is no more than before, and strictly less
/// after a `next_token` that returned a token or an error.
pub proof fn lemma_reads_shrink(s: StreamModel)
    ensures
        measure(next_token(s).1) <= measure(s),
        next_token(s).0 is Some ==> measure(next_token(s).1) < measure(s),
        measure(peek(s).1) <= measure(s),
        peek(s).0 is Some && peek(s).0->0 is Ok ==> peek(s).1.cached == Some(peek(s).0->0->Ok_0),
        next_token(s).0 is None ==> is_empty(next_token(s).1),
        peek(s).0 is None ==> is_empty(peek(s).1),
        next_token(s).1.path == s.path,
        peek(s).1.path == s.path,
{
    lemma_read_token_advances(s);
}

/// `peek` is idempotent. When it returns a token, a second `peek` and then
/// `next_token` return the same token, and neither `peek` changes the stream
/// that the first one left. The read after that takes a new token from the
/// input.
pub proof fn lemma_peek_idempotent(s: StreamModel)
    requires
        peek(s).0 is Some,
        peek(s).0->0 is Ok,
    ensures
        ({
            let (first, s1) = peek(s);
            let (second, s2) = peek(s1);
            let (third, s3) = next_token(s2);
            &&& second == first
            &&& s2 == s1
            &&& third == first
            &&& s3 == s1.with_cached(None)
            &&& next_token(s3) == read_token(s3)
            &&& consumes(s3, next_token(s3).1)
            &&& next_token(s3).0 is Some ==> next_token(s3).1.pending.len() < s3.pending.len()
        }),
{
    let (first, s1) = peek(s);
    lemma_read_token_advances(s1.with_cached(None));
}

/// At the end of the input `peek` and `next_token` keep returning the end
/// marker and leave the stream as it is.
pub proof fn lemma_end_is_final(s: StreamModel)
    requires
        is_empty(s),
    ensures
        next_token(s) == (None::<Result<TokenModel, ErrorModel>>, s),
        peek(s) == (None::<Result<TokenModel, ErrorModel>>, s),
{
}

} // verus!
