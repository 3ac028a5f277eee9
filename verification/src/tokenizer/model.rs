//! What the tokenizer computes, stated over sequences of decoded items.
//!
//! A stream is the sequence of items still to be read, the position of the
//! first of them, and the token that a `peek` has set aside. Reading a token
//! consumes a prefix of the pending items; every position follows from the
//! items consumed.
use crate::tokenizer::chars::{
    digit_value, is_ident_char, is_ident_start, spec_is_number, spec_is_numeric, spec_is_operator,
    spec_is_space,
};
use crate::tokenizer::decoder::Item;
use crate::tokenizer::error::{ErrorKind, ErrorModel, ReadError};
use crate::tokenizer::token::{
    token_at, AssignOperator, BinaryOperator, ComparisonOperator, TokenModel, TokenValueModel,
    UnaryOperator,
};
use vstd::prelude::*;

verus! {

/// Mathematical value of a token stream.
pub ghost struct StreamModel {
    /// The path that tokens and errors are labelled with.
    pub path: Seq<char>,
    /// The items that have not been consumed yet, in reading order.
    pub pending: Seq<Item>,
    /// Line of the first pending item, 1-based.
    pub line: nat,
    /// Column of the first pending item, 1-based.
    pub column: nat,
    /// The token that `peek` returned and `next_token` has not taken yet.
    pub cached: Option<TokenModel>,
}

/// What one read gives: the token or error or end marker, and the stream
/// that is left.
pub type Reading = (Option<Result<TokenModel, ErrorModel>>, StreamModel);

/// The line after consuming `item` on line `line`: a newline moves to the next
/// line, nothing else changes the line.
pub open spec fn step_line(line: nat, item: Item) -> nat {
    if item == Ok::<char, ReadError>('\n') {
        line + 1
    } else {
        line
    }
}

/// The column after consuming `item` at column `column`: a newline resets it
/// to 1, any other character moves one to the right, a failed read leaves it.
pub open spec fn step_column(column: nat, item: Item) -> nat {
    match item {
        Ok(c) => if c == '\n' {
            1
        } else {
            column + 1
        },
        Err(_) => column,
    }
}

/// The line after consuming all of `items`, starting on line `line`.
pub open spec fn line_after(line: nat, items: Seq<Item>) -> nat
    decreases items.len(),
{
    if items.len() == 0 {
        line
    } else {
        step_line(line_after(line, items.drop_last()), items.last())
    }
}

/// The column after consuming all of `items`, starting at column `column`.
pub open spec fn column_after(column: nat, items: Seq<Item>) -> nat
    decreases items.len(),
{
    if items.len() == 0 {
        column
    } else {
        step_column(column_after(column, items.drop_last()), items.last())
    }
}

/// The message of every error that a failed read causes.
pub open spec fn io_message() -> Seq<char> {
    "I/O error"@
}

impl StreamModel {
    /// The stream after its first `n` pending items were consumed.
    pub open spec fn advance(self, n: nat) -> StreamModel
        recommends
            n <= self.pending.len(),
    {
        StreamModel {
            path: self.path,
            pending: self.pending.skip(n as int),
            line: line_after(self.line, self.pending.take(n as int)),
            column: column_after(self.column, self.pending.take(n as int)),
            cached: self.cached,
        }
    }

    /// The stream with `token` set aside for the next read.
    pub open spec fn with_cached(self, cached: Option<TokenModel>) -> StreamModel {
        StreamModel {
            path: self.path,
            pending: self.pending,
            line: self.line,
            column: self.column,
            cached,
        }
    }

    /// A token that starts at the first pending item and takes `n` items.
    pub open spec fn token(self, n: nat, value: TokenValueModel, text: Seq<char>) -> Reading {
        (Some(Ok(token_at(self.path, self.line, self.column, value, text))), self.advance(n))
    }

    /// An error found after consuming `n` items, located where the stream
    /// then stands.
    pub open spec fn failure(self, n: nat, kind: ErrorKind, message: Seq<char>) -> Reading {
        (Some(Err(self.advance(n).error_here(kind, message))), self.advance(n))
    }

    /// An error located at the current position of the stream.
    pub open spec fn error_here(self, kind: ErrorKind, message: Seq<char>) -> ErrorModel {
        ErrorModel { message, kind, line: self.line, column: self.column, source: self.path }
    }

    /// The first pending item, if there is one.
    pub open spec fn first(self) -> Option<Item> {
        item_at(self.pending, 0)
    }
}

/// The item at index `i`, if there is one.
pub open spec fn item_at(items: Seq<Item>, i: int) -> Option<Item> {
    if 0 <= i < items.len() {
        Some(items[i])
    } else {
        None
    }
}

/// Whether the item at index `i` is the character `c`.
pub open spec fn item_is(items: Seq<Item>, i: int, c: char) -> bool {
    item_at(items, i) == Some(Ok::<char, ReadError>(c))
}

/// The characters of the items from index `from` up to `to`, all of which
/// are characters.
pub open spec fn chars_between(items: Seq<Item>, from: int, to: int) -> Seq<char> {
    Seq::new((to - from) as nat, |k: int| items[from + k]->Ok_0)
}

/// Consuming `a` items and then `b` more is consuming `a + b` items.
pub proof fn lemma_advance_add(s: StreamModel, a: nat, b: nat)
    requires
        a + b <= s.pending.len(),
    ensures
        s.advance(a).advance(b) == s.advance(a + b),
    decreases b,
{
    let items = s.pending;
    assert(items.skip(a as int).skip(b as int) =~= items.skip((a + b) as int));
    if b == 0 {
        assert(items.skip(a as int).take(0) =~= Seq::<Item>::empty());
        assert(items.take((a + b) as int) =~= items.take(a as int));
    } else {
        lemma_advance_add(s, a, (b - 1) as nat);
        assert(items.skip(a as int).take(b as int).drop_last() =~= items.skip(a as int).take(
            b - 1,
        ));
        assert(items.take((a + b) as int).drop_last() =~= items.take(a + b - 1));
        assert(items.skip(a as int).take(b as int).last() == items.take((a + b) as int).last());
    }
}

/// Consuming nothing leaves the stream as it is.
pub proof fn lemma_advance_zero(s: StreamModel)
    ensures
        s.advance(0) == s,
{
    assert(s.pending.skip(0) =~= s.pending);
    assert(s.pending.take(0) =~= Seq::<Item>::empty());
}

/// Consuming one item steps the position over that item.
pub proof fn lemma_advance_one(s: StreamModel)
    requires
        s.pending.len() > 0,
    ensures
        s.advance(1).line == step_line(s.line, s.pending[0]),
        s.advance(1).column == step_column(s.column, s.pending[0]),
        s.advance(1).pending == s.pending.skip(1),
{
    let one = s.pending.take(1);
    assert(one.drop_last() =~= Seq::<Item>::empty());
    assert(one.last() == s.pending[0]);
    assert(line_after(s.line, one.drop_last()) == s.line);
    assert(column_after(s.column, one.drop_last()) == s.column);
}

// ---------------------------------------------------------------------------
// Identifiers and keywords
// ---------------------------------------------------------------------------
/// The index at which the run of identifier characters that begins at `i`
/// ends: the first index from `i` on that holds no identifier character.
pub open spec fn ident_end(items: Seq<Item>, i: nat) -> nat
    decreases items.len() - i,
{
    if i < items.len() && items[i as int] is Ok && is_ident_char(items[i as int]->Ok_0) {
        ident_end(items, i + 1)
    } else {
        i
    }
}

/// The keyword or boolean literal that `text` spells, if it spells one.
pub open spec fn keyword_value(text: Seq<char>) -> Option<TokenValueModel> {
    if text == "if"@ {
        Some(TokenValueModel::KeywordIf)
    } else if text == "else"@ {
        Some(TokenValueModel::KeywordElse)
    } else if text == "for"@ {
        Some(TokenValueModel::KeywordFor)
    } else if text == "loop"@ {
        Some(TokenValueModel::KeywordLoop)
    } else if text == "while"@ {
        Some(TokenValueModel::KeywordWhile)
    } else if text == "func"@ {
        Some(TokenValueModel::KeywordFunc)
    } else if text == "test"@ {
        Some(TokenValueModel::KeywordTest)
    } else if text == "var"@ {
        Some(TokenValueModel::KeywordVar)
    } else if text == "const"@ {
        Some(TokenValueModel::KeywordConst)
    } else if text == "use"@ {
        Some(TokenValueModel::KeywordUse)
    } else if text == "as"@ {
        Some(TokenValueModel::KeywordAs)
    } else if text == "return"@ {
        Some(TokenValueModel::KeywordReturn)
    } else if text == "true"@ {
        Some(TokenValueModel::BoolLiteral(true))
    } else if text == "false"@ {
        Some(TokenValueModel::BoolLiteral(false))
    } else {
        None
    }
}

/// The characters of the keywords and of the boolean literals.
pub proof fn lemma_keyword_texts()
    ensures
        "if"@ == seq!['i', 'f'],
        "else"@ == seq!['e', 'l', 's', 'e'],
        "for"@ == seq!['f', 'o', 'r'],
        "loop"@ == seq!['l', 'o', 'o', 'p'],
        "while"@ == seq!['w', 'h', 'i', 'l', 'e'],
        "func"@ == seq!['f', 'u', 'n', 'c'],
        "test"@ == seq!['t', 'e', 's', 't'],
        "var"@ == seq!['v', 'a', 'r'],
        "const"@ == seq!['c', 'o', 'n', 's', 't'],
        "use"@ == seq!['u', 's', 'e'],
        "as"@ == seq!['a', 's'],
        "return"@ == seq!['r', 'e', 't', 'u', 'r', 'n'],
        "true"@ == seq!['t', 'r', 'u', 'e'],
        "false"@ == seq!['f', 'a', 'l', 's', 'e'],
{
    reveal_strlit("if");
    assert("if"@ =~= seq!['i', 'f']);
    reveal_strlit("else");
    assert("else"@ =~= seq!['e', 'l', 's', 'e']);
    reveal_strlit("for");
    assert("for"@ =~= seq!['f', 'o', 'r']);
    reveal_strlit("loop");
    assert("loop"@ =~= seq!['l', 'o', 'o', 'p']);
    reveal_strlit("while");
    assert("while"@ =~= seq!['w', 'h', 'i', 'l', 'e']);
    reveal_strlit("func");
    assert("func"@ =~= seq!['f', 'u', 'n', 'c']);
    reveal_strlit("test");
    assert("test"@ =~= seq!['t', 'e', 's', 't']);
    reveal_strlit("var");
    assert("var"@ =~= seq!['v', 'a', 'r']);
    reveal_strlit("const");
    assert("const"@ =~= seq!['c', 'o', 'n', 's', 't']);
    reveal_strlit("use");
    assert("use"@ =~= seq!['u', 's', 'e']);
    reveal_strlit("as");
    assert("as"@ =~= seq!['a', 's']);
    reveal_strlit("return");
    assert("return"@ =~= seq!['r', 'e', 't', 'u', 'r', 'n']);
    reveal_strlit("true");
    assert("true"@ =~= seq!['t', 'r', 'u', 'e']);
    reveal_strlit("false");
    assert("false"@ =~= seq!['f', 'a', 'l', 's', 'e']);
}

/// The value of a word: that of the keyword it spells, else an identifier.
pub open spec fn word_value(text: Seq<char>) -> TokenValueModel {
    match keyword_value(text) {
        Some(value) => value,
        None => TokenValueModel::Identifier(text),
    }
}

/// Reading a word: the longest run of identifier characters at the head of
/// the stream. A failed read right after the run is consumed and reported.
pub open spec fn read_ident(s: StreamModel) -> Reading {
    let end = ident_end(s.pending, 0);
    match item_at(s.pending, end as int) {
        Some(Err(e)) => s.failure(end + 1, ErrorKind::IOError(e), io_message()),
        _ => {
            let text = chars_between(s.pending, 0, end as int);
            s.token(end, word_value(text), text)
        },
    }
}

// ---------------------------------------------------------------------------
// Numbers
// ---------------------------------------------------------------------------
/// The base that the letter of a base prefix selects.
pub open spec fn radix_of(c: char) -> Option<nat> {
    if c == 'x' {
        Some(16)
    } else if c == 'b' {
        Some(2)
    } else if c == 'o' {
        Some(8)
    } else {
        None
    }
}

/// Whether the items begin with a base prefix: a zero and one of `x`, `b`, `o`.
pub open spec fn has_radix_prefix(items: Seq<Item>) -> bool {
    item_is(items, 0, '0') && items.len() >= 2 && items[1] is Ok && radix_of(items[1]->Ok_0) is Some
}

/// The index at which the run of digits of `base` that begins at `i` ends.
pub open spec fn digits_end(items: Seq<Item>, i: nat, base: nat) -> nat
    decreases items.len() - i,
{
    if i < items.len() && items[i as int] is Ok && spec_is_numeric(items[i as int]->Ok_0, base) {
        digits_end(items, i + 1, base)
    } else {
        i
    }
}

/// A run of digits ends at or after the index at which it begins, and
/// inside the items where it begins inside them.
pub proof fn lemma_digits_end_bounds(items: Seq<Item>, i: nat, base: nat)
    ensures
        i <= digits_end(items, i, base),
        i <= items.len() ==> digits_end(items, i, base) <= items.len(),
    decreases items.len() - i,
{
    if i < items.len() && items[i as int] is Ok && spec_is_numeric(items[i as int]->Ok_0, base) {
        lemma_digits_end_bounds(items, i + 1, base);
    }
}

/// The number that `digits` write in `base`, most significant digit first.
pub open spec fn digits_value(digits: Seq<char>, base: nat) -> nat
    decreases digits.len(),
{
    if digits.len() == 0 {
        0
    } else {
        digits_value(digits.drop_last(), base) * base + digit_value(digits.last()).unwrap_or(0)
    }
}

/// The digits of a number are worth at least as much as any of their
/// prefixes.
pub proof fn lemma_digits_value_prefix(digits: Seq<char>, k: nat, base: nat)
    requires
        k <= digits.len(),
        base >= 1,
    ensures
        digits_value(digits.take(k as int), base) <= digits_value(digits, base),
    decreases digits.len(),
{
    if k < digits.len() {
        lemma_digits_value_prefix(digits.drop_last(), k, base);
        assert(digits.drop_last().take(k as int) =~= digits.take(k as int));
        let v = digits_value(digits.drop_last(), base);
        assert(v * base >= v) by (nonlinear_arith)
            requires
                base >= 1,
                v >= 0,
        ;
    } else {
        assert(digits.take(k as int) =~= digits);
    }
}

pub open spec fn empty_number_message() -> Seq<char> {
    "internal error while reading number: cannot parse integer from empty string"@
}

pub open spec fn large_number_message() -> Seq<char> {
    "internal error while reading number: number too large to fit in target type"@
}

pub open spec fn stray_dot_message() -> Seq<char> {
    "unexpected character '.' in a number literal"@
}

pub open spec fn stray_char_message(c: char) -> Seq<char> {
    "unexpected character '"@.push(c) + "' in a number literal"@
}

/// Why a number cannot end before the item at index `i`, if it cannot: the
/// item is a failed read, a dot that the number cannot take, a letter, a
/// digit of another kind or an underscore. The failure consumes that item.
pub open spec fn number_stop(s: StreamModel, i: nat) -> Option<Reading> {
    match item_at(s.pending, i as int) {
        None => None,
        Some(Err(e)) => Some(s.failure(i + 1, ErrorKind::IOError(e), io_message())),
        Some(Ok(c)) => if c == '.' {
            Some(s.failure(i + 1, ErrorKind::InvalidInput, stray_dot_message()))
        } else if is_ident_char(c) {
            Some(s.failure(i + 1, ErrorKind::InvalidInput, stray_char_message(c)))
        } else {
            None
        },
    }
}

/// The integer token whose digits, in `base`, are the items from `first` up
/// to `end`; the token takes the items up to `end`. Without digits, or with a
/// value that 128 signed bits cannot hold, it is an internal error.
pub open spec fn integer_token(s: StreamModel, first: nat, end: nat, base: nat) -> Reading {
    let digits = chars_between(s.pending, first as int, end as int);
    if digits.len() == 0 {
        s.failure(end, ErrorKind::Internal, empty_number_message())
    } else if digits_value(digits, base) > i128::MAX {
        s.failure(end, ErrorKind::Internal, large_number_message())
    } else {
        s.token(
            end,
            TokenValueModel::IntegerLiteral(digits_value(digits, base) as i128),
            chars_between(s.pending, 0, end as int),
        )
    }
}

/// The base of the number at the head of the items: that of its base
/// prefix, or ten.
pub open spec fn number_base(items: Seq<Item>) -> nat {
    if has_radix_prefix(items) {
        radix_of(items[1]->Ok_0)->0
    } else {
        10
    }
}

/// The index at which the digits of the number at the head of the items
/// begin: after its base prefix, if it has one.
pub open spec fn number_first(items: Seq<Item>) -> nat {
    if has_radix_prefix(items) {
        2
    } else {
        0
    }
}

/// Reading a decimal number from the dot at index `dot` on; its digits before
/// the dot begin at index `first`.
///
/// With at least one digit after the dot the number is a floating point
/// literal. A dot that no digit follows is left in the stream, and the number
/// is an integer, where the number could end after the dot.
pub open spec fn read_fraction(s: StreamModel, first: nat, dot: nat) -> Reading {
    let fraction_end = digits_end(s.pending, dot + 1, 10);
    match number_stop(s, fraction_end) {
        Some(failure) => failure,
        None => if fraction_end == dot + 1 {
            integer_token(s, first, dot, 10)
        } else {
            let text = chars_between(s.pending, 0, fraction_end as int);
            s.token(fraction_end, TokenValueModel::FloatingPointLiteral(text), text)
        },
    }
}

/// Reading a number.
///
/// After an optional base prefix comes the longest run of digits of the
/// base. In base ten a dot may follow, see [`read_fraction`]. What follows
/// the number must not be a letter, a digit, an underscore or another dot.
pub open spec fn read_number(s: StreamModel) -> Reading {
    let base = number_base(s.pending);
    let first = number_first(s.pending);
    let whole_end = digits_end(s.pending, first, base);
    if base == 10 && item_is(s.pending, whole_end as int, '.') {
        read_fraction(s, first, whole_end)
    } else {
        match number_stop(s, whole_end) {
            Some(failure) => failure,
            None => integer_token(s, first, whole_end, base),
        }
    }
}

// ---------------------------------------------------------------------------
// String and character literals
// ---------------------------------------------------------------------------
/// The character that an escape sequence with the letter `c` stands for.
/// Both `\r` and `\n` stand for a newline.
pub open spec fn unescape(c: char) -> Option<char> {
    if c == 'r' || c == 'n' {
        Some('\n')
    } else if c == 't' {
        Some('\t')
    } else if c == '\\' || c == '\'' || c == '"' {
        Some(c)
    } else {
        None
    }
}

pub open spec fn escape_eof_message() -> Seq<char> {
    "EOF reached while reading escape sequence"@
}

pub open spec fn escape_invalid_message(c: char) -> Seq<char> {
    "invalid character in escape sequence: "@.push(c)
}

pub open spec fn string_eof_message() -> Seq<char> {
    "unexpected EOF while reading unterminated string"@
}

pub open spec fn string_newline_message() -> Seq<char> {
    "unexpected newline while reading unterminated string"@
}

pub open spec fn char_empty_message() -> Seq<char> {
    "character literal cannot be empty"@
}

pub open spec fn char_eof_message() -> Seq<char> {
    "unexpected EOF while reading character literal"@
}

pub open spec fn char_long_message(c: char) -> Seq<char> {
    "unexpected character '"@.push(c)
        + "': character literals can only contain one character"@
}

/// Reading what follows a backslash: the character that the escape stands
/// for, or the error, and the stream that is left.
pub open spec fn read_escape(s: StreamModel) -> (Result<char, ErrorModel>, StreamModel) {
    match s.first() {
        None => (Err(s.error_here(ErrorKind::InvalidInput, escape_eof_message())), s),
        Some(Err(e)) => (
            Err(s.advance(1).error_here(ErrorKind::IOError(e), io_message())),
            s.advance(1),
        ),
        Some(Ok(c)) => match unescape(c) {
            Some(d) => (Ok(d), s.advance(1)),
            None => (
                Err(s.advance(1).error_here(ErrorKind::InvalidInput, escape_invalid_message(c))),
                s.advance(1),
            ),
        },
    }
}

/// The text of a string literal token: the decoded characters in quotes.
pub open spec fn string_text(decoded: Seq<char>) -> Seq<char> {
    seq!['"'] + decoded + seq!['"']
}

/// The text of a character literal token: the character in single quotes.
pub open spec fn char_text(c: char) -> Seq<char> {
    seq!['\'', c, '\'']
}

/// Reading the rest of a string literal whose opening quote, found at `line`
/// and `column`, has been consumed, with `decoded` read so far.
///
/// Characters are taken as they are up to the closing quote, and each escape
/// sequence gives one character. The end of the input and a newline that is
/// not escaped are errors.
pub open spec fn read_string_from(
    s: StreamModel,
    decoded: Seq<char>,
    line: nat,
    column: nat,
) -> Reading
    decreases s.pending.len(),
{
    match s.first() {
        None => s.failure(0, ErrorKind::InvalidInput, string_eof_message()),
        Some(Err(e)) => s.failure(1, ErrorKind::IOError(e), io_message()),
        Some(Ok(c)) => if c == '"' {
            (
                Some(
                    Ok(
                        token_at(
                            s.path,
                            line,
                            column,
                            TokenValueModel::StringLiteral(decoded),
                            string_text(decoded),
                        ),
                    ),
                ),
                s.advance(1),
            )
        } else if c == '\n' {
            s.failure(1, ErrorKind::InvalidInput, string_newline_message())
        } else if c == '\\' {
            match read_escape(s.advance(1)) {
                (Ok(d), rest) => read_string_from(rest, decoded.push(d), line, column),
                (Err(e), rest) => (Some(Err(e)), rest),
            }
        } else {
            read_string_from(s.advance(1), decoded.push(c), line, column)
        },
    }
}

/// Reading a string literal whose opening quote, found at `line` and
/// `column`, has been consumed.
pub open spec fn read_string(s: StreamModel, line: nat, column: nat) -> Reading {
    read_string_from(s, Seq::<char>::empty(), line, column)
}

/// Reading the closing quote of the character literal that holds `c`.
pub open spec fn read_char_close(s: StreamModel, c: char, line: nat, column: nat) -> Reading {
    match s.first() {
        None => s.failure(0, ErrorKind::InvalidInput, string_eof_message()),
        Some(Err(e)) => s.failure(1, ErrorKind::IOError(e), io_message()),
        Some(Ok(x)) => if x == '\'' {
            (
                Some(
                    Ok(
                        token_at(
                            s.path,
                            line,
                            column,
                            TokenValueModel::CharLiteral(c),
                            char_text(c),
                        ),
                    ),
                ),
                s.advance(1),
            )
        } else {
            s.failure(1, ErrorKind::InvalidInput, char_long_message(x))
        },
    }
}

/// Reading a character literal whose opening quote, found at `line` and
/// `column`, has been consumed: one character or one escape sequence, then
/// the closing quote.
pub open spec fn read_char_literal(s: StreamModel, line: nat, column: nat) -> Reading {
    match s.first() {
        None => s.failure(0, ErrorKind::InvalidInput, char_eof_message()),
        Some(Err(e)) => s.failure(1, ErrorKind::IOError(e), io_message()),
        Some(Ok(c)) => if c == '\'' {
            s.failure(1, ErrorKind::InvalidInput, char_empty_message())
        } else if c == '\\' {
            match read_escape(s.advance(1)) {
                (Ok(d), rest) => read_char_close(rest, d, line, column),
                (Err(e), rest) => (Some(Err(e)), rest),
            }
        } else {
            read_char_close(s.advance(1), c, line, column)
        },
    }
}

// ---------------------------------------------------------------------------
// Operators
// ---------------------------------------------------------------------------
/// The binary operator that `text` spells.
pub open spec fn binary_operator_of(text: Seq<char>) -> Option<BinaryOperator> {
    if text == "+"@ {
        Some(BinaryOperator::Add)
    } else if text == "-"@ {
        Some(BinaryOperator::Subtract)
    } else if text == "*"@ {
        Some(BinaryOperator::Multiply)
    } else if text == "/"@ {
        Some(BinaryOperator::Divide)
    } else if text == "%"@ {
        Some(BinaryOperator::Modulo)
    } else if text == "|"@ {
        Some(BinaryOperator::BinaryOr)
    } else if text == "&"@ {
        Some(BinaryOperator::BinaryAnd)
    } else if text == "^"@ {
        Some(BinaryOperator::Xor)
    } else if text == "||"@ {
        Some(BinaryOperator::LogicalOr)
    } else if text == "&&"@ {
        Some(BinaryOperator::LogicalAnd)
    } else if text == "<<"@ {
        Some(BinaryOperator::ShiftLeft)
    } else if text == ">>"@ {
        Some(BinaryOperator::ShiftRight)
    } else {
        None
    }
}

/// The comparison operator that `text` spells.
pub open spec fn comparison_operator_of(text: Seq<char>) -> Option<ComparisonOperator> {
    if text == "=="@ {
        Some(ComparisonOperator::Equals)
    } else if text == ">"@ {
        Some(ComparisonOperator::GreaterThan)
    } else if text == "<"@ {
        Some(ComparisonOperator::LessThan)
    } else if text == ">="@ {
        Some(ComparisonOperator::GreaterThanOrEquals)
    } else if text == "<="@ {
        Some(ComparisonOperator::LessThanOrEquals)
    } else if text == "!="@ {
        Some(ComparisonOperator::NotEquals)
    } else {
        None
    }
}

/// The unary operator that `text` spells.
pub open spec fn unary_operator_of(text: Seq<char>) -> Option<UnaryOperator> {
    if text == "!"@ {
        Some(UnaryOperator::Not)
    } else if text == "++"@ {
        Some(UnaryOperator::Increment)
    } else if text == "--"@ {
        Some(UnaryOperator::Decrement)
    } else {
        None
    }
}

/// The assignment operator that `text` spells: `=` alone, or a binary
/// operator followed by `=`.
pub open spec fn assign_operator_of(text: Seq<char>) -> Option<AssignOperator> {
    if text == "="@ {
        Some(AssignOperator::Assign)
    } else if text == "+="@ {
        Some(AssignOperator::AssignAfter(BinaryOperator::Add))
    } else if text == "-="@ {
        Some(AssignOperator::AssignAfter(BinaryOperator::Subtract))
    } else if text == "*="@ {
        Some(AssignOperator::AssignAfter(BinaryOperator::Multiply))
    } else if text == "/="@ {
        Some(AssignOperator::AssignAfter(BinaryOperator::Divide))
    } else if text == "%="@ {
        Some(AssignOperator::AssignAfter(BinaryOperator::Modulo))
    } else if text == "|="@ {
        Some(AssignOperator::AssignAfter(BinaryOperator::BinaryOr))
    } else if text == "&="@ {
        Some(AssignOperator::AssignAfter(BinaryOperator::BinaryAnd))
    } else if text == "^="@ {
        Some(AssignOperator::AssignAfter(BinaryOperator::Xor))
    } else if text == "||="@ {
        Some(AssignOperator::AssignAfter(BinaryOperator::LogicalOr))
    } else if text == "&&="@ {
        Some(AssignOperator::AssignAfter(BinaryOperator::LogicalAnd))
    } else if text == "<<="@ {
        Some(AssignOperator::AssignAfter(BinaryOperator::ShiftLeft))
    } else if text == ">>="@ {
        Some(AssignOperator::AssignAfter(BinaryOperator::ShiftRight))
    } else {
        None
    }
}

/// The value of the operator token that `text` spells: a binary operator, a
/// comparison, a unary operator or an assignment.
pub open spec fn operator_value(text: Seq<char>) -> Option<TokenValueModel> {
    if binary_operator_of(text) is Some {
        Some(TokenValueModel::BinaryOperator(binary_operator_of(text)->0))
    } else if comparison_operator_of(text) is Some {
        Some(TokenValueModel::Comparison(comparison_operator_of(text)->0))
    } else if unary_operator_of(text) is Some {
        Some(TokenValueModel::UnaryOperator(unary_operator_of(text)->0))
    } else if assign_operator_of(text) is Some {
        Some(TokenValueModel::Assignment(assign_operator_of(text)->0))
    } else {
        None
    }
}

/// The characters of the operators.
pub proof fn lemma_operator_texts()
    ensures
        "+"@ == seq!['+'],
        "-"@ == seq!['-'],
        "*"@ == seq!['*'],
        "/"@ == seq!['/'],
        "%"@ == seq!['%'],
        "|"@ == seq!['|'],
        "&"@ == seq!['&'],
        "^"@ == seq!['^'],
        "||"@ == seq!['|', '|'],
        "&&"@ == seq!['&', '&'],
        "<<"@ == seq!['<', '<'],
        ">>"@ == seq!['>', '>'],
        "=="@ == seq!['=', '='],
        ">"@ == seq!['>'],
        "<"@ == seq!['<'],
        ">="@ == seq!['>', '='],
        "<="@ == seq!['<', '='],
        "!="@ == seq!['!', '='],
        "!"@ == seq!['!'],
        "++"@ == seq!['+', '+'],
        "--"@ == seq!['-', '-'],
        "="@ == seq!['='],
        "+="@ == seq!['+', '='],
        "-="@ == seq!['-', '='],
        "*="@ == seq!['*', '='],
        "/="@ == seq!['/', '='],
        "%="@ == seq!['%', '='],
        "|="@ == seq!['|', '='],
        "&="@ == seq!['&', '='],
        "^="@ == seq!['^', '='],
        "||="@ == seq!['|', '|', '='],
        "&&="@ == seq!['&', '&', '='],
        "<<="@ == seq!['<', '<', '='],
        ">>="@ == seq!['>', '>', '='],
{
    reveal_strlit("+");
    assert("+"@ =~= seq!['+']);
    reveal_strlit("-");
    assert("-"@ =~= seq!['-']);
    reveal_strlit("*");
    assert("*"@ =~= seq!['*']);
    reveal_strlit("/");
    assert("/"@ =~= seq!['/']);
    reveal_strlit("%");
    assert("%"@ =~= seq!['%']);
    reveal_strlit("|");
    assert("|"@ =~= seq!['|']);
    reveal_strlit("&");
    assert("&"@ =~= seq!['&']);
    reveal_strlit("^");
    assert("^"@ =~= seq!['^']);
    reveal_strlit("||");
    assert("||"@ =~= seq!['|', '|']);
    reveal_strlit("&&");
    assert("&&"@ =~= seq!['&', '&']);
    reveal_strlit("<<");
    assert("<<"@ =~= seq!['<', '<']);
    reveal_strlit(">>");
    assert(">>"@ =~= seq!['>', '>']);
    reveal_strlit("==");
    assert("=="@ =~= seq!['=', '=']);
    reveal_strlit(">");
    assert(">"@ =~= seq!['>']);
    reveal_strlit("<");
    assert("<"@ =~= seq!['<']);
    reveal_strlit(">=");
    assert(">="@ =~= seq!['>', '=']);
    reveal_strlit("<=");
    assert("<="@ =~= seq!['<', '=']);
    reveal_strlit("!=");
    assert("!="@ =~= seq!['!', '=']);
    reveal_strlit("!");
    assert("!"@ =~= seq!['!']);
    reveal_strlit("++");
    assert("++"@ =~= seq!['+', '+']);
    reveal_strlit("--");
    assert("--"@ =~= seq!['-', '-']);
    reveal_strlit("=");
    assert("="@ =~= seq!['=']);
    reveal_strlit("+=");
    assert("+="@ =~= seq!['+', '=']);
    reveal_strlit("-=");
    assert("-="@ =~= seq!['-', '=']);
    reveal_strlit("*=");
    assert("*="@ =~= seq!['*', '=']);
    reveal_strlit("/=");
    assert("/="@ =~= seq!['/', '=']);
    reveal_strlit("%=");
    assert("%="@ =~= seq!['%', '=']);
    reveal_strlit("|=");
    assert("|="@ =~= seq!['|', '=']);
    reveal_strlit("&=");
    assert("&="@ =~= seq!['&', '=']);
    reveal_strlit("^=");
    assert("^="@ =~= seq!['^', '=']);
    reveal_strlit("||=");
    assert("||="@ =~= seq!['|', '|', '=']);
    reveal_strlit("&&=");
    assert("&&="@ =~= seq!['&', '&', '=']);
    reveal_strlit("<<=");
    assert("<<="@ =~= seq!['<', '<', '=']);
    reveal_strlit(">>=");
    assert(">>="@ =~= seq!['>', '>', '=']);
}

pub open spec fn unknown_operator_message(text: Seq<char>) -> Seq<char> {
    "unknown operator string "@ + text
}

pub open spec fn not_operator_message(c: char) -> Seq<char> {
    "unexpected character '"@.push(c) + "' while reading operator token"@
}

/// The token for the operator `text`, which takes `n` items of the stream;
/// text that spells no operator is an internal error.
pub open spec fn build_operator(s: StreamModel, n: nat, text: Seq<char>) -> Reading {
    match operator_value(text) {
        Some(value) => s.token(n, value, text),
        None => s.failure(n, ErrorKind::Internal, unknown_operator_message(text)),
    }
}

/// Whether `c` can stand alone or be followed by `=`, and nothing else.
pub open spec fn takes_equals_only(c: char) -> bool {
    c == '=' || c == '*' || c == '/' || c == '%' || c == '^' || c == '!'
}

/// Whether `c` can be doubled, and in either form be followed by `=`.
pub open spec fn doubles_and_takes_equals(c: char) -> bool {
    c == '&' || c == '|' || c == '<' || c == '>'
}

/// Whether `c` can be doubled or be followed by `=`, but not both.
pub open spec fn doubles_or_takes_equals(c: char) -> bool {
    c == '+' || c == '-'
}

/// The operator `text`, of `n` items, unless the item after it is a failed
/// read, which is then consumed and reported.
pub open spec fn operator_unless_failed(s: StreamModel, n: nat, text: Seq<char>) -> Reading {
    match item_at(s.pending, n as int) {
        Some(Err(e)) => s.failure(n + 1, ErrorKind::IOError(e), io_message()),
        _ => build_operator(s, n, text),
    }
}

/// Reading an operator: the longest operator that the head of the stream
/// spells.
pub open spec fn read_operator(s: StreamModel) -> Reading {
    let items = s.pending;
    match s.first() {
        None => (None, s),
        Some(Err(e)) => s.failure(1, ErrorKind::IOError(e), io_message()),
        Some(Ok(c)) => if takes_equals_only(c) {
            if item_is(items, 1, '=') {
                build_operator(s, 2, seq![c, '='])
            } else {
                operator_unless_failed(s, 1, seq![c])
            }
        } else if doubles_and_takes_equals(c) {
            if item_is(items, 1, c) {
                if item_is(items, 2, '=') {
                    build_operator(s, 3, seq![c, c, '='])
                } else {
                    operator_unless_failed(s, 2, seq![c, c])
                }
            } else if item_is(items, 1, '=') {
                build_operator(s, 2, seq![c, '='])
            } else {
                operator_unless_failed(s, 1, seq![c])
            }
        } else if doubles_or_takes_equals(c) {
            if item_is(items, 1, c) {
                build_operator(s, 2, seq![c, c])
            } else if item_is(items, 1, '=') {
                build_operator(s, 2, seq![c, '='])
            } else {
                operator_unless_failed(s, 1, seq![c])
            }
        } else {
            s.failure(1, ErrorKind::InvalidInput, not_operator_message(c))
        },
    }
}

// ---------------------------------------------------------------------------
// Tokens
// ---------------------------------------------------------------------------
/// The value of the token that the single character `c` is, if it is one.
pub open spec fn punctuation_value(c: char) -> Option<TokenValueModel> {
    if c == '{' {
        Some(TokenValueModel::OpenBrace)
    } else if c == '}' {
        Some(TokenValueModel::CloseBrace)
    } else if c == '[' {
        Some(TokenValueModel::OpenBracket)
    } else if c == ']' {
        Some(TokenValueModel::CloseBracket)
    } else if c == '(' {
        Some(TokenValueModel::OpenParen)
    } else if c == ')' {
        Some(TokenValueModel::CloseParen)
    } else if c == ',' {
        Some(TokenValueModel::Comma)
    } else if c == '.' {
        Some(TokenValueModel::Dot)
    } else {
        None
    }
}

pub open spec fn unexpected_char_message(c: char) -> Seq<char> {
    "unexpected character '"@.push(c).push('\'')
}

/// Reading the next token from the pending items.
///
/// Whitespace other than a newline is skipped. A newline is a token. The
/// first other character decides what is read: a word, a number, a
/// punctuation mark, a string, a character literal or an operator. Any other
/// character is an error. At the end of the input there is no token.
pub open spec fn read_token(s: StreamModel) -> Reading
    decreases s.pending.len(),
{
    match s.first() {
        None => (None, s),
        Some(Err(e)) => s.failure(1, ErrorKind::IOError(e), io_message()),
        Some(Ok(c)) => if c == '\n' {
            s.token(1, TokenValueModel::Newline, seq!['\n'])
        } else if spec_is_space(c) {
            read_token(s.advance(1))
        } else if is_ident_start(c) {
            read_ident(s)
        } else if spec_is_number(c) {
            read_number(s)
        } else if punctuation_value(c) is Some {
            s.token(1, punctuation_value(c)->0, seq![c])
        } else if c == '"' {
            read_string(s.advance(1), s.line, s.column)
        } else if c == '\'' {
            read_char_literal(s.advance(1), s.line, s.column)
        } else if spec_is_operator(c) {
            read_operator(s)
        } else {
            s.failure(1, ErrorKind::InvalidInput, unexpected_char_message(c))
        },
    }
}

/// The next token: the one set aside by `peek`, if there is one, else the
/// next one read from the pending items.
pub open spec fn next_token(s: StreamModel) -> Reading {
    match s.cached {
        Some(token) => (Some(Ok(token)), s.with_cached(None)),
        None => read_token(s),
    }
}

/// The next token, which stays the next token: a token that was read is set
/// aside for the read that follows.
pub open spec fn peek(s: StreamModel) -> Reading {
    match next_token(s) {
        (Some(Ok(token)), rest) => (Some(Ok(token)), rest.with_cached(Some(token))),
        other => other,
    }
}

/// Whether nothing is left to read: no pending item and no token set aside.
pub open spec fn is_empty(s: StreamModel) -> bool {
    s.cached is None && s.pending.len() == 0
}

} // verus!
