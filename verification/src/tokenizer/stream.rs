//! The tokenizer: a stream of positioned tokens over an input held in memory.
use crate::text::{collect_chars, same_text};
use crate::tokenizer::chars::{
    digit_of, is_letter, is_number, is_numeric, is_operator, is_space, is_word_char,
    spec_is_numeric,
};
use crate::tokenizer::decoder::{
    decode_items, lemma_decode_items_len, lemma_decode_len_bounds, read_char, ByteReader, Item,
};
use crate::tokenizer::error::{Error, ErrorKind, ErrorModel, ReadError};
use crate::tokenizer::model;
use crate::tokenizer::model::{
    lemma_advance_add, lemma_advance_one, lemma_advance_zero, lemma_digits_value_prefix,
    StreamModel,
};
use crate::tokenizer::token::{
    token_at, AssignOperator, BinaryOperator, ComparisonOperator, Token, TokenModel, TokenValue,
    UnaryOperator,
};
use std::collections::VecDeque;
use vstd::prelude::*;
use vstd::slice::*;
use vstd::string::*;

verus! {

broadcast use vstd::slice::group_slice_axioms;

/// A lazy sequence of tokens read from one input, with a one-token `peek`.
pub struct TokenStream {
    stream_path: String,
    stream: ByteReader,
    stream_column: usize,
    stream_line: usize,
    lookahead_buf: VecDeque<Item>,
    cached_token: Option<Token>,
}

/// Mathematical value of what one read of a token stream returns.
pub open spec fn reading_view(r: Option<Result<Token, Error>>) -> Option<
    Result<TokenModel, ErrorModel>,
> {
    match r {
        None => None,
        Some(Ok(token)) => Some(Ok(token@)),
        Some(Err(error)) => Some(Err(error@)),
    }
}

/// Mathematical value of what reading an escape sequence returns.
pub open spec fn escape_view(r: Result<char, Error>) -> Result<
    char,
    ErrorModel,
> {
    match r {
        Ok(c) => Ok(c),
        Err(error) => Err(error@),
    }
}

impl View for TokenStream {
    type V = StreamModel;

    closed spec fn view(&self) -> StreamModel {
        StreamModel {
            path: self.stream_path@,
            pending: self.lookahead_buf@ + decode_items(self.stream.remaining()),
            line: self.stream_line as nat,
            column: self.stream_column as nat,
            cached: match self.cached_token {
                Some(token) => Some(token@),
                None => None,
            },
        }
    }
}

impl TokenStream {
    /// What is left to read, counted so that every read makes it smaller.
    spec fn budget(&self) -> nat {
        self.lookahead_buf@.len() + self.stream.remaining().len()
    }

    /// Whether the position can be advanced over everything that is left
    /// without leaving the range of `usize`.
    pub closed spec fn wf(&self) -> bool {
        &&& self.stream_line + self.budget() <= usize::MAX
        &&& self.stream_column + self.budget() <= usize::MAX
    }

    /// Creates a token stream over `bytes`. Tokens and errors are labelled
    /// with `path`, or with `-` where there is none.
    pub fn new(bytes: Vec<u8>, path: Option<String>) -> (r: Self)
        requires
            bytes.len() < usize::MAX,
        ensures
            r.wf(),
            r@ == (StreamModel {
                path: match path {
                    Some(p) => p@,
                    None => "-"@,
                },
                pending: decode_items(bytes@),
                line: 1,
                column: 1,
                cached: None,
            }),
    {
        let path = match path {
            Some(p) => p,
            None => String::from_str("-"),
        };
        let r = TokenStream {
            stream_path: path,
            stream: ByteReader::new(bytes),
            stream_column: 1,
            stream_line: 1,
            lookahead_buf: VecDeque::new(),
            cached_token: None,
        };
        assert(r@.pending =~= decode_items(bytes@));
        r
    }

    /// Whether nothing is left to read: the input is used up and no token is
    /// set aside.
    pub fn is_empty(&self) -> (r: bool)
        ensures
            r == model::is_empty(self@),
    {
        proof {
            lemma_decode_items_len(self.stream.remaining());
        }
        self.cached_token.is_none() && self.lookahead_buf.len() == 0 && self.stream.is_exhausted()
    }

    /// The path of the input and the line and column that the stream has
    /// reached.
    pub fn position(&self) -> (r: (String, usize, usize))
        ensures
            r.0@ == self@.path,
            r.1 == self@.line,
            r.2 == self@.column,
    {
        (self.stream_path.clone(), self.stream_line, self.stream_column)
    }

    /// Consumes the next item of the input, if there is one, and moves the
    /// position over it.
    fn next_char(&mut self) -> (r: Option<Item>)
        requires
            old(self).wf(),
        ensures
            final(self).wf(),
            r == old(self)@.first(),
            r is None ==> final(self)@ == old(self)@,
            r is Some ==> final(self)@ == old(self)@.advance(1),
            r is Some ==> final(self).budget() < old(self).budget(),
            final(self).budget() <= old(self).budget(),
    {
        let ghost before = self@;
        let r = if self.lookahead_buf.len() > 0 {
            let item = self.lookahead_buf.pop_front();
            assert(self@.pending =~= before.pending.skip(1));
            item
        } else {
            let ghost bytes = self.stream.remaining();
            let item = read_char(&mut self.stream);
            proof {
                if bytes.len() > 0 {
                    lemma_decode_len_bounds(bytes);
                    assert(self@.pending =~= before.pending.skip(1));
                } else {
                    assert(self@.pending =~= before.pending);
                }
            }
            item
        };
        match r {
            Some(Ok(c)) => {
                if c == '\n' {
                    self.stream_column = 1;
                    self.stream_line += 1;
                } else {
                    self.stream_column += 1;
                }
            },
            _ => {},
        }
        proof {
            if r is Some {
                lemma_advance_one(before);
            }
        }
        r
    }

    /// Returns `item` to the front of the input, as the item found at `line`
    /// and `column`.
    fn push_char(&mut self, item: Item, line: usize, column: usize)
        requires
            line + old(self).budget() + 1 <= usize::MAX,
            column + old(self).budget() + 1 <= usize::MAX,
        ensures
            final(self).wf(),
            final(self).budget() == old(self).budget() + 1,
            final(self)@ == (StreamModel {
                path: old(self)@.path,
                pending: seq![item] + old(self)@.pending,
                line: line as nat,
                column: column as nat,
                cached: old(self)@.cached,
            }),
    {
        self.lookahead_buf.push_front(item);
        self.stream_line = line;
        self.stream_column = column;
        assert(self@.pending =~= seq![item] + old(self)@.pending);
    }

    /// The next item of the input, which stays the next item.
    fn peek_char(&mut self) -> (r: Option<Item>)
        requires
            old(self).wf(),
        ensures
            final(self).wf(),
            r == old(self)@.first(),
            final(self)@ == old(self)@,
            final(self).budget() <= old(self).budget(),
    {
        let line: usize = self.stream_line;
        let column: usize = self.stream_column;
        let r = self.next_char();
        match r {
            Some(item) => {
                self.push_char(item, line, column);
                assert(self@.pending =~= old(self)@.pending);
            },
            None => {},
        }
        r
    }

    /// The item after the next item of the input; both stay where they are.
    fn peek_second(&mut self) -> (r: Option<Item>)
        requires
            old(self).wf(),
        ensures
            final(self).wf(),
            r == model::item_at(old(self)@.pending, 1),
            final(self)@ == old(self)@,
            final(self).budget() <= old(self).budget(),
    {
        let line: usize = self.stream_line;
        let column: usize = self.stream_column;
        match self.next_char() {
            Some(first) => {
                let r = self.peek_char();
                self.push_char(first, line, column);
                assert(self@.pending =~= old(self)@.pending);
                r
            },
            None => None,
        }
    }

    /// A token of this input that begins at `line` and `column`.
    fn build_token(&self, value: TokenValue, text: &str, line: usize, column: usize) -> (r: Token)
        ensures
            r@ == token_at(self@.path, line as nat, column as nat, value@, text@),
    {
        Token {
            column,
            line,
            path: self.stream_path.clone(),
            length: text.as_bytes().len(),
            text: String::from_str(text),
            value,
        }
    }

    /// An internal error at the position that the stream has reached.
    fn internal_error(&self, msg: String) -> (r: Error)
        ensures
            r@ == self@.error_here(ErrorKind::Internal, msg@),
    {
        Error {
            message: msg,
            line: self.stream_line,
            column: self.stream_column,
            source: self.stream_path.clone(),
            kind: ErrorKind::Internal,
        }
    }

    /// An error in the input at the position that the stream has reached.
    fn error(&self, msg: String) -> (r: Error)
        ensures
            r@ == self@.error_here(ErrorKind::InvalidInput, msg@),
    {
        Error {
            message: msg,
            line: self.stream_line,
            column: self.stream_column,
            source: self.stream_path.clone(),
            kind: ErrorKind::InvalidInput,
        }
    }

    /// The error for a failed read at the position that the stream has
    /// reached.
    fn io_error(&self, err: ReadError) -> (r: Error)
        ensures
            r@ == self@.error_here(ErrorKind::IOError(err), model::io_message()),
    {
        Error {
            message: String::from_str("I/O error"),
            line: self.stream_line,
            column: self.stream_column,
            source: self.stream_path.clone(),
            kind: ErrorKind::IOError(err),
        }
    }

    /// The token for `word` where it spells a keyword or a boolean literal.
    fn check_keyword(&self, word: &Vec<char>, line: usize, column: usize) -> (r: Option<Token>)
        ensures
            match model::keyword_value(word@) {
                Some(value) => r is Some && r->0@ == token_at(
                    self@.path,
                    line as nat,
                    column as nat,
                    value,
                    word@,
                ),
                None => r is None,
            },
    {
        let value = if same_text(word, "if") {
            TokenValue::KeywordIf
        } else if same_text(word, "else") {
            TokenValue::KeywordElse
        } else if same_text(word, "for") {
            TokenValue::KeywordFor
        } else if same_text(word, "loop") {
            TokenValue::KeywordLoop
        } else if same_text(word, "while") {
            TokenValue::KeywordWhile
        } else if same_text(word, "func") {
            TokenValue::KeywordFunc
        } else if same_text(word, "test") {
            TokenValue::KeywordTest
        } else if same_text(word, "var") {
            TokenValue::KeywordVar
        } else if same_text(word, "const") {
            TokenValue::KeywordConst
        } else if same_text(word, "use") {
            TokenValue::KeywordUse
        } else if same_text(word, "as") {
            TokenValue::KeywordAs
        } else if same_text(word, "return") {
            TokenValue::KeywordReturn
        } else if same_text(word, "true") {
            TokenValue::BoolLiteral(true)
        } else if same_text(word, "false") {
            TokenValue::BoolLiteral(false)
        } else {
            return None;
        };
        let text = collect_chars(word);
        Some(self.build_token(value, text.as_str(), line, column))
    }

    /// Reads a word: a keyword, a boolean literal or an identifier.
    fn read_ident(&mut self) -> (r: Option<Result<Token, Error>>)
        requires
            old(self).wf(),
        ensures
            final(self).wf(),
            (reading_view(r), final(self)@) == model::read_ident(old(self)@),
    {
        let line: usize = self.stream_line;
        let column: usize = self.stream_column;
        let ghost start = self@;
        let mut value: Vec<char> = Vec::new();
        proof {
            lemma_advance_zero(start);
        }
        loop
            invariant
                self.wf(),
                start == old(self)@,
                value@.len() <= start.pending.len(),
                self@ == start.advance(value@.len()),
                value@ == model::chars_between(start.pending, 0, value@.len() as int),
                model::ident_end(start.pending, 0) == model::ident_end(start.pending, value@.len()),
            ensures
                model::ident_end(start.pending, 0) == value@.len(),
                !(model::item_at(start.pending, value@.len() as int) is Some && model::item_at(
                    start.pending,
                    value@.len() as int,
                )->0 is Err),
            decreases self.budget(),
        {
            let ghost n = value@.len();
            match self.peek_char() {
                None => {
                    break ;
                },
                Some(Err(e)) => {
                    let _ = self.next_char();
                    proof {
                        lemma_advance_add(start, n, 1);
                        assert(model::item_at(start.pending, n as int) == Some(
                            Err::<char, ReadError>(e),
                        ));
                        assert(model::ident_end(start.pending, n) == n);
                    }
                    return Some(Err(self.io_error(e)));
                },
                Some(Ok(c)) => {
                    if is_word_char(c) {
                        let _ = self.next_char();
                        value.push(c);
                        proof {
                            lemma_advance_add(start, n, 1);
                            assert(value@ =~= model::chars_between(
                                start.pending,
                                0,
                                value@.len() as int,
                            ));
                        }
                    } else {
                        break ;
                    }
                },
            }
        }
        match self.check_keyword(&value, line, column) {
            Some(token) => Some(Ok(token)),
            None => {
                let text = collect_chars(&value);
                let value = TokenValue::Identifier(text.clone());
                Some(Ok(self.build_token(value, text.as_str(), line, column)))
            },
        }
    }

    /// Consumes the run of digits of `base` at the head of the input and
    /// appends them to `text`, which holds what was consumed since `start`.
    fn read_digits(&mut self, text: &mut Vec<char>, base: u32, Ghost(start): Ghost<StreamModel>)
        requires
            old(self).wf(),
            old(text)@.len() <= start.pending.len(),
            old(self)@ == start.advance(old(text)@.len()),
            old(text)@ == model::chars_between(start.pending, 0, old(text)@.len() as int),
        ensures
            final(self).wf(),
            final(text)@.len() == model::digits_end(start.pending, old(text)@.len(), base as nat),
            final(text)@.len() <= start.pending.len(),
            final(self)@ == start.advance(final(text)@.len()),
            final(text)@ == model::chars_between(start.pending, 0, final(text)@.len() as int),
            final(text)@.len() >= old(text)@.len(),
            final(text)@.take(old(text)@.len() as int) == old(text)@,
            forall|i: int|
                old(text)@.len() <= i < final(text)@.len() ==> spec_is_numeric(
                    #[trigger] final(text)@[i],
                    base as nat,
                ),
    {
        loop
            invariant
                self.wf(),
                text@.len() <= start.pending.len(),
                self@ == start.advance(text@.len()),
                text@ == model::chars_between(start.pending, 0, text@.len() as int),
                model::digits_end(start.pending, old(text)@.len(), base as nat)
                    == model::digits_end(start.pending, text@.len(), base as nat),
                text@.len() >= old(text)@.len(),
                text@.take(old(text)@.len() as int) == old(text)@,
                forall|i: int|
                    old(text)@.len() <= i < text@.len() ==> spec_is_numeric(
                        #[trigger] text@[i],
                        base as nat,
                    ),
            ensures
                model::digits_end(start.pending, old(text)@.len(), base as nat) == text@.len(),
            decreases self.budget(),
        {
            let ghost n = text@.len();
            match self.peek_char() {
                Some(Ok(c)) => {
                    if is_numeric(c, base) {
                        let _ = self.next_char();
                        text.push(c);
                        proof {
                            lemma_advance_add(start, n, 1);
                            assert(text@ =~= model::chars_between(
                                start.pending,
                                0,
                                text@.len() as int,
                            ));
                            assert(text@.take(old(text)@.len() as int) =~= old(text)@);
                        }
                    } else {
                        break ;
                    }
                },
                _ => {
                    break ;
                },
            }
        }
    }

    /// Checks that a number can end where the stream stands, which is `at`
    /// items after `start`. Where it cannot, the offending item is consumed
    /// and the error returned.
    fn check_number_end(&mut self, Ghost(start): Ghost<StreamModel>, Ghost(at): Ghost<nat>) -> (r:
        Option<Error>)
        requires
            old(self).wf(),
            at <= start.pending.len(),
            old(self)@ == start.advance(at),
        ensures
            final(self).wf(),
            match model::number_stop(start, at) {
                Some(reading) => r is Some && (
                    reading_view(Some(Err::<Token, Error>(r->0))),
                    final(self)@,
                ) == reading,
                None => r is None && final(self)@ == old(self)@,
            },
    {
        match self.peek_char() {
            None => None,
            Some(Err(e)) => {
                let _ = self.next_char();
                proof {
                    lemma_advance_add(start, at, 1);
                }
                Some(self.io_error(e))
            },
            Some(Ok(c)) => {
                if c == '.' {
                    let _ = self.next_char();
                    proof {
                        lemma_advance_add(start, at, 1);
                    }
                    let message = String::from_str("unexpected character '.' in a number literal");
                    Some(self.error(message))
                } else if is_word_char(c) {
                    let _ = self.next_char();
                    proof {
                        lemma_advance_add(start, at, 1);
                    }
                    let mut message = String::from_str("unexpected character '");
                    message.push(c);
                    message.append("' in a number literal");
                    Some(self.error(message))
                } else {
                    None
                }
            },
        }
    }

    /// The integer token whose lexeme is `text` and whose digits, in `base`,
    /// begin at index `first` of it.
    fn integer_token(
        &self,
        text: &Vec<char>,
        first: usize,
        base: u32,
        line: usize,
        column: usize,
        Ghost(start): Ghost<StreamModel>,
    ) -> (r: Result<Token, Error>)
        requires
            first <= text@.len() <= start.pending.len(),
            2 <= base <= 36,
            self@ == start.advance(text@.len()),
            text@ == model::chars_between(start.pending, 0, text@.len() as int),
            line == start.line,
            column == start.column,
            forall|i: int|
                first <= i < text@.len() ==> spec_is_numeric(
                    #[trigger] text@[i],
                    base as nat,
                ),
        ensures
            (reading_view(Some(r)), self@) == model::integer_token(
                start,
                first as nat,
                text@.len(),
                base as nat,
            ),
    {
        proof {
            assert(text@.skip(first as int) =~= model::chars_between(
                start.pending,
                first as int,
                text@.len() as int,
            ));
        }
        if first == text.len() {
            return Err(
                self.internal_error(
                    String::from_str(
                        "internal error while reading number: cannot parse integer from empty string",
                    ),
                ),
            );
        }
        match parse_digits(text, first, base) {
            Some(value) => {
                let lexeme = collect_chars(text);
                let value = TokenValue::IntegerLiteral(value);
                Ok(self.build_token(value, lexeme.as_str(), line, column))
            },
            None => Err(
                self.internal_error(
                    String::from_str(
                        "internal error while reading number: number too large to fit in target type",
                    ),
                ),
            ),
        }
    }

    /// Consumes the base prefix of a number, if the input begins with one,
    /// into `text`, and gives the base of the number.
    fn read_radix_prefix(&mut self, text: &mut Vec<char>) -> (base: u32)
        requires
            old(self).wf(),
            old(text)@.len() == 0,
        ensures
            final(self).wf(),
            base == model::number_base(old(self)@.pending),
            2 <= base <= 16,
            final(text)@.len() == model::number_first(old(self)@.pending),
            final(text)@.len() <= old(self)@.pending.len(),
            final(self)@ == old(self)@.advance(final(text)@.len()),
            final(text)@ == model::chars_between(old(self)@.pending, 0, final(text)@.len() as int),
    {
        let ghost start = self@;
        proof {
            lemma_advance_zero(start);
            assert(text@ =~= model::chars_between(start.pending, 0, 0));
        }
        let head = self.peek_char();
        let second = self.peek_second();
        match (head, second) {
            (Some(Ok(c0)), Some(Ok(c1))) => {
                if c0 == '0' {
                    match radix(c1) {
                        Some(b) => {
                            let _ = self.next_char();
                            let _ = self.next_char();
                            text.push(c0);
                            text.push(c1);
                            proof {
                                lemma_advance_add(start, 1, 1);
                                assert(text@ =~= model::chars_between(start.pending, 0, 2));
                            }
                            return b;
                        },
                        None => {},
                    }
                }
            },
            _ => {},
        }
        10
    }

    /// Reads the rest of a decimal number from its dot on. `text` holds the
    /// digits before the dot, which the stream has consumed since `start`.
    fn read_fraction(
        &mut self,
        text: Vec<char>,
        line: usize,
        column: usize,
        Ghost(start): Ghost<StreamModel>,
    ) -> (r: Result<Token, Error>)
        requires
            old(self).wf(),
            text@.len() < start.pending.len(),
            old(self)@ == start.advance(text@.len()),
            text@ == model::chars_between(start.pending, 0, text@.len() as int),
            model::item_is(start.pending, text@.len() as int, '.'),
            line == start.line,
            column == start.column,
            forall|i: int|
                0 <= i < text@.len() ==> spec_is_numeric(
                    #[trigger] text@[i],
                    10,
                ),
        ensures
            final(self).wf(),
            (reading_view(Some(r)), final(self)@) == model::read_fraction(start, 0, text@.len()),
    {
        let mut text = text;
        let ghost dot = text@.len();
        let after = self.peek_second();
        proof {
            lemma_advance_add(start, dot, 1);
            assert(model::item_at(start.pending, dot as int + 1) == after);
        }
        let continues = match after {
            Some(Ok(d)) => is_numeric(d, 10),
            _ => false,
        };
        if continues {
            let _ = self.next_char();
            proof {
                model::lemma_digits_end_bounds(start.pending, dot + 2, 10);
                assert(model::digits_end(start.pending, dot + 1, 10) == model::digits_end(
                    start.pending,
                    dot + 2,
                    10,
                ));
            }
            text.push('.');
            assert(text@ =~= model::chars_between(start.pending, 0, text@.len() as int));
            self.read_digits(&mut text, 10, Ghost(start));
            match self.check_number_end(Ghost(start), Ghost(text@.len())) {
                Some(error) => {
                    return Err(error);
                },
                None => {},
            }
            let lexeme = collect_chars(&text);
            return Ok(
                self.build_token(
                    TokenValue::FloatingPointLiteral(lexeme.clone()),
                    lexeme.as_str(),
                    line,
                    column,
                ),
            );
        }
        let blocked = match after {
            None => false,
            Some(Err(_)) => true,
            Some(Ok(d)) => d == '.' || is_word_char(d),
        };
        if blocked {
            let _ = self.next_char();
            match self.check_number_end(Ghost(start), Ghost((dot + 1) as nat)) {
                Some(error) => {
                    return Err(error);
                },
                None => {},
            }
        }
        self.integer_token(&text, 0, 10, line, column, Ghost(start))
    }

    /// Reads a number literal.
    fn read_number(&mut self) -> (r: Option<Result<Token, Error>>)
        requires
            old(self).wf(),
        ensures
            final(self).wf(),
            (reading_view(r), final(self)@) == model::read_number(old(self)@),
    {
        let line: usize = self.stream_line;
        let column: usize = self.stream_column;
        let ghost start = self@;
        let mut text: Vec<char> = Vec::new();
        let base: u32 = self.read_radix_prefix(&mut text);
        let first: usize = text.len();
        self.read_digits(&mut text, base, Ghost(start));
        if base == 10 {
            match self.peek_char() {
                Some(Ok(c)) => {
                    if c == '.' {
                        return Some(self.read_fraction(text, line, column, Ghost(start)));
                    }
                },
                _ => {},
            }
        }
        match self.check_number_end(Ghost(start), Ghost(text@.len())) {
            Some(error) => {
                return Some(Err(error));
            },
            None => {},
        }
        Some(self.integer_token(&text, first, base, line, column, Ghost(start)))
    }

    /// Reads what follows a backslash in a literal.
    fn read_escape_sequence(&mut self) -> (r: Result<char, Error>)
        requires
            old(self).wf(),
        ensures
            final(self).wf(),
            (escape_view(r), final(self)@) == model::read_escape(old(self)@),
            final(self).budget() <= old(self).budget(),
    {
        match self.next_char() {
            Some(Ok(c)) => {
                if c == 'r' || c == 'n' {
                    Ok('\n')
                } else if c == 't' {
                    Ok('\t')
                } else if c == '\\' || c == '\'' || c == '"' {
                    Ok(c)
                } else {
                    let mut message = String::from_str("invalid character in escape sequence: ");
                    message.push(c);
                    Err(self.error(message))
                }
            },
            None => Err(self.error(String::from_str("EOF reached while reading escape sequence"))),
            Some(Err(e)) => Err(self.io_error(e)),
        }
    }

    /// Reads the rest of a string literal whose opening quote, found at
    /// `line` and `column`, has been consumed.
    fn read_string(&mut self, line: usize, column: usize) -> (r: Option<Result<Token, Error>>)
        requires
            old(self).wf(),
        ensures
            final(self).wf(),
            (reading_view(r), final(self)@) == model::read_string(
                old(self)@,
                line as nat,
                column as nat,
            ),
    {
        let mut buf: Vec<char> = Vec::new();
        loop
            invariant
                self.wf(),
                model::read_string_from(self@, buf@, line as nat, column as nat)
                    == model::read_string(old(self)@, line as nat, column as nat),
            decreases self.budget(),
        {
            let ghost before = self@;
            match self.next_char() {
                Some(Ok(c)) => {
                    if c == '"' {
                        let decoded = collect_chars(&buf);
                        let mut text = String::new();
                        text.push('"');
                        text.append(decoded.as_str());
                        text.push('"');
                        assert(text@ =~= model::string_text(buf@));
                        return Some(
                            Ok(
                                self.build_token(
                                    TokenValue::StringLiteral(decoded),
                                    text.as_str(),
                                    line,
                                    column,
                                ),
                            ),
                        );
                    } else if c == '\n' {
                        return Some(
                            Err(
                                self.error(
                                    String::from_str(
                                        "unexpected newline while reading unterminated string",
                                    ),
                                ),
                            ),
                        );
                    } else if c == '\\' {
                        match self.read_escape_sequence() {
                            Ok(d) => {
                                buf.push(d);
                            },
                            Err(e) => {
                                return Some(Err(e));
                            },
                        }
                    } else {
                        buf.push(c);
                    }
                },
                None => {
                    proof {
                        lemma_advance_zero(before);
                    }
                    return Some(
                        Err(
                            self.error(
                                String::from_str("unexpected EOF while reading unterminated string"),
                            ),
                        ),
                    );
                },
                Some(Err(e)) => {
                    return Some(Err(self.io_error(e)));
                },
            }
        }
    }

    /// Reads the closing quote of the character literal that holds `c`.
    fn read_char_close(&mut self, c: char, line: usize, column: usize) -> (r: Option<
        Result<Token, Error>,
    >)
        requires
            old(self).wf(),
        ensures
            final(self).wf(),
            (reading_view(r), final(self)@) == model::read_char_close(
                old(self)@,
                c,
                line as nat,
                column as nat,
            ),
    {
        let ghost before = self@;
        match self.next_char() {
            Some(Ok(x)) => {
                if x == '\'' {
                    let mut text = String::new();
                    text.push('\'');
                    text.push(c);
                    text.push('\'');
                    assert(text@ =~= model::char_text(c));
                    let value = TokenValue::CharLiteral(c);
                    Some(Ok(self.build_token(value, text.as_str(), line, column)))
                } else {
                    let mut message = String::from_str("unexpected character '");
                    message.push(x);
                    message.append("': character literals can only contain one character");
                    Some(Err(self.error(message)))
                }
            },
            None => {
                proof {
                    lemma_advance_zero(before);
                }
                Some(
                    Err(
                        self.error(
                            String::from_str("unexpected EOF while reading unterminated string"),
                        ),
                    ),
                )
            },
            Some(Err(e)) => Some(Err(self.io_error(e))),
        }
    }

    /// Reads the rest of a character literal whose opening quote, found at
    /// `line` and `column`, has been consumed.
    fn read_char(&mut self, line: usize, column: usize) -> (r: Option<Result<Token, Error>>)
        requires
            old(self).wf(),
        ensures
            final(self).wf(),
            (reading_view(r), final(self)@) == model::read_char_literal(
                old(self)@,
                line as nat,
                column as nat,
            ),
    {
        let ghost before = self@;
        let res = match self.next_char() {
            Some(Ok(c)) => {
                if c == '\'' {
                    return Some(
                        Err(self.error(String::from_str("character literal cannot be empty"))),
                    );
                } else if c == '\\' {
                    match self.read_escape_sequence() {
                        Ok(d) => d,
                        Err(e) => {
                            return Some(Err(e));
                        },
                    }
                } else {
                    c
                }
            },
            None => {
                proof {
                    lemma_advance_zero(before);
                }
                return Some(
                    Err(
                        self.error(
                            String::from_str("unexpected EOF while reading character literal"),
                        ),
                    ),
                );
            },
            Some(Err(e)) => {
                return Some(Err(self.io_error(e)));
            },
        };
        self.read_char_close(res, line, column)
    }

    /// The token for the operator that `op` spells, which the stream has
    /// consumed since `start`.
    fn build_operator(
        &self,
        op: &Vec<char>,
        line: usize,
        column: usize,
        Ghost(start): Ghost<StreamModel>,
        Ghost(n): Ghost<nat>,
    ) -> (r: Option<Result<Token, Error>>)
        requires
            n <= start.pending.len(),
            self@ == start.advance(n),
            line == start.line,
            column == start.column,
        ensures
            (reading_view(r), self@) == model::build_operator(start, n, op@),
    {
        let text = collect_chars(op);
        let value = match binary_operator(op) {
            Some(b) => TokenValue::BinaryOperator(b),
            None => match comparison_operator(op) {
                Some(c) => TokenValue::Comparison(c),
                None => match unary_operator(op) {
                    Some(u) => TokenValue::UnaryOperator(u),
                    None => match assign_operator(op) {
                        Some(a) => TokenValue::Assignment(a),
                        None => {
                            let mut message = String::from_str("unknown operator string ");
                            message.append(text.as_str());
                            return Some(Err(self.internal_error(message)));
                        },
                    },
                },
            },
        };
        Some(Ok(self.build_token(value, text.as_str(), line, column)))
    }

    /// The operator `op`, which the stream has consumed since `start`, unless
    /// the item after it is a failed read, which is then consumed and
    /// reported.
    fn operator_unless_failed(
        &mut self,
        op: &Vec<char>,
        line: usize,
        column: usize,
        Ghost(start): Ghost<StreamModel>,
        Ghost(n): Ghost<nat>,
    ) -> (r: Option<Result<Token, Error>>)
        requires
            old(self).wf(),
            n <= start.pending.len(),
            old(self)@ == start.advance(n),
            line == start.line,
            column == start.column,
        ensures
            final(self).wf(),
            (reading_view(r), final(self)@) == model::operator_unless_failed(start, n, op@),
    {
        match self.peek_char() {
            Some(Err(e)) => {
                let _ = self.next_char();
                proof {
                    lemma_advance_add(start, n, 1);
                }
                Some(Err(self.io_error(e)))
            },
            _ => self.build_operator(op, line, column, Ghost(start), Ghost(n)),
        }
    }

    /// Whether the next item of the input is the character `c`.
    fn next_is(&mut self, c: char) -> (r: bool)
        requires
            old(self).wf(),
        ensures
            final(self).wf(),
            final(self)@ == old(self)@,
            r == model::item_is(old(self)@.pending, 0, c),
    {
        match self.peek_char() {
            Some(Ok(x)) => x == c,
            _ => false,
        }
    }

    /// Reads an operator: the longest one that the input spells.
    fn read_operator(&mut self) -> (r: Option<Result<Token, Error>>)
        requires
            old(self).wf(),
        ensures
            final(self).wf(),
            (reading_view(r), final(self)@) == model::read_operator(old(self)@),
    {
        let line: usize = self.stream_line;
        let column: usize = self.stream_column;
        let ghost start = self@;
        let c1: char = match self.next_char() {
            None => {
                return None;
            },
            Some(Err(e)) => {
                return Some(Err(self.io_error(e)));
            },
            Some(Ok(c)) => c,
        };
        let mut op: Vec<char> = Vec::new();
        op.push(c1);
        assert(op@ =~= seq![c1]);
        if c1 == '=' || c1 == '*' || c1 == '/' || c1 == '%' || c1 == '^' || c1 == '!' {
            // can be c or c=
            if self.next_is('=') {
                let _ = self.next_char();
                op.push('=');
                proof {
                    lemma_advance_add(start, 1, 1);
                    assert(op@ =~= seq![c1, '=']);
                }
                self.build_operator(&op, line, column, Ghost(start), Ghost(2))
            } else {
                self.operator_unless_failed(&op, line, column, Ghost(start), Ghost(1))
            }
        } else if c1 == '&' || c1 == '|' || c1 == '<' || c1 == '>' {
            // can be c, cc, c= or cc=
            if self.next_is(c1) {
                let _ = self.next_char();
                op.push(c1);
                proof {
                    lemma_advance_add(start, 1, 1);
                    assert(op@ =~= seq![c1, c1]);
                }
                if self.next_is('=') {
                    let _ = self.next_char();
                    op.push('=');
                    proof {
                        lemma_advance_add(start, 2, 1);
                        assert(op@ =~= seq![c1, c1, '=']);
                    }
                    self.build_operator(&op, line, column, Ghost(start), Ghost(3))
                } else {
                    self.operator_unless_failed(&op, line, column, Ghost(start), Ghost(2))
                }
            } else if self.next_is('=') {
                let _ = self.next_char();
                op.push('=');
                proof {
                    lemma_advance_add(start, 1, 1);
                    assert(op@ =~= seq![c1, '=']);
                }
                self.build_operator(&op, line, column, Ghost(start), Ghost(2))
            } else {
                self.operator_unless_failed(&op, line, column, Ghost(start), Ghost(1))
            }
        } else if c1 == '+' || c1 == '-' {
            // can be c, cc or c=
            if self.next_is(c1) {
                let _ = self.next_char();
                op.push(c1);
                proof {
                    lemma_advance_add(start, 1, 1);
                    assert(op@ =~= seq![c1, c1]);
                }
                self.build_operator(&op, line, column, Ghost(start), Ghost(2))
            } else if self.next_is('=') {
                let _ = self.next_char();
                op.push('=');
                proof {
                    lemma_advance_add(start, 1, 1);
                    assert(op@ =~= seq![c1, '=']);
                }
                self.build_operator(&op, line, column, Ghost(start), Ghost(2))
            } else {
                self.operator_unless_failed(&op, line, column, Ghost(start), Ghost(1))
            }
        } else {
            let mut message = String::from_str("unexpected character '");
            message.push(c1);
            message.append("' while reading operator token");
            Some(Err(self.error(message)))
        }
    }

    /// Reads the next token from the input, past what `peek` has set aside.
    fn read_token(&mut self) -> (r: Option<Result<Token, Error>>)
        requires
            old(self).wf(),
        ensures
            final(self).wf(),
            (reading_view(r), final(self)@) == model::read_token(old(self)@),
    {
        loop
            invariant
                self.wf(),
                model::read_token(self@) == model::read_token(old(self)@),
            decreases self.budget(),
        {
            let line: usize = self.stream_line;
            let column: usize = self.stream_column;
            let c: char = match self.peek_char() {
                None => {
                    return None;
                },
                Some(Err(e)) => {
                    let _ = self.next_char();
                    return Some(Err(self.io_error(e)));
                },
                Some(Ok(c)) => c,
            };
            if c == '\n' {
                let _ = self.next_char();
                let text = single_char(c);
                return Some(Ok(self.build_token(TokenValue::Newline, text.as_str(), line, column)));
            } else if is_space(c) {
                let _ = self.next_char();
            } else if c == '_' || is_letter(c) {
                return self.read_ident();
            } else if is_number(c) {
                return self.read_number();
            } else if let Some(value) = punctuation(c) {
                let _ = self.next_char();
                let text = single_char(c);
                return Some(Ok(self.build_token(value, text.as_str(), line, column)));
            } else if c == '"' {
                let _ = self.next_char();
                return self.read_string(line, column);
            } else if c == '\'' {
                let _ = self.next_char();
                return self.read_char(line, column);
            } else if is_operator(c) {
                return self.read_operator();
            } else {
                let _ = self.next_char();
                let mut message = String::from_str("unexpected character '");
                message.push(c);
                message.push('\'');
                return Some(Err(self.error(message)));
            }
        }
    }

    /// Reads the next token from the stream.
    ///
    /// Returns `None` when the end of the input has been reached without
    /// errors.
    pub fn next_token(&mut self) -> (r: Option<Result<Token, Error>>)
        requires
            old(self).wf(),
        ensures
            final(self).wf(),
            (reading_view(r), final(self)@) == model::next_token(old(self)@),
    {
        if self.cached_token.is_some() {
            let token = self.cached_token.take();
            return match token {
                Some(t) => Some(Ok(t)),
                None => None,
            };
        }
        self.read_token()
    }

    /// Reads the next token from the stream, as `next_token` does.
    pub fn next(&mut self) -> (r: Option<Result<Token, Error>>)
        requires
            old(self).wf(),
        ensures
            final(self).wf(),
            (reading_view(r), final(self)@) == model::next_token(old(self)@),
    {
        self.next_token()
    }

    /// Returns the next token without consuming it: the read that follows
    /// returns the same token.
    pub fn peek(&mut self) -> (r: Option<Result<Token, Error>>)
        requires
            old(self).wf(),
        ensures
            final(self).wf(),
            (reading_view(r), final(self)@) == model::peek(old(self)@),
    {
        let res = self.next_token();
        match &res {
            Some(Ok(t)) => {
                self.cached_token = Some(t.clone());
            },
            _ => {},
        }
        res
    }
}

/// The base that the letter of a base prefix selects.
fn radix(c: char) -> (r: Option<u32>)
    ensures
        match model::radix_of(c) {
            Some(base) => r == Some(base as u32),
            None => r is None,
        },
{
    if c == 'x' {
        Some(16)
    } else if c == 'b' {
        Some(2)
    } else if c == 'o' {
        Some(8)
    } else {
        None
    }
}

/// The number that the digits of `text` from index `first` on write in
/// `base`, where 128 signed bits can hold it.
fn parse_digits(text: &Vec<char>, first: usize, base: u32) -> (r: Option<i128>)
    requires
        first <= text@.len(),
        2 <= base <= 36,
        forall|i: int|
            first <= i < text@.len() ==> spec_is_numeric(
                #[trigger] text@[i],
                base as nat,
            ),
    ensures
        r == if model::digits_value(text@.skip(first as int), base as nat) <= i128::MAX {
            Some(model::digits_value(text@.skip(first as int), base as nat) as i128)
        } else {
            None
        },
{
    let ghost digits = text@.skip(first as int);
    let mut value: i128 = 0;
    let mut i: usize = first;
    proof {
        assert(digits.take(0) =~= Seq::<char>::empty());
    }
    while i < text.len()
        invariant
            first <= i <= text@.len(),
            2 <= base <= 36,
            digits == text@.skip(first as int),
            0 <= value,
            value == model::digits_value(digits.take(i - first), base as nat),
            forall|k: int|
                first <= k < text@.len() ==> spec_is_numeric(
                    #[trigger] text@[k],
                    base as nat,
                ),
        decreases text@.len() - i,
    {
        let c: char = text[i];
        assert(spec_is_numeric(text@[i as int], base as nat));
        let digit: i128 = match digit_of(c) {
            Some(d) => d as i128,
            None => 0,
        };
        let wide: i128 = base as i128;
        let limit: i128 = (i128::MAX - digit) / wide;
        proof {
            let taken = digits.take(i - first + 1);
            assert(taken.drop_last() =~= digits.take(i - first));
            assert(taken.last() == c);
            assert(model::digits_value(taken, base as nat) == value * wide + digit);
            lemma_digits_value_prefix(digits, (i - first + 1) as nat, base as nat);
            let v = value as int;
            let w = wide as int;
            let d = digit as int;
            let top = i128::MAX as int;
            assert(limit as int == (top - d) / w);
            if value > limit {
                assert(v * w + d > top) by (nonlinear_arith)
                    requires
                        v >= (top - d) / w + 1,
                        w > 0,
                        d >= 0,
                ;
            } else {
                assert(v * w + d <= top) by (nonlinear_arith)
                    requires
                        0 <= v <= (top - d) / w,
                        w > 0,
                        d >= 0,
                ;
                assert(v * w >= 0) by (nonlinear_arith)
                    requires
                        v >= 0,
                        w > 0,
                ;
            }
        }
        if value > limit {
            return None;
        }
        value = value * wide + digit;
        i += 1;
    }
    proof {
        assert(digits.take(i - first) =~= digits);
    }
    Some(value)
}

/// The binary operator that `op` spells.
fn binary_operator(op: &Vec<char>) -> (r: Option<BinaryOperator>)
    ensures
        r == model::binary_operator_of(op@),
{
    if same_text(op, "+") {
        Some(BinaryOperator::Add)
    } else if same_text(op, "-") {
        Some(BinaryOperator::Subtract)
    } else if same_text(op, "*") {
        Some(BinaryOperator::Multiply)
    } else if same_text(op, "/") {
        Some(BinaryOperator::Divide)
    } else if same_text(op, "%") {
        Some(BinaryOperator::Modulo)
    } else if same_text(op, "|") {
        Some(BinaryOperator::BinaryOr)
    } else if same_text(op, "&") {
        Some(BinaryOperator::BinaryAnd)
    } else if same_text(op, "^") {
        Some(BinaryOperator::Xor)
    } else if same_text(op, "||") {
        Some(BinaryOperator::LogicalOr)
    } else if same_text(op, "&&") {
        Some(BinaryOperator::LogicalAnd)
    } else if same_text(op, "<<") {
        Some(BinaryOperator::ShiftLeft)
    } else if same_text(op, ">>") {
        Some(BinaryOperator::ShiftRight)
    } else {
        None
    }
}

/// The comparison operator that `op` spells.
fn comparison_operator(op: &Vec<char>) -> (r: Option<ComparisonOperator>)
    ensures
        r == model::comparison_operator_of(op@),
{
    if same_text(op, "==") {
        Some(ComparisonOperator::Equals)
    } else if same_text(op, ">") {
        Some(ComparisonOperator::GreaterThan)
    } else if same_text(op, "<") {
        Some(ComparisonOperator::LessThan)
    } else if same_text(op, ">=") {
        Some(ComparisonOperator::GreaterThanOrEquals)
    } else if same_text(op, "<=") {
        Some(ComparisonOperator::LessThanOrEquals)
    } else if same_text(op, "!=") {
        Some(ComparisonOperator::NotEquals)
    } else {
        None
    }
}

/// The unary operator that `op` spells.
fn unary_operator(op: &Vec<char>) -> (r: Option<UnaryOperator>)
    ensures
        r == model::unary_operator_of(op@),
{
    if same_text(op, "!") {
        Some(UnaryOperator::Not)
    } else if same_text(op, "++") {
        Some(UnaryOperator::Increment)
    } else if same_text(op, "--") {
        Some(UnaryOperator::Decrement)
    } else {
        None
    }
}

/// The assignment operator that `op` spells.
fn assign_operator(op: &Vec<char>) -> (r: Option<AssignOperator>)
    ensures
        r == model::assign_operator_of(op@),
{
    if same_text(op, "=") {
        Some(AssignOperator::Assign)
    } else if same_text(op, "+=") {
        Some(AssignOperator::AssignAfter(BinaryOperator::Add))
    } else if same_text(op, "-=") {
        Some(AssignOperator::AssignAfter(BinaryOperator::Subtract))
    } else if same_text(op, "*=") {
        Some(AssignOperator::AssignAfter(BinaryOperator::Multiply))
    } else if same_text(op, "/=") {
        Some(AssignOperator::AssignAfter(BinaryOperator::Divide))
    } else if same_text(op, "%=") {
        Some(AssignOperator::AssignAfter(BinaryOperator::Modulo))
    } else if same_text(op, "|=") {
        Some(AssignOperator::AssignAfter(BinaryOperator::BinaryOr))
    } else if same_text(op, "&=") {
        Some(AssignOperator::AssignAfter(BinaryOperator::BinaryAnd))
    } else if same_text(op, "^=") {
        Some(AssignOperator::AssignAfter(BinaryOperator::Xor))
    } else if same_text(op, "||=") {
        Some(AssignOperator::AssignAfter(BinaryOperator::LogicalOr))
    } else if same_text(op, "&&=") {
        Some(AssignOperator::AssignAfter(BinaryOperator::LogicalAnd))
    } else if same_text(op, "<<=") {
        Some(AssignOperator::AssignAfter(BinaryOperator::ShiftLeft))
    } else if same_text(op, ">>=") {
        Some(AssignOperator::AssignAfter(BinaryOperator::ShiftRight))
    } else {
        None
    }
}

/// The text made of the single character `c`.
fn single_char(c: char) -> (s: String)
    ensures
        s@ == seq![c],
{
    let mut s = String::new();
    s.push(c);
    assert(s@ =~= seq![c]);
    s
}

/// The value of the token that the single character `c` is, if it is one.
fn punctuation(c: char) -> (r: Option<TokenValue>)
    ensures
        match model::punctuation_value(c) {
            Some(value) => r is Some && r->0@ == value,
            None => r is None,
        },
{
    if c == '{' {
        Some(TokenValue::OpenBrace)
    } else if c == '}' {
        Some(TokenValue::CloseBrace)
    } else if c == '[' {
        Some(TokenValue::OpenBracket)
    } else if c == ']' {
        Some(TokenValue::CloseBracket)
    } else if c == '(' {
        Some(TokenValue::OpenParen)
    } else if c == ')' {
        Some(TokenValue::CloseParen)
    } else if c == ',' {
        Some(TokenValue::Comma)
    } else if c == '.' {
        Some(TokenValue::Dot)
    } else {
        None
    }
}

} // verus!
