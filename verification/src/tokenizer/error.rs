//! Errors of the tokenizer.
use crate::text::{decimal_text, hex_text, push_decimal, push_hex};
use vstd::prelude::*;
use vstd::string::*;

verus! {

/// Why the next character could not be read from the input.
#[derive(Debug, Clone, Copy, PartialEq, Eq, Structural)]
pub enum ReadError {
    /// The input ended inside a UTF-8 sequence.
    UnexpectedEof,
    /// The next four bytes, given here, do not begin with a valid UTF-8
    /// sequence.
    InvalidData(u8, u8, u8, u8),
}

#[derive(Debug, Clone, Copy, PartialEq, Eq, Structural)]
pub enum ErrorKind {
    InvalidInput,
    Internal,
    IOError(ReadError),
}

/// A lexical error, located at the position the tokenizer had reached.
#[derive(Debug)]
pub struct Error {
    pub message: String,
    pub kind: ErrorKind,
    pub line: usize,
    pub column: usize,
    pub source: String,
}

/// Mathematical value of an [`Error`].
pub ghost struct ErrorModel {
    pub message: Seq<char>,
    pub kind: ErrorKind,
    pub line: nat,
    pub column: nat,
    pub source: Seq<char>,
}

impl View for Error {
    type V = ErrorModel;

    open spec fn view(&self) -> ErrorModel {
        ErrorModel {
            message: self.message@,
            kind: self.kind,
            line: self.line as nat,
            column: self.column as nat,
            source: self.source@,
        }
    }
}

/// What a [`ReadError`] is written as.
pub open spec fn read_error_text(e: ReadError) -> Seq<char> {
    match e {
        ReadError::UnexpectedEof => "incomplete UTF-8 codepoint"@,
        ReadError::InvalidData(b0, b1, b2, b3) => "failed to parse UTF-8 data: "@ + hex_text(
            b0 as nat,
        ) + hex_text(b1 as nat) + hex_text(b2 as nat) + hex_text(b3 as nat),
    }
}

/// What an [`ErrorKind`] is written as.
pub open spec fn kind_text(kind: ErrorKind) -> Seq<char> {
    match kind {
        ErrorKind::InvalidInput => "invalid input"@,
        ErrorKind::Internal => "internal tokenizer error"@,
        ErrorKind::IOError(e) => "I/O error: "@ + read_error_text(e),
    }
}

/// The start of every diagnostic line: `source:line:column: `.
pub open spec fn location_text(source: Seq<char>, line: nat, column: nat) -> Seq<char> {
    source + seq![':'] + decimal_text(line) + seq![':'] + decimal_text(column) + seq![':', ' ']
}

/// The part of a diagnostic line that carries the message: nothing for an
/// empty message, else the message in parentheses after a space.
pub open spec fn message_suffix(message: Seq<char>) -> Seq<char> {
    if message.len() == 0 {
        Seq::<char>::empty()
    } else {
        seq![' ', '('] + message + seq![')']
    }
}

/// The one-line diagnostic of an error: `source:line:column: kind`, followed
/// by ` (message)` when the message is not empty.
pub open spec fn diagnostic_text(e: ErrorModel) -> Seq<char> {
    location_text(e.source, e.line, e.column) + kind_text(e.kind) + message_suffix(e.message)
}

/// Appends `source:line:column: ` to `out`.
pub fn push_location(out: &mut String, source: &String, line: usize, column: usize)
    ensures
        final(out)@ == old(out)@ + location_text(source@, line as nat, column as nat),
{
    out.append(source.as_str());
    out.push(':');
    push_decimal(out, line);
    out.push(':');
    push_decimal(out, column);
    out.push(':');
    out.push(' ');
    assert(out@ =~= old(out)@ + location_text(source@, line as nat, column as nat));
}

/// Appends the message part of a diagnostic line to `out`.
pub fn push_message_suffix(out: &mut String, message: &String)
    ensures
        final(out)@ == old(out)@ + message_suffix(message@),
{
    if message.as_str().is_empty() {
        assert(out@ =~= old(out)@ + message_suffix(message@));
    } else {
        out.push(' ');
        out.push('(');
        out.append(message.as_str());
        out.push(')');
        assert(out@ =~= old(out)@ + message_suffix(message@));
    }
}

impl ReadError {
    /// The text of the error.
    pub fn to_string(&self) -> (s: String)
        ensures
            s@ == read_error_text(*self),
    {
        match self {
            ReadError::UnexpectedEof => String::from_str("incomplete UTF-8 codepoint"),
            ReadError::InvalidData(b0, b1, b2, b3) => {
                let mut s = String::from_str("failed to parse UTF-8 data: ");
                push_hex(&mut s, *b0);
                push_hex(&mut s, *b1);
                push_hex(&mut s, *b2);
                push_hex(&mut s, *b3);
                assert(s@ =~= read_error_text(*self));
                s
            },
        }
    }
}

impl ErrorKind {
    /// The text of the kind of error.
    pub fn to_string(&self) -> (s: String)
        ensures
            s@ == kind_text(*self),
    {
        match self {
            ErrorKind::InvalidInput => String::from_str("invalid input"),
            ErrorKind::Internal => String::from_str("internal tokenizer error"),
            ErrorKind::IOError(e) => {
                let mut s = String::from_str("I/O error: ");
                let detail = e.to_string();
                s.append(detail.as_str());
                s
            },
        }
    }
}

impl Error {
    /// The diagnostic line of the error.
    pub fn to_string(&self) -> (s: String)
        ensures
            s@ == diagnostic_text(self@),
    {
        let mut s = String::new();
        push_location(&mut s, &self.source, self.line, self.column);
        let kind = self.kind.to_string();
        s.append(kind.as_str());
        push_message_suffix(&mut s, &self.message);
        assert(s@ =~= diagnostic_text(self@));
        s
    }
}

} // verus!
