//! Errors of the parser.
use crate::tokenizer;
use crate::tokenizer::error::{diagnostic_text, location_text, message_suffix};
use crate::tokenizer::error::{push_location, push_message_suffix};
use crate::tokenizer::model::StreamModel;
use crate::tokenizer::{Token, TokenModel, TokenStream};
use vstd::prelude::*;
use vstd::string::*;

verus! {

/// A syntactic error, with the place in the source that it is about.
#[derive(Debug)]
pub struct Error {
    pub message: String,
    pub kind: ErrorKind,
    pub line: usize,
    pub column: usize,
    pub source: String,
}

#[derive(Debug)]
pub enum ErrorKind {
    Nop,
    TokenizerError(tokenizer::Error),
    UnexpectedToken(Token),
    UnexpectedEOF,
    InvalidImport(String),
    SymbolRedefined(String),
}

/// Mathematical value of an [`ErrorKind`].
pub ghost enum ErrorKindModel {
    Nop,
    TokenizerError(tokenizer::ErrorModel),
    UnexpectedToken(TokenModel),
    UnexpectedEOF,
    InvalidImport(Seq<char>),
    SymbolRedefined(Seq<char>),
}

/// Mathematical value of an [`Error`].
pub ghost struct ErrorModel {
    pub message: Seq<char>,
    pub kind: ErrorKindModel,
    pub line: nat,
    pub column: nat,
    pub source: Seq<char>,
}

impl View for ErrorKind {
    type V = ErrorKindModel;

    open spec fn view(&self) -> ErrorKindModel {
        match self {
            ErrorKind::Nop => ErrorKindModel::Nop,
            ErrorKind::TokenizerError(e) => ErrorKindModel::TokenizerError(e@),
            ErrorKind::UnexpectedToken(t) => ErrorKindModel::UnexpectedToken(t@),
            ErrorKind::UnexpectedEOF => ErrorKindModel::UnexpectedEOF,
            ErrorKind::InvalidImport(s) => ErrorKindModel::InvalidImport(s@),
            ErrorKind::SymbolRedefined(s) => ErrorKindModel::SymbolRedefined(s@),
        }
    }
}

impl View for Error {
    type V = ErrorModel;

    open spec fn view(&self) -> ErrorModel {
        ErrorModel {
            message: self.message@,
            kind: self.kind@,
            line: self.line as nat,
            column: self.column as nat,
            source: self.source@,
        }
    }
}

/// The error of the given kind at the position that the stream has reached.
pub open spec fn error_at(s: StreamModel, kind: ErrorKindModel, message: Seq<char>) -> ErrorModel {
    ErrorModel { message, kind, line: s.line, column: s.column, source: s.path }
}

pub open spec fn redefined_message(ident: Seq<char>) -> Seq<char> {
    seq!['`'] + ident + "` already defined"@
}

/// The error for a second definition of `ident`, at the position that the
/// stream has reached.
pub open spec fn redefined_symbol(s: StreamModel, ident: Seq<char>) -> ErrorModel {
    error_at(s, ErrorKindModel::SymbolRedefined(ident), redefined_message(ident))
}

/// The error for a token that does not fit where it stands, located at the
/// token.
pub open spec fn unexpected_token(t: TokenModel, message: Seq<char>) -> ErrorModel {
    ErrorModel {
        message,
        kind: ErrorKindModel::UnexpectedToken(t),
        line: t.line,
        column: t.column,
        source: t.path,
    }
}

/// The syntactic error that wraps a lexical error; it keeps its place.
pub open spec fn from_tokenizer(e: tokenizer::ErrorModel) -> ErrorModel {
    ErrorModel {
        message: "tokenizer error"@,
        kind: ErrorKindModel::TokenizerError(e),
        line: e.line,
        column: e.column,
        source: e.source,
    }
}

/// What an [`ErrorKind`] is written as.
pub open spec fn kind_text(kind: ErrorKindModel) -> Seq<char> {
    match kind {
        ErrorKindModel::Nop => "no error"@,
        ErrorKindModel::TokenizerError(e) => diagnostic_text(e),
        ErrorKindModel::UnexpectedToken(t) => "unexpected token `"@ + t.text + seq!['`'],
        ErrorKindModel::UnexpectedEOF => "unexpected EOF"@,
        ErrorKindModel::InvalidImport(import) => "invalid import `"@ + import + seq!['`'],
        ErrorKindModel::SymbolRedefined(ident) => seq!['`'] + ident + "` is already defined"@,
    }
}

/// The one-line diagnostic of an error. A wrapped lexical error is written
/// as the lexical error alone; any other as `source:line:column: kind`,
/// followed by ` (message)` when the message is not empty.
pub open spec fn parse_diagnostic_text(e: ErrorModel) -> Seq<char> {
    match e.kind {
        ErrorKindModel::TokenizerError(inner) => diagnostic_text(inner),
        _ => location_text(e.source, e.line, e.column) + kind_text(e.kind) + message_suffix(
            e.message,
        ),
    }
}

impl ErrorKind {
    /// The text of the kind of error.
    pub fn to_string(&self) -> (s: String)
        ensures
            s@ == kind_text(self@),
    {
        match self {
            ErrorKind::Nop => String::from_str("no error"),
            ErrorKind::TokenizerError(e) => e.to_string(),
            ErrorKind::UnexpectedToken(t) => {
                let mut s = String::from_str("unexpected token `");
                s.append(t.text.as_str());
                s.push('`');
                assert(s@ =~= kind_text(self@));
                s
            },
            ErrorKind::UnexpectedEOF => String::from_str("unexpected EOF"),
            ErrorKind::InvalidImport(import) => {
                let mut s = String::from_str("invalid import `");
                s.append(import.as_str());
                s.push('`');
                assert(s@ =~= kind_text(self@));
                s
            },
            ErrorKind::SymbolRedefined(ident) => {
                let mut s = String::new();
                s.push('`');
                s.append(ident.as_str());
                s.append("` is already defined");
                assert(s@ =~= kind_text(self@));
                s
            },
        }
    }
}

impl Error {
    /// The error of the given kind at the position that `ts` has reached.
    pub fn new(ts: &TokenStream, kind: ErrorKind, message: String) -> (r: Self)
        ensures
            r@ == error_at(ts@, kind@, message@),
    {
        let (path, line, col) = ts.position();
        Error { message, kind, line, column: col, source: path }
    }

    /// The error for a second definition of `ident`, at the position that
    /// `ts` has reached.
    pub fn redefined_symbol(ts: &TokenStream, ident: &str) -> (r: Self)
        ensures
            r@ == redefined_symbol(ts@, ident@),
    {
        let (path, line, col) = ts.position();
        let mut message = String::new();
        message.push('`');
        message.append(ident);
        message.append("` already defined");
        assert(message@ =~= redefined_message(ident@));
        Error {
            message,
            kind: ErrorKind::SymbolRedefined(String::from_str(ident)),
            line,
            column: col,
            source: path,
        }
    }

    /// The error for the token `t`, which does not fit where it stands.
    pub fn unexpected_token(t: Token, message: String) -> (r: Self)
        ensures
            r@ == unexpected_token(t@, message@),
    {
        Error {
            message,
            line: t.line,
            column: t.column,
            source: t.path.clone(),
            kind: ErrorKind::UnexpectedToken(t),
        }
    }

    /// The syntactic error that wraps the lexical error `value`.
    pub fn from_tokenizer(value: tokenizer::Error) -> (r: Self)
        ensures
            r@ == from_tokenizer(value@),
    {
        Error {
            message: String::from_str("tokenizer error"),
            line: value.line,
            column: value.column,
            source: value.source.clone(),
            kind: ErrorKind::TokenizerError(value),
        }
    }

    /// The diagnostic line of the error.
    pub fn to_string(&self) -> (s: String)
        ensures
            s@ == parse_diagnostic_text(self@),
    {
        match &self.kind {
            ErrorKind::TokenizerError(e) => {
                return e.to_string();
            },
            _ => {},
        }
        let mut s = String::new();
        push_location(&mut s, &self.source, self.line, self.column);
        let kind = self.kind.to_string();
        s.append(kind.as_str());
        push_message_suffix(&mut s, &self.message);
        assert(s@ =~= parse_diagnostic_text(self@));
        s
    }
}

} // verus!
