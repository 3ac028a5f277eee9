//! Tokens and the values they carry.
use vstd::prelude::*;
use vstd::string::*;
use vstd::utf8::encode_utf8;

verus! {

#[derive(Debug, Clone, Copy, PartialEq, Eq, Structural)]
pub enum UnaryOperator {
    Not,
    Increment,
    Decrement,
    Plus,
    Minus,
}

#[derive(Debug, Clone, Copy, PartialEq, Eq, Structural)]
pub enum BinaryOperator {
    Add,
    Subtract,
    Multiply,
    Divide,
    Modulo,
    BinaryOr,
    BinaryAnd,
    Xor,
    LogicalOr,
    LogicalAnd,
    ShiftLeft,
    ShiftRight,
}

#[derive(Debug, Clone, Copy, PartialEq, Eq, Structural)]
pub enum ComparisonOperator {
    Equals,
    GreaterThan,
    LessThan,
    GreaterThanOrEquals,
    LessThanOrEquals,
    NotEquals,
}

#[derive(Debug, Clone, Copy, PartialEq, Eq, Structural)]
pub enum AssignOperator {
    Assign,
    AssignAfter(BinaryOperator),
}

/// The classified value of a token.
///
/// A floating point literal carries its decimal text: one or more digits, a
/// dot, one or more digits. That text always parses as a 64-bit float.
#[derive(Debug, PartialEq, Eq)]
pub enum TokenValue {
    Identifier(String),
    IntegerLiteral(i128),
    FloatingPointLiteral(String),
    StringLiteral(String),
    CharLiteral(char),
    BoolLiteral(bool),
    UnaryOperator(UnaryOperator),
    BinaryOperator(BinaryOperator),
    Comparison(ComparisonOperator),
    Assignment(AssignOperator),
    OpenParen,
    CloseParen,
    OpenBrace,
    CloseBrace,
    OpenBracket,
    CloseBracket,
    Dot,
    Comma,
    Newline,
    KeywordFunc,
    KeywordTest,
    KeywordIf,
    KeywordElse,
    KeywordFor,
    KeywordLoop,
    KeywordWhile,
    KeywordVar,
    KeywordConst,
    KeywordUse,
    KeywordAs,
    KeywordReturn,
}

/// Mathematical value of a [`TokenValue`]: text is a sequence of characters.
pub ghost enum TokenValueModel {
    Identifier(Seq<char>),
    IntegerLiteral(i128),
    FloatingPointLiteral(Seq<char>),
    StringLiteral(Seq<char>),
    CharLiteral(char),
    BoolLiteral(bool),
    UnaryOperator(UnaryOperator),
    BinaryOperator(BinaryOperator),
    Comparison(ComparisonOperator),
    Assignment(AssignOperator),
    OpenParen,
    CloseParen,
    OpenBrace,
    CloseBrace,
    OpenBracket,
    CloseBracket,
    Dot,
    Comma,
    Newline,
    KeywordFunc,
    KeywordTest,
    KeywordIf,
    KeywordElse,
    KeywordFor,
    KeywordLoop,
    KeywordWhile,
    KeywordVar,
    KeywordConst,
    KeywordUse,
    KeywordAs,
    KeywordReturn,
}

impl View for TokenValue {
    type V = TokenValueModel;

    open spec fn view(&self) -> TokenValueModel {
        match self {
            TokenValue::Identifier(s) => TokenValueModel::Identifier(s@),
            TokenValue::IntegerLiteral(v) => TokenValueModel::IntegerLiteral(*v),
            TokenValue::FloatingPointLiteral(s) => TokenValueModel::FloatingPointLiteral(s@),
            TokenValue::StringLiteral(s) => TokenValueModel::StringLiteral(s@),
            TokenValue::CharLiteral(c) => TokenValueModel::CharLiteral(*c),
            TokenValue::BoolLiteral(b) => TokenValueModel::BoolLiteral(*b),
            TokenValue::UnaryOperator(op) => TokenValueModel::UnaryOperator(*op),
            TokenValue::BinaryOperator(op) => TokenValueModel::BinaryOperator(*op),
            TokenValue::Comparison(op) => TokenValueModel::Comparison(*op),
            TokenValue::Assignment(op) => TokenValueModel::Assignment(*op),
            TokenValue::OpenParen => TokenValueModel::OpenParen,
            TokenValue::CloseParen => TokenValueModel::CloseParen,
            TokenValue::OpenBrace => TokenValueModel::OpenBrace,
            TokenValue::CloseBrace => TokenValueModel::CloseBrace,
            TokenValue::OpenBracket => TokenValueModel::OpenBracket,
            TokenValue::CloseBracket => TokenValueModel::CloseBracket,
            TokenValue::Dot => TokenValueModel::Dot,
            TokenValue::Comma => TokenValueModel::Comma,
            TokenValue::Newline => TokenValueModel::Newline,
            TokenValue::KeywordFunc => TokenValueModel::KeywordFunc,
            TokenValue::KeywordTest => TokenValueModel::KeywordTest,
            TokenValue::KeywordIf => TokenValueModel::KeywordIf,
            TokenValue::KeywordElse => TokenValueModel::KeywordElse,
            TokenValue::KeywordFor => TokenValueModel::KeywordFor,
            TokenValue::KeywordLoop => TokenValueModel::KeywordLoop,
            TokenValue::KeywordWhile => TokenValueModel::KeywordWhile,
            TokenValue::KeywordVar => TokenValueModel::KeywordVar,
            TokenValue::KeywordConst => TokenValueModel::KeywordConst,
            TokenValue::KeywordUse => TokenValueModel::KeywordUse,
            TokenValue::KeywordAs => TokenValueModel::KeywordAs,
            TokenValue::KeywordReturn => TokenValueModel::KeywordReturn,
        }
    }
}

impl Clone for TokenValue {
    fn clone(&self) -> (r: Self)
        ensures
            r == *self,
    {
        match self {
            TokenValue::Identifier(s) => TokenValue::Identifier(s.clone()),
            TokenValue::IntegerLiteral(v) => TokenValue::IntegerLiteral(*v),
            TokenValue::FloatingPointLiteral(s) => TokenValue::FloatingPointLiteral(s.clone()),
            TokenValue::StringLiteral(s) => TokenValue::StringLiteral(s.clone()),
            TokenValue::CharLiteral(c) => TokenValue::CharLiteral(*c),
            TokenValue::BoolLiteral(b) => TokenValue::BoolLiteral(*b),
            TokenValue::UnaryOperator(op) => TokenValue::UnaryOperator(*op),
            TokenValue::BinaryOperator(op) => TokenValue::BinaryOperator(*op),
            TokenValue::Comparison(op) => TokenValue::Comparison(*op),
            TokenValue::Assignment(op) => TokenValue::Assignment(*op),
            TokenValue::OpenParen => TokenValue::OpenParen,
            TokenValue::CloseParen => TokenValue::CloseParen,
            TokenValue::OpenBrace => TokenValue::OpenBrace,
            TokenValue::CloseBrace => TokenValue::CloseBrace,
            TokenValue::OpenBracket => TokenValue::OpenBracket,
            TokenValue::CloseBracket => TokenValue::CloseBracket,
            TokenValue::Dot => TokenValue::Dot,
            TokenValue::Comma => TokenValue::Comma,
            TokenValue::Newline => TokenValue::Newline,
            TokenValue::KeywordFunc => TokenValue::KeywordFunc,
            TokenValue::KeywordTest => TokenValue::KeywordTest,
            TokenValue::KeywordIf => TokenValue::KeywordIf,
            TokenValue::KeywordElse => TokenValue::KeywordElse,
            TokenValue::KeywordFor => TokenValue::KeywordFor,
            TokenValue::KeywordLoop => TokenValue::KeywordLoop,
            TokenValue::KeywordWhile => TokenValue::KeywordWhile,
            TokenValue::KeywordVar => TokenValue::KeywordVar,
            TokenValue::KeywordConst => TokenValue::KeywordConst,
            TokenValue::KeywordUse => TokenValue::KeywordUse,
            TokenValue::KeywordAs => TokenValue::KeywordAs,
            TokenValue::KeywordReturn => TokenValue::KeywordReturn,
        }
    }
}

impl TokenValue {
    /// Whether the two values are the same.
    pub fn same_as(&self, other: &TokenValue) -> (r: bool)
        ensures
            r == (self@ == other@),
    {
        match (self, other) {
            (TokenValue::Identifier(a), TokenValue::Identifier(b)) => *a == *b,
            (TokenValue::IntegerLiteral(a), TokenValue::IntegerLiteral(b)) => *a == *b,
            (TokenValue::FloatingPointLiteral(a), TokenValue::FloatingPointLiteral(b)) => *a == *b,
            (TokenValue::StringLiteral(a), TokenValue::StringLiteral(b)) => *a == *b,
            (TokenValue::CharLiteral(a), TokenValue::CharLiteral(b)) => *a == *b,
            (TokenValue::BoolLiteral(a), TokenValue::BoolLiteral(b)) => *a == *b,
            (TokenValue::UnaryOperator(a), TokenValue::UnaryOperator(b)) => *a == *b,
            (TokenValue::BinaryOperator(a), TokenValue::BinaryOperator(b)) => *a == *b,
            (TokenValue::Comparison(a), TokenValue::Comparison(b)) => *a == *b,
            (TokenValue::Assignment(a), TokenValue::Assignment(b)) => *a == *b,
            (TokenValue::OpenParen, TokenValue::OpenParen) => true,
            (TokenValue::CloseParen, TokenValue::CloseParen) => true,
            (TokenValue::OpenBrace, TokenValue::OpenBrace) => true,
            (TokenValue::CloseBrace, TokenValue::CloseBrace) => true,
            (TokenValue::OpenBracket, TokenValue::OpenBracket) => true,
            (TokenValue::CloseBracket, TokenValue::CloseBracket) => true,
            (TokenValue::Dot, TokenValue::Dot) => true,
            (TokenValue::Comma, TokenValue::Comma) => true,
            (TokenValue::Newline, TokenValue::Newline) => true,
            (TokenValue::KeywordFunc, TokenValue::KeywordFunc) => true,
            (TokenValue::KeywordTest, TokenValue::KeywordTest) => true,
            (TokenValue::KeywordIf, TokenValue::KeywordIf) => true,
            (TokenValue::KeywordElse, TokenValue::KeywordElse) => true,
            (TokenValue::KeywordFor, TokenValue::KeywordFor) => true,
            (TokenValue::KeywordLoop, TokenValue::KeywordLoop) => true,
            (TokenValue::KeywordWhile, TokenValue::KeywordWhile) => true,
            (TokenValue::KeywordVar, TokenValue::KeywordVar) => true,
            (TokenValue::KeywordConst, TokenValue::KeywordConst) => true,
            (TokenValue::KeywordUse, TokenValue::KeywordUse) => true,
            (TokenValue::KeywordAs, TokenValue::KeywordAs) => true,
            (TokenValue::KeywordReturn, TokenValue::KeywordReturn) => true,
            _ => false,
        }
    }
}

/// One lexical unit, with where it was read.
///
/// `line` and `column` are 1-based and locate the first character of the token.
/// `length` is the length of `text` in bytes.
#[derive(Debug)]
pub struct Token {
    pub column: usize,
    pub line: usize,
    pub length: usize,
    pub path: String,
    pub text: String,
    pub value: TokenValue,
}

/// Mathematical value of a [`Token`].
pub ghost struct TokenModel {
    pub column: nat,
    pub line: nat,
    pub length: nat,
    pub path: Seq<char>,
    pub text: Seq<char>,
    pub value: TokenValueModel,
}

impl View for Token {
    type V = TokenModel;

    open spec fn view(&self) -> TokenModel {
        TokenModel {
            column: self.column as nat,
            line: self.line as nat,
            length: self.length as nat,
            path: self.path@,
            text: self.text@,
            value: self.value@,
        }
    }
}

impl Clone for Token {
    fn clone(&self) -> (r: Self)
        ensures
            r == *self,
    {
        Token {
            column: self.column,
            line: self.line,
            length: self.length,
            path: self.path.clone(),
            text: self.text.clone(),
            value: self.value.clone(),
        }
    }
}

/// The token that a tokenizer reading `path` builds for `text` found at
/// `line` and `column`: its length is the number of bytes `text` takes in
/// UTF-8.
pub open spec fn token_at(
    path: Seq<char>,
    line: nat,
    column: nat,
    value: TokenValueModel,
    text: Seq<char>,
) -> TokenModel {
    TokenModel { column, line, length: encode_utf8(text).len(), path, text, value }
}

} // verus!
