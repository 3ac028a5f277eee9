//! Predicates over tokens, and the precedence of operators.
use crate::tokenizer::{
    AssignOperator, BinaryOperator, Token, TokenModel, TokenValue, TokenValueModel,
};
use vstd::prelude::*;

verus! {

/// How tightly an operator binds, from the loosest to the tightest. A token
/// that is no operator ranks below every operator.
#[derive(Debug, Clone, Copy, PartialEq, Eq, Structural)]
pub enum OperatorPrecedence {
    NotAnOperator,
    LogicalOr,
    LogicalAnd,
    BitwiseOr,
    BitwiseXor,
    BitwiseAnd,
    Comparison,
    BitwiseShift,
    Sum,
    Multiplication,
    UnaryOperator,
}

impl OperatorPrecedence {
    /// The place of the precedence in the total order: a larger rank binds
    /// tighter.
    pub open spec fn spec_rank(self) -> nat {
        match self {
            OperatorPrecedence::NotAnOperator => 0,
            OperatorPrecedence::LogicalOr => 1,
            OperatorPrecedence::LogicalAnd => 2,
            OperatorPrecedence::BitwiseOr => 3,
            OperatorPrecedence::BitwiseXor => 4,
            OperatorPrecedence::BitwiseAnd => 5,
            OperatorPrecedence::Comparison => 6,
            OperatorPrecedence::BitwiseShift => 7,
            OperatorPrecedence::Sum => 8,
            OperatorPrecedence::Multiplication => 9,
            OperatorPrecedence::UnaryOperator => 10,
        }
    }

    /// The place of the precedence in the total order.
    pub fn rank(self) -> (r: u8)
        ensures
            r == self.spec_rank(),
    {
        match self {
            OperatorPrecedence::NotAnOperator => 0,
            OperatorPrecedence::LogicalOr => 1,
            OperatorPrecedence::LogicalAnd => 2,
            OperatorPrecedence::BitwiseOr => 3,
            OperatorPrecedence::BitwiseXor => 4,
            OperatorPrecedence::BitwiseAnd => 5,
            OperatorPrecedence::Comparison => 6,
            OperatorPrecedence::BitwiseShift => 7,
            OperatorPrecedence::Sum => 8,
            OperatorPrecedence::Multiplication => 9,
            OperatorPrecedence::UnaryOperator => 10,
        }
    }

    /// The precedence of the operator that the token is.
    pub open spec fn of(value: TokenValueModel) -> OperatorPrecedence {
        match value {
            TokenValueModel::UnaryOperator(_) => OperatorPrecedence::UnaryOperator,
            TokenValueModel::BinaryOperator(b) => match b {
                BinaryOperator::Add | BinaryOperator::Subtract => OperatorPrecedence::Sum,
                BinaryOperator::Multiply | BinaryOperator::Divide | BinaryOperator::Modulo => {
                    OperatorPrecedence::Multiplication
                },
                BinaryOperator::BinaryOr => OperatorPrecedence::BitwiseOr,
                BinaryOperator::BinaryAnd => OperatorPrecedence::BitwiseAnd,
                BinaryOperator::Xor => OperatorPrecedence::BitwiseXor,
                BinaryOperator::LogicalOr => OperatorPrecedence::LogicalOr,
                BinaryOperator::LogicalAnd => OperatorPrecedence::LogicalAnd,
                BinaryOperator::ShiftLeft | BinaryOperator::ShiftRight => {
                    OperatorPrecedence::BitwiseShift
                },
            },
            TokenValueModel::Comparison(_) => OperatorPrecedence::Comparison,
            _ => OperatorPrecedence::NotAnOperator,
        }
    }

    /// The precedence of the operator that the token is.
    pub fn from(t: &Token) -> (r: Self)
        ensures
            r == OperatorPrecedence::of(t@.value),
    {
        match &t.value {
            TokenValue::UnaryOperator(_) => OperatorPrecedence::UnaryOperator,
            TokenValue::BinaryOperator(b) => match b {
                BinaryOperator::Add | BinaryOperator::Subtract => OperatorPrecedence::Sum,
                BinaryOperator::Multiply | BinaryOperator::Divide | BinaryOperator::Modulo => {
                    OperatorPrecedence::Multiplication
                },
                BinaryOperator::BinaryOr => OperatorPrecedence::BitwiseOr,
                BinaryOperator::BinaryAnd => OperatorPrecedence::BitwiseAnd,
                BinaryOperator::Xor => OperatorPrecedence::BitwiseXor,
                BinaryOperator::LogicalOr => OperatorPrecedence::LogicalOr,
                BinaryOperator::LogicalAnd => OperatorPrecedence::LogicalAnd,
                BinaryOperator::ShiftLeft | BinaryOperator::ShiftRight => {
                    OperatorPrecedence::BitwiseShift
                },
            },
            TokenValue::Comparison(_) => OperatorPrecedence::Comparison,
            _ => OperatorPrecedence::NotAnOperator,
        }
    }
}

/// A predicate over tokens, by which a parser says where something ends.
#[derive(Debug)]
pub enum TokenMatcher {
    /// Any identifier.
    Identifier,
    Newline,
    Comma,
    CloseParen,
    OpenBrace,
    CloseBrace,
    /// The plain assignment operator `=`.
    Assign,
    /// A token that either of the two matches.
    Either(Box<TokenMatcher>, Box<TokenMatcher>),
    /// A token that the other does not match.
    Not(Box<TokenMatcher>),
    /// A token of strictly higher precedence than the given one.
    Outranks(OperatorPrecedence),
}

impl TokenMatcher {
    /// Whether the predicate holds of the token.
    pub open spec fn accepts(self, t: TokenModel) -> bool
        decreases self,
    {
        match self {
            TokenMatcher::Identifier => t.value is Identifier,
            TokenMatcher::Newline => t.value is Newline,
            TokenMatcher::Comma => t.value is Comma,
            TokenMatcher::CloseParen => t.value is CloseParen,
            TokenMatcher::OpenBrace => t.value is OpenBrace,
            TokenMatcher::CloseBrace => t.value is CloseBrace,
            TokenMatcher::Assign => t.value == TokenValueModel::Assignment(AssignOperator::Assign),
            TokenMatcher::Either(a, b) => a.accepts(t) || b.accepts(t),
            TokenMatcher::Not(a) => !a.accepts(t),
            TokenMatcher::Outranks(p) => OperatorPrecedence::of(t.value).spec_rank()
                > p.spec_rank(),
        }
    }

    /// Whether the predicate holds of the token.
    pub fn matches(&self, t: &Token) -> (r: bool)
        ensures
            r == self.accepts(t@),
        decreases self,
    {
        match self {
            TokenMatcher::Identifier => identifier(t),
            TokenMatcher::Newline => newline(t),
            TokenMatcher::Comma => comma(t),
            TokenMatcher::CloseParen => close_paren(t),
            TokenMatcher::OpenBrace => match t.value {
                TokenValue::OpenBrace => true,
                _ => false,
            },
            TokenMatcher::CloseBrace => match t.value {
                TokenValue::CloseBrace => true,
                _ => false,
            },
            TokenMatcher::Assign => match t.value {
                TokenValue::Assignment(AssignOperator::Assign) => true,
                _ => false,
            },
            TokenMatcher::Either(a, b) => a.matches(t) || b.matches(t),
            TokenMatcher::Not(a) => !a.matches(t),
            TokenMatcher::Outranks(p) => OperatorPrecedence::from(t).rank() > p.rank(),
        }
    }
}

pub fn identifier(t: &Token) -> (r: bool)
    ensures
        r == t@.value is Identifier,
{
    if let TokenValue::Identifier(_) = t.value {
        true
    } else {
        false
    }
}

pub fn newline(t: &Token) -> (r: bool)
    ensures
        r == t@.value is Newline,
{
    match t.value {
        TokenValue::Newline => true,
        _ => false,
    }
}

pub fn comma(t: &Token) -> (r: bool)
    ensures
        r == t@.value is Comma,
{
    match t.value {
        TokenValue::Comma => true,
        _ => false,
    }
}

pub fn close_paren(t: &Token) -> (r: bool)
    ensures
        r == t@.value is CloseParen,
{
    match t.value {
        TokenValue::CloseParen => true,
        _ => false,
    }
}

/// The predicate that holds of the tokens of which `term1` or `term2` holds.
pub fn either(term1: TokenMatcher, term2: TokenMatcher) -> (r: TokenMatcher)
    ensures
        r == TokenMatcher::Either(Box::new(term1), Box::new(term2)),
        forall|t: TokenModel| #[trigger] r.accepts(t) == (term1.accepts(t) || term2.accepts(t)),
{
    TokenMatcher::Either(Box::new(term1), Box::new(term2))
}

/// The predicate that holds of the tokens of strictly higher precedence than
/// the operator `t`: those that bind tighter, and so belong to the term that
/// is being read. No token that is not an operator is among them.
pub fn term_delimiter_for(t: &Token) -> (r: TokenMatcher)
    ensures
        r == TokenMatcher::Outranks(OperatorPrecedence::of(t@.value)),
        forall|other: TokenModel| #[trigger]
            r.accepts(other) == (OperatorPrecedence::of(other.value).spec_rank()
                > OperatorPrecedence::of(t@.value).spec_rank()),
{
    TokenMatcher::Outranks(OperatorPrecedence::from(t))
}

/// The precedence order is total: two precedences of the same rank are the
/// same precedence, and unary operators outrank multiplicative ones, which
/// outrank additive ones, then shifts, comparisons, bitwise and, bitwise
/// exclusive or, bitwise or, logical and, logical or.
pub proof fn lemma_precedence_total(a: OperatorPrecedence, b: OperatorPrecedence)
    ensures
        a.spec_rank() == b.spec_rank() ==> a == b,
        a.spec_rank() < b.spec_rank() || a == b || b.spec_rank() < a.spec_rank(),
        OperatorPrecedence::UnaryOperator.spec_rank() > OperatorPrecedence::Multiplication.spec_rank()
            > OperatorPrecedence::Sum.spec_rank() > OperatorPrecedence::BitwiseShift.spec_rank()
            > OperatorPrecedence::Comparison.spec_rank() > OperatorPrecedence::BitwiseAnd.spec_rank()
            > OperatorPrecedence::BitwiseXor.spec_rank() > OperatorPrecedence::BitwiseOr.spec_rank()
            > OperatorPrecedence::LogicalAnd.spec_rank() > OperatorPrecedence::LogicalOr.spec_rank()
            > OperatorPrecedence::NotAnOperator.spec_rank(),
{
}

/// A token that is not an operator never belongs to the term of an operator:
/// it outranks nothing.
pub proof fn lemma_non_operator_terminates(t: TokenModel, p: OperatorPrecedence)
    requires
        !(t.value is UnaryOperator || t.value is BinaryOperator || t.value is Comparison),
    ensures
        !TokenMatcher::Outranks(p).accepts(t),
{
}

} // verus!
