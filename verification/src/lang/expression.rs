//! Expression trees.
use crate::tokenizer::{BinaryOperator, Token, TokenModel, UnaryOperator};
use vstd::prelude::*;
use vstd::string::*;

verus! {

/// An expression, with the first token it was read from.
#[derive(Debug)]
pub struct Expression {
    pub value: ExpressionValue,
    pub first_token: Token,
}

/// A possibly qualified name: the segments of its namespace, outermost
/// first, and the name itself.
#[derive(Debug, Clone)]
pub struct Identifier {
    pub namespace: Vec<String>,
    pub name: String,
}

#[derive(Debug)]
pub struct FunctionCall {
    pub function: Box<Expression>,
    pub args: Vec<Expression>,
}

#[derive(Debug)]
pub struct BinOp {
    pub operator: BinaryOperator,
    pub operands: Vec<Expression>,
}

#[derive(Debug)]
pub struct UnOp {
    pub operator: UnaryOperator,
    pub operand: Box<Expression>,
}

/// A literal value. A floating point literal is held as its decimal text.
#[derive(Debug, Clone, PartialEq, Eq)]
pub enum Literal {
    Integer(i128),
    Float(String),
    String(String),
    Char(char),
    Bool(bool),
}

#[derive(Debug)]
pub enum ExpressionValue {
    Identifier(Identifier),
    FunctionCall(FunctionCall),
    BinaryOperation(BinOp),
    UnaryOperation(UnOp),
    Literal(Literal),
}

/// Mathematical value of a [`Literal`].
pub ghost enum LiteralModel {
    Integer(i128),
    Float(Seq<char>),
    String(Seq<char>),
    Char(char),
    Bool(bool),
}

/// Mathematical value of an [`Expression`]: a tree whose nodes own their
/// children.
pub ghost struct ExpressionModel {
    pub value: ExpressionValueModel,
    pub first_token: TokenModel,
}

/// Mathematical value of an [`ExpressionValue`].
#[allow(inconsistent_fields)]
pub ghost enum ExpressionValueModel {
    Identifier { namespace: Seq<Seq<char>>, name: Seq<char> },
    FunctionCall { function: Box<ExpressionModel>, args: Seq<ExpressionModel> },
    BinaryOperation { operator: BinaryOperator, operands: Seq<ExpressionModel> },
    UnaryOperation { operator: UnaryOperator, operand: Box<ExpressionModel> },
    Literal(LiteralModel),
}

impl View for Literal {
    type V = LiteralModel;

    open spec fn view(&self) -> LiteralModel {
        match self {
            Literal::Integer(v) => LiteralModel::Integer(*v),
            Literal::Float(v) => LiteralModel::Float(v@),
            Literal::String(v) => LiteralModel::String(v@),
            Literal::Char(v) => LiteralModel::Char(*v),
            Literal::Bool(v) => LiteralModel::Bool(*v),
        }
    }
}

/// The texts that a sequence of strings holds.
pub open spec fn texts(words: Seq<String>) -> Seq<Seq<char>> {
    Seq::new(words.len(), |i: int| words[i]@)
}

/// The mathematical values of a sequence of expressions.
pub open spec fn expression_models(expressions: Seq<Expression>) -> Seq<ExpressionModel>
    decreases expressions,
{
    Seq::new(
        expressions.len(),
        |i: int|
            if 0 <= i < expressions.len() {
                expression_model(expressions[i])
            } else {
                arbitrary()
            },
    )
}

/// The mathematical value of an expression.
pub open spec fn expression_model(e: Expression) -> ExpressionModel
    decreases e,
{
    ExpressionModel {
        value: match e.value {
            ExpressionValue::Identifier(id) => ExpressionValueModel::Identifier {
                namespace: texts(id.namespace@),
                name: id.name@,
            },
            ExpressionValue::FunctionCall(call) => ExpressionValueModel::FunctionCall {
                function: Box::new(expression_model(*call.function)),
                args: expression_models(call.args@),
            },
            ExpressionValue::BinaryOperation(op) => ExpressionValueModel::BinaryOperation {
                operator: op.operator,
                operands: expression_models(op.operands@),
            },
            ExpressionValue::UnaryOperation(op) => ExpressionValueModel::UnaryOperation {
                operator: op.operator,
                operand: Box::new(expression_model(*op.operand)),
            },
            ExpressionValue::Literal(v) => ExpressionValueModel::Literal(v@),
        },
        first_token: e.first_token@,
    }
}

impl View for Expression {
    type V = ExpressionModel;

    open spec fn view(&self) -> ExpressionModel {
        expression_model(*self)
    }
}

/// The identifier that the dot-separated `words` name: the last word is the
/// name, the words before it the namespace. No word at all names the empty
/// identifier.
pub open spec fn identifier_of(words: Seq<Seq<char>>) -> ExpressionValueModel {
    if words.len() == 0 {
        ExpressionValueModel::Identifier {
            namespace: Seq::<Seq<char>>::empty(),
            name: Seq::<char>::empty(),
        }
    } else {
        ExpressionValueModel::Identifier { namespace: words.drop_last(), name: words.last() }
    }
}

/// The expression that applies the unary `operator` to `operand`.
pub open spec fn unary_of(
    operator: UnaryOperator,
    operand: ExpressionModel,
    first_token: TokenModel,
) -> ExpressionModel {
    ExpressionModel {
        value: ExpressionValueModel::UnaryOperation { operator, operand: Box::new(operand) },
        first_token,
    }
}

/// The expression that calls `function` with `args`; it begins where
/// `function` begins.
pub open spec fn call_of(function: ExpressionModel, args: Seq<ExpressionModel>) -> ExpressionModel {
    ExpressionModel {
        value: ExpressionValueModel::FunctionCall { function: Box::new(function), args },
        first_token: function.first_token,
    }
}

/// The expression that is the literal `value`.
pub open spec fn literal_of(value: LiteralModel, first_token: TokenModel) -> ExpressionModel {
    ExpressionModel { value: ExpressionValueModel::Literal(value), first_token }
}

impl Expression {
    pub fn identifier(words: Vec<String>, first_token: Token) -> (r: Self)
        ensures
            r@ == (ExpressionModel {
                value: identifier_of(texts(words@)),
                first_token: first_token@,
            }),
    {
        let mut words = words;
        let ghost all = words@;
        let ident = match words.pop() {
            Some(word) => word,
            None => String::new(),
        };
        proof {
            if all.len() > 0 {
                assert(texts(words@) =~= texts(all).drop_last());
            } else {
                assert(texts(words@) =~= Seq::<Seq<char>>::empty());
            }
        }
        Expression {
            value: ExpressionValue::Identifier(Identifier { namespace: words, name: ident }),
            first_token,
        }
    }

    pub fn literal_string(v: String, first_token: Token) -> (r: Self)
        ensures
            r@ == literal_of(LiteralModel::String(v@), first_token@),
    {
        Expression { value: ExpressionValue::Literal(Literal::String(v)), first_token }
    }

    pub fn literal_char(v: char, first_token: Token) -> (r: Self)
        ensures
            r@ == literal_of(LiteralModel::Char(v), first_token@),
    {
        Expression { value: ExpressionValue::Literal(Literal::Char(v)), first_token }
    }

    pub fn literal_int(v: i128, first_token: Token) -> (r: Self)
        ensures
            r@ == literal_of(LiteralModel::Integer(v), first_token@),
    {
        Expression { value: ExpressionValue::Literal(Literal::Integer(v)), first_token }
    }

    /// A floating point literal, given as its decimal text.
    pub fn literal_float(v: String, first_token: Token) -> (r: Self)
        ensures
            r@ == literal_of(LiteralModel::Float(v@), first_token@),
    {
        Expression { value: ExpressionValue::Literal(Literal::Float(v)), first_token }
    }

    pub fn literal_bool(v: bool, first_token: Token) -> (r: Self)
        ensures
            r@ == literal_of(LiteralModel::Bool(v), first_token@),
    {
        Expression { value: ExpressionValue::Literal(Literal::Bool(v)), first_token }
    }

    /// The expression that applies `operator` to `operand`.
    pub fn unary(operator: UnaryOperator, operand: Expression, first_token: Token) -> (r: Self)
        ensures
            r@ == unary_of(operator, operand@, first_token@),
    {
        Expression {
            value: ExpressionValue::UnaryOperation(UnOp { operator, operand: Box::new(operand) }),
            first_token,
        }
    }

    pub fn unary_plus(operand: Expression, first_token: Token) -> (r: Self)
        ensures
            r@ == unary_of(UnaryOperator::Plus, operand@, first_token@),
    {
        Expression::unary(UnaryOperator::Plus, operand, first_token)
    }

    pub fn unary_minus(operand: Expression, first_token: Token) -> (r: Self)
        ensures
            r@ == unary_of(UnaryOperator::Minus, operand@, first_token@),
    {
        Expression::unary(UnaryOperator::Minus, operand, first_token)
    }

    pub fn unary_not(operand: Expression, first_token: Token) -> (r: Self)
        ensures
            r@ == unary_of(UnaryOperator::Not, operand@, first_token@),
    {
        Expression::unary(UnaryOperator::Not, operand, first_token)
    }

    pub fn function_call(function: Expression, args: Vec<Expression>) -> (r: Self)
        ensures
            r@ == call_of(function@, expression_models(args@)),
    {
        let first_token = function.first_token.clone();
        Expression {
            value: ExpressionValue::FunctionCall(
                FunctionCall { function: Box::new(function), args },
            ),
            first_token,
        }
    }
}

} // verus!
