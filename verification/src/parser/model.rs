//! What the parser computes, stated over the mathematical value of a token
//! stream and of a module.
use crate::lang::expression::{call_of, identifier_of, literal_of, unary_of};
use crate::lang::ttype::type_of_name;
use crate::lang::{
    ConstModel, ExpressionModel, ImportModel, LiteralModel, SymbolModel, TypeModel, VariableModel,
};
use crate::parser::error::{
    error_at, from_tokenizer, redefined_symbol, unexpected_token, ErrorKindModel, ErrorModel,
};
use crate::parser::token_matcher::TokenMatcher;
use crate::text::last_segment;
use crate::tokenizer::decoder::decode_items;
use crate::tokenizer::laws::{lemma_reads_shrink, measure};
use crate::tokenizer::model::{is_empty, next_token, peek, StreamModel};
use crate::tokenizer::{BinaryOperator, TokenModel, TokenValueModel, UnaryOperator};
use vstd::prelude::*;

verus! {

/// What a step of the parser gives: its result, and the stream that is left.
pub type Parsed<T> = (Result<T, ErrorModel>, StreamModel);

/// The namespace of a module.
pub type Namespace = Map<Seq<char>, SymbolModel>;

/// What a step of the parser that defines symbols gives: its result, the
/// namespace with what was defined before any error, and the stream that is
/// left.
pub ghost struct Outcome {
    pub result: Result<(), ErrorModel>,
    pub module: Namespace,
    pub stream: StreamModel,
}

/// One parsed declaration of a `const` or `var` block.
pub ghost struct DeclarationModel {
    pub identifier: Seq<char>,
    pub ttype: TypeModel,
    pub value: ExpressionModel,
    pub first_token: TokenModel,
}

// ---------------------------------------------------------------------------
// Tokens
// ---------------------------------------------------------------------------
/// Checking that the next token is one that `m` matches, without consuming
/// it.
pub open spec fn ensure_next_token(s: StreamModel, m: TokenMatcher, message: Seq<char>) -> Parsed<
    (),
> {
    match peek(s) {
        (Some(Ok(t)), rest) => if m.accepts(t) {
            (Ok(()), rest)
        } else {
            (Err(unexpected_token(t, message)), rest)
        },
        (Some(Err(e)), rest) => (Err(from_tokenizer(e)), rest),
        (None, rest) => (Err(error_at(rest, ErrorKindModel::UnexpectedEOF, message)), rest),
    }
}

/// Consuming the next token, which must be one that `m` matches.
pub open spec fn consume_token(s: StreamModel, m: TokenMatcher, message: Seq<char>) -> Parsed<
    TokenModel,
> {
    match next_token(s) {
        (Some(Ok(t)), rest) => if m.accepts(t) {
            (Ok(t), rest)
        } else {
            (Err(unexpected_token(t, message)), rest)
        },
        (Some(Err(e)), rest) => (Err(from_tokenizer(e)), rest),
        (None, rest) => (
            Err(error_at(rest, ErrorKindModel::UnexpectedEOF, Seq::<char>::empty())),
            rest,
        ),
    }
}

/// Consuming tokens up to the first one that `m` matches, which stays in the
/// stream, or up to the end of the input.
pub open spec fn skip_until(s: StreamModel, m: TokenMatcher) -> Parsed<()>
    decreases measure(s),
{
    if is_empty(s) {
        (Ok(()), s)
    } else {
        match peek(s) {
            (Some(Ok(t)), rest) => if m.accepts(t) {
                (Ok(()), rest)
            } else {
                proof {
                    lemma_reads_shrink(s);
                }
                skip_until(next_token(rest).1, m)
            },
            (Some(Err(e)), rest) => (Err(from_tokenizer(e)), rest),
            (None, rest) => (Ok(()), rest),
        }
    }
}

/// Consuming the tokens that `m` matches, up to the first one that it does
/// not match.
pub open spec fn skip_while(s: StreamModel, m: TokenMatcher) -> Parsed<()> {
    skip_until(s, TokenMatcher::Not(Box::new(m)))
}

pub open spec fn scan_message(name: Seq<char>) -> Seq<char> {
    "while looking for `"@ + name + "` block"@
}

/// Looking for the keyword that opens an optional block, past any newlines.
///
/// The keyword is consumed and the block is present. A token among `allowed`
/// and the end of the input stay where they are and the block is absent.
/// Any other token is an error.
pub open spec fn scan_for_keyword(
    s: StreamModel,
    keyword: TokenValueModel,
    name: Seq<char>,
    allowed: Seq<TokenValueModel>,
) -> Parsed<bool> {
    match skip_while(s, TokenMatcher::Newline) {
        (Err(e), s1) => (Err(e), s1),
        (Ok(_), s1) => match peek(s1) {
            (Some(Ok(t)), s2) => if t.value == keyword {
                (Ok(true), next_token(s2).1)
            } else if allowed.contains(t.value) {
                (Ok(false), s2)
            } else {
                (Err(unexpected_token(t, scan_message(name))), s2)
            },
            (Some(Err(e)), s2) => (Err(from_tokenizer(e)), s2),
            (None, s2) => (Ok(false), s2),
        },
    }
}

// ---------------------------------------------------------------------------
// Expressions
// ---------------------------------------------------------------------------
pub open spec fn eof_expression_message() -> Seq<char> {
    "unexpected EOF, expression expected"@
}

pub open spec fn eof_identifier_message() -> Seq<char> {
    "unexpected EOF, identifier expected"@
}

/// The end of an identifier path before the token `next`: a path that ends
/// in an identifier is complete, one that is empty or ends in a dot is not.
pub open spec fn path_end(
    s: StreamModel,
    next: Option<TokenModel>,
    words: Seq<Seq<char>>,
    must_dot: bool,
) -> Parsed<Seq<Seq<char>>> {
    if must_dot {
        (Ok(words), s)
    } else {
        match next {
            Some(t) => (Err(unexpected_token(t, "expected identifier"@)), s),
            None => (Err(error_at(s, ErrorKindModel::UnexpectedEOF, eof_identifier_message())), s),
        }
    }
}

/// Whether an identifier path ends before a token of this value, whatever
/// the caller waits for.
pub open spec fn ends_path(value: TokenValueModel) -> bool {
    value is UnaryOperator || value is BinaryOperator || value is Comparison || value
        is Assignment || value is Comma || value is Newline || value is OpenBracket || value
        is OpenParen
}

/// Reading the rest of an identifier path: identifiers separated by single
/// dots. `must_dot` tells that the last token read was an identifier.
pub open spec fn parse_path(
    s: StreamModel,
    words: Seq<Seq<char>>,
    must_dot: bool,
    terminator: TokenMatcher,
) -> Parsed<Seq<Seq<char>>>
    decreases measure(s),
{
    match peek(s) {
        (None, s1) => path_end(s1, None, words, must_dot),
        (Some(Err(e)), s1) => (Err(from_tokenizer(e)), s1),
        (Some(Ok(t)), s1) => {
            proof {
                lemma_reads_shrink(s);
            }
            match t.value {
                TokenValueModel::Identifier(word) => if !must_dot {
                    parse_path(next_token(s1).1, words.push(word), true, terminator)
                } else {
                    (Err(unexpected_token(t, "expected `.` or end of identifier"@)), s1)
                },
                TokenValueModel::Dot => if must_dot {
                    parse_path(next_token(s1).1, words, false, terminator)
                } else {
                    (Err(unexpected_token(t, "while parsing identifier"@)), s1)
                },
                _ => if ends_path(t.value) || terminator.accepts(t) {
                    path_end(s1, Some(t), words, must_dot)
                } else {
                    (Err(unexpected_token(t, "while parsing identifier"@)), s1)
                },
            }
        },
    }
}

/// Reading an identifier path: one or more identifiers separated by dots.
/// The last one is the name, those before it the namespace.
pub open spec fn parse_identifier(s: StreamModel, terminator: TokenMatcher) -> Parsed<
    ExpressionModel,
> {
    match peek(s) {
        (None, s1) => (
            Err(error_at(s1, ErrorKindModel::UnexpectedEOF, eof_identifier_message())),
            s1,
        ),
        (Some(Err(e)), s1) => (Err(from_tokenizer(e)), s1),
        (Some(Ok(first)), s1) => match parse_path(
            s1,
            Seq::<Seq<char>>::empty(),
            false,
            terminator,
        ) {
            (Err(e), s2) => (Err(e), s2),
            (Ok(words), s2) => (
                Ok(ExpressionModel { value: identifier_of(words), first_token: first }),
                s2,
            ),
        },
    }
}

/// The unary operation on what was parsed, if it was parsed.
pub open spec fn wrap_unary(
    operator: UnaryOperator,
    first: TokenModel,
    operand: Parsed<ExpressionModel>,
) -> Parsed<ExpressionModel> {
    match operand {
        (Ok(sub), rest) => (Ok(unary_of(operator, sub, first)), rest),
        (Err(e), rest) => (Err(e), rest),
    }
}

/// What follows an expression in parentheses: the closing parenthesis.
pub open spec fn close_group(inner: Parsed<ExpressionModel>) -> Parsed<ExpressionModel> {
    match inner {
        (Ok(sub), rest) => match consume_token(rest, TokenMatcher::CloseParen, ""@) {
            (Ok(_), after) => (Ok(sub), after),
            (Err(e), after) => (Err(e), after),
        },
        (Err(e), rest) => (Err(e), rest),
    }
}

/// The terminator of one argument of a call: a closing parenthesis or a
/// comma.
pub open spec fn argument_end() -> TokenMatcher {
    TokenMatcher::Either(Box::new(TokenMatcher::CloseParen), Box::new(TokenMatcher::Comma))
}

/// The primary that begins with the token `first`, which `peek` has set
/// aside in the stream `s`. `operand` is what parsing an expression after
/// that token gives with the terminator of the caller, `group` what it gives
/// up to a closing parenthesis.
pub open spec fn parse_primary(
    s: StreamModel,
    first: TokenModel,
    terminator: TokenMatcher,
    operand: Parsed<ExpressionModel>,
    group: Parsed<ExpressionModel>,
) -> Parsed<ExpressionModel> {
    let rest = next_token(s).1;
    match first.value {
        TokenValueModel::Identifier(_) => parse_identifier(s, terminator),
        TokenValueModel::IntegerLiteral(v) => (
            Ok(literal_of(LiteralModel::Integer(v), first)),
            rest,
        ),
        TokenValueModel::FloatingPointLiteral(v) => (
            Ok(literal_of(LiteralModel::Float(v), first)),
            rest,
        ),
        TokenValueModel::StringLiteral(v) => (Ok(literal_of(LiteralModel::String(v), first)), rest),
        TokenValueModel::CharLiteral(v) => (Ok(literal_of(LiteralModel::Char(v), first)), rest),
        TokenValueModel::BoolLiteral(v) => (Ok(literal_of(LiteralModel::Bool(v), first)), rest),
        TokenValueModel::UnaryOperator(operator) => wrap_unary(operator, first, operand),
        TokenValueModel::BinaryOperator(BinaryOperator::Subtract) => wrap_unary(
            UnaryOperator::Minus,
            first,
            operand,
        ),
        TokenValueModel::BinaryOperator(BinaryOperator::Add) => wrap_unary(
            UnaryOperator::Plus,
            first,
            operand,
        ),
        TokenValueModel::OpenParen => close_group(group),
        _ => (Err(unexpected_token(first, "expecting an expression"@)), s),
    }
}

/// Parsing an expression up to a token that `terminator` matches, which
/// stays in the stream, or up to the end of the input.
///
/// An expression is a primary followed by any number of trailers. A primary
/// is an identifier path, a literal, a unary operator or a sign followed by
/// an expression, or an expression in parentheses. The only trailer is the
/// argument list of a call, and only an identifier path can be called.
///
/// The tests on `measure` are true of every stream, see
/// [`lemma_parse_unfolds`]; they make the definition well-founded.
pub open spec fn parse(s: StreamModel, terminator: TokenMatcher) -> Parsed<ExpressionModel>
    decreases measure(s), 2nat,
{
    match peek(s) {
        (None, s1) => (
            Err(error_at(s1, ErrorKindModel::UnexpectedEOF, eof_expression_message())),
            s1,
        ),
        (Some(Err(e)), s1) => (Err(from_tokenizer(e)), s1),
        (Some(Ok(first)), s1) => {
            proof {
                lemma_reads_shrink(s);
            }
            let s2 = next_token(s1).1;
            match parse_primary(
                s1,
                first,
                terminator,
                parse(s2, terminator),
                parse(s2, TokenMatcher::CloseParen),
            ) {
                (Err(e), s3) => (Err(e), s3),
                (Ok(expr), s3) => if measure(s3) <= measure(s) {
                    parse_trailers(s3, expr, terminator)
                } else {
                    (Ok(expr), s3)
                },
            }
        },
    }
}

/// Parsing what follows the expression `expr`: nothing before a token that
/// `terminator` matches or at the end of the input; the argument list of a
/// call after an identifier path; an error before any other token. Member
/// access, indexing and binary operators are recognized and refused.
pub open spec fn parse_trailers(
    s: StreamModel,
    expr: ExpressionModel,
    terminator: TokenMatcher,
) -> Parsed<ExpressionModel>
    decreases measure(s), 1nat,
{
    match peek(s) {
        (None, s1) => (Ok(expr), s1),
        (Some(Err(e)), s1) => (Err(from_tokenizer(e)), s1),
        (Some(Ok(t)), s1) => if terminator.accepts(t) {
            (Ok(expr), s1)
        } else if expr.value is Identifier && t.value is OpenParen {
            proof {
                lemma_reads_shrink(s);
            }
            match parse_arguments(next_token(s1).1) {
                (Err(e), s2) => (Err(e), s2),
                (Ok(args), s2) => if measure(s2) < measure(s) {
                    parse_trailers(s2, call_of(expr, args), terminator)
                } else {
                    (Ok(call_of(expr, args)), s2)
                },
            }
        } else if t.value is Dot {
            (
                Err(
                    unexpected_token(
                        t,
                        "member access is only supported for identifier expressions"@,
                    ),
                ),
                s1,
            )
        } else if t.value is BinaryOperator {
            (Err(unexpected_token(t, "binary operators are not implemented yet"@)), s1)
        } else if t.value is OpenBracket {
            (Err(unexpected_token(t, "list member access is not implemented yet"@)), s1)
        } else {
            (Err(unexpected_token(t, "while parsing expression"@)), s1)
        },
    }
}

/// Parsing the arguments of a call, after its opening parenthesis: no
/// argument before a closing parenthesis, else a list of arguments.
pub open spec fn parse_arguments(s: StreamModel) -> Parsed<Seq<ExpressionModel>>
    decreases measure(s), 4nat,
{
    match peek(s) {
        (Some(Ok(t)), s1) => if t.value is CloseParen {
            (Ok(Seq::<ExpressionModel>::empty()), next_token(s1).1)
        } else {
            proof {
                lemma_reads_shrink(s);
            }
            parse_argument_list(s1, Seq::<ExpressionModel>::empty())
        },
        (Some(Err(e)), s1) => (Err(from_tokenizer(e)), s1),
        (None, s1) => (
            Err(error_at(s1, ErrorKindModel::UnexpectedEOF, eof_expression_message())),
            s1,
        ),
    }
}

/// Parsing the rest of a list of arguments, after `args`: one expression,
/// then a comma and the rest of the list, or the closing parenthesis.
pub open spec fn parse_argument_list(s: StreamModel, args: Seq<ExpressionModel>) -> Parsed<
    Seq<ExpressionModel>,
>
    decreases measure(s), 3nat,
{
    match parse(s, argument_end()) {
        (Err(e), s1) => (Err(e), s1),
        (Ok(arg), s1) => match peek(s1) {
            (Some(Ok(t)), s2) => if t.value is CloseParen {
                (Ok(args.push(arg)), next_token(s2).1)
            } else if t.value is Comma {
                if measure(next_token(s2).1) < measure(s) {
                    parse_argument_list(next_token(s2).1, args.push(arg))
                } else {
                    (Ok(args.push(arg)), next_token(s2).1)
                }
            } else {
                (Err(unexpected_token(t, "while parsing function call argument list"@)), s2)
            },
            (Some(Err(e)), s2) => (Err(from_tokenizer(e)), s2),
            (None, s2) => (
                Err(error_at(s2, ErrorKindModel::UnexpectedEOF, eof_expression_message())),
                s2,
            ),
        },
    }
}

/// Consuming a token leaves less to read than there was, and looking at
/// one leaves no more.
pub proof fn lemma_consume_token_shrinks(s: StreamModel, m: TokenMatcher, message: Seq<char>)
    ensures
        measure(consume_token(s, m, message).1) <= measure(s),
        consume_token(s, m, message).0 is Ok ==> measure(consume_token(s, m, message).1)
            < measure(s),
        measure(ensure_next_token(s, m, message).1) <= measure(s),
{
    lemma_reads_shrink(s);
}

/// Skipping tokens leaves no more to read than there was.
pub proof fn lemma_skip_until_shrinks(s: StreamModel, m: TokenMatcher)
    ensures
        measure(skip_until(s, m).1) <= measure(s),
    decreases measure(s),
{
    lemma_reads_shrink(s);
    if !is_empty(s) {
        match peek(s) {
            (Some(Ok(t)), rest) => {
                if !m.accepts(t) {
                    lemma_reads_shrink(rest);
                    lemma_skip_until_shrinks(next_token(rest).1, m);
                }
            },
            _ => {},
        }
    }
}

/// Reading an identifier path leaves no more to read than there was.
pub proof fn lemma_parse_path_shrinks(
    s: StreamModel,
    words: Seq<Seq<char>>,
    must_dot: bool,
    terminator: TokenMatcher,
)
    ensures
        measure(parse_path(s, words, must_dot, terminator).1) <= measure(s),
    decreases measure(s),
{
    lemma_reads_shrink(s);
    match peek(s) {
        (Some(Ok(t)), s1) => {
            lemma_reads_shrink(s1);
            match t.value {
                TokenValueModel::Identifier(word) => {
                    if !must_dot {
                        lemma_parse_path_shrinks(
                            next_token(s1).1,
                            words.push(word),
                            true,
                            terminator,
                        );
                    }
                },
                TokenValueModel::Dot => {
                    if must_dot {
                        lemma_parse_path_shrinks(next_token(s1).1, words, false, terminator);
                    }
                },
                _ => {},
            }
        },
        _ => {},
    }
}

/// Reading an identifier leaves no more to read than there was.
pub proof fn lemma_parse_identifier_shrinks(s: StreamModel, terminator: TokenMatcher)
    ensures
        measure(parse_identifier(s, terminator).1) <= measure(s),
{
    lemma_reads_shrink(s);
    lemma_parse_path_shrinks(peek(s).1, Seq::<Seq<char>>::empty(), false, terminator);
}

/// A primary leaves no more to read than the bound that holds of the stream
/// and of what its operand and its group left.
pub proof fn lemma_parse_primary_shrinks(
    s: StreamModel,
    first: TokenModel,
    terminator: TokenMatcher,
    operand: Parsed<ExpressionModel>,
    group: Parsed<ExpressionModel>,
    bound: nat,
)
    requires
        measure(s) <= bound,
        measure(operand.1) <= bound,
        measure(group.1) <= bound,
    ensures
        measure(parse_primary(s, first, terminator, operand, group).1) <= bound,
{
    lemma_reads_shrink(s);
    lemma_parse_identifier_shrinks(s, terminator);
    lemma_consume_token_shrinks(group.1, TokenMatcher::CloseParen, ""@);
}

/// Parsing an expression leaves no more to read than there was.
pub proof fn lemma_parse_shrinks(s: StreamModel, terminator: TokenMatcher)
    ensures
        measure(parse(s, terminator).1) <= measure(s),
    decreases measure(s), 2nat,
{
    lemma_reads_shrink(s);
    match peek(s) {
        (Some(Ok(first)), s1) => {
            lemma_reads_shrink(s1);
            let s2 = next_token(s1).1;
            lemma_parse_shrinks(s2, terminator);
            lemma_parse_shrinks(s2, TokenMatcher::CloseParen);
            let operand = parse(s2, terminator);
            let group = parse(s2, TokenMatcher::CloseParen);
            lemma_parse_primary_shrinks(s1, first, terminator, operand, group, measure(s));
            match parse_primary(s1, first, terminator, operand, group) {
                (Ok(expr), s3) => {
                    lemma_parse_trailers_shrinks(s3, expr, terminator);
                },
                _ => {},
            }
        },
        _ => {},
    }
}

/// Parsing the trailers of an expression leaves no more to read than there
/// was.
pub proof fn lemma_parse_trailers_shrinks(
    s: StreamModel,
    expr: ExpressionModel,
    terminator: TokenMatcher,
)
    ensures
        measure(parse_trailers(s, expr, terminator).1) <= measure(s),
    decreases measure(s), 1nat,
{
    lemma_reads_shrink(s);
    match peek(s) {
        (Some(Ok(t)), s1) => {
            lemma_reads_shrink(s1);
            if !terminator.accepts(t) && expr.value is Identifier && t.value is OpenParen {
                lemma_parse_arguments_shrinks(next_token(s1).1);
                match parse_arguments(next_token(s1).1) {
                    (Ok(args), s2) => {
                        lemma_parse_trailers_shrinks(s2, call_of(expr, args), terminator);
                    },
                    _ => {},
                }
            }
        },
        _ => {},
    }
}

/// Parsing the arguments of a call leaves no more to read than there was.
pub proof fn lemma_parse_arguments_shrinks(s: StreamModel)
    ensures
        measure(parse_arguments(s).1) <= measure(s),
    decreases measure(s), 4nat,
{
    lemma_reads_shrink(s);
    lemma_reads_shrink(peek(s).1);
    match peek(s) {
        (Some(Ok(t)), s1) => {
            if !(t.value is CloseParen) {
                lemma_parse_argument_list_shrinks(s1, Seq::<ExpressionModel>::empty());
            }
        },
        _ => {},
    }
}

/// Parsing a list of arguments leaves no more to read than there was.
pub proof fn lemma_parse_argument_list_shrinks(s: StreamModel, args: Seq<ExpressionModel>)
    ensures
        measure(parse_argument_list(s, args).1) <= measure(s),
    decreases measure(s), 3nat,
{
    lemma_parse_shrinks(s, argument_end());
    match parse(s, argument_end()) {
        (Ok(arg), s1) => {
            lemma_reads_shrink(s1);
            match peek(s1) {
                (Some(Ok(t)), s2) => {
                    lemma_reads_shrink(s2);
                    if t.value is Comma {
                        lemma_parse_argument_list_shrinks(next_token(s2).1, args.push(arg));
                    }
                },
                _ => {},
            }
        },
        _ => {},
    }
}

/// The tests on `measure` in [`parse`] never fail: after a primary the
/// trailers are parsed, whatever the stream.
pub proof fn lemma_parse_unfolds(s: StreamModel, terminator: TokenMatcher)
    requires
        peek(s).0 is Some,
        peek(s).0->0 is Ok,
    ensures
        ({
            let first = peek(s).0->0->Ok_0;
            let s1 = peek(s).1;
            let s2 = next_token(s1).1;
            parse(s, terminator) == match parse_primary(
                s1,
                first,
                terminator,
                parse(s2, terminator),
                parse(s2, TokenMatcher::CloseParen),
            ) {
                (Err(e), s3) => (Err(e), s3),
                (Ok(expr), s3) => parse_trailers(s3, expr, terminator),
            }
        }),
{
    let first = peek(s).0->0->Ok_0;
    let s1 = peek(s).1;
    let s2 = next_token(s1).1;
    lemma_reads_shrink(s);
    lemma_reads_shrink(s1);
    lemma_parse_shrinks(s2, terminator);
    lemma_parse_shrinks(s2, TokenMatcher::CloseParen);
    lemma_parse_primary_shrinks(
        s1,
        first,
        terminator,
        parse(s2, terminator),
        parse(s2, TokenMatcher::CloseParen),
        measure(s),
    );
}

/// The test on `measure` in [`parse_trailers`] never fails: after the
/// arguments of a call come the trailers of the call.
pub proof fn lemma_parse_trailers_unfolds(
    s: StreamModel,
    expr: ExpressionModel,
    terminator: TokenMatcher,
)
    requires
        peek(s).0 is Some,
        peek(s).0->0 is Ok,
        !terminator.accepts(peek(s).0->0->Ok_0),
        expr.value is Identifier,
        peek(s).0->0->Ok_0.value is OpenParen,
    ensures
        parse_trailers(s, expr, terminator) == match parse_arguments(next_token(peek(s).1).1) {
            (Err(e), s2) => (Err(e), s2),
            (Ok(args), s2) => parse_trailers(s2, call_of(expr, args), terminator),
        },
{
    lemma_reads_shrink(s);
    lemma_reads_shrink(peek(s).1);
    lemma_parse_arguments_shrinks(next_token(peek(s).1).1);
}

/// The test on `measure` in [`parse_argument_list`] never fails: after a
/// comma comes the rest of the list.
pub proof fn lemma_parse_argument_list_unfolds(s: StreamModel, args: Seq<ExpressionModel>)
    requires
        parse(s, argument_end()).0 is Ok,
        peek(parse(s, argument_end()).1).0 is Some,
        peek(parse(s, argument_end()).1).0->0 is Ok,
        peek(parse(s, argument_end()).1).0->0->Ok_0.value is Comma,
    ensures
        parse_argument_list(s, args) == parse_argument_list(
            next_token(peek(parse(s, argument_end()).1).1).1,
            args.push(parse(s, argument_end()).0->Ok_0),
        ),
{
    lemma_parse_shrinks(s, argument_end());
    let s1 = parse(s, argument_end()).1;
    lemma_reads_shrink(s1);
    lemma_reads_shrink(peek(s1).1);
}

// ---------------------------------------------------------------------------
// Declaration blocks
// ---------------------------------------------------------------------------
/// Parsing the name of a type.
pub open spec fn parse_type(s: StreamModel) -> Parsed<TypeModel> {
    match consume_token(s, TokenMatcher::Identifier, "expected type definition"@) {
        (Ok(t), rest) => match t.value {
            TokenValueModel::Identifier(name) => (Ok(type_of_name(name)), rest),
            _ => (Ok(type_of_name(t.text)), rest),
        },
        (Err(e), rest) => (Err(e), rest),
    }
}

/// Parsing one declaration: an identifier, the name of a type, `=`, and an
/// expression that ends at a newline.
pub open spec fn parse_declaration(s: StreamModel) -> Parsed<DeclarationModel> {
    match consume_token(s, TokenMatcher::Identifier, "expected identifier or `}`"@) {
        (Err(e), s1) => (Err(e), s1),
        (Ok(ident), s1) => match parse_type(s1) {
            (Err(e), s2) => (Err(e), s2),
            (Ok(ttype), s2) => match consume_token(s2, TokenMatcher::Assign, "expected `=`"@) {
                (Err(e), s3) => (Err(e), s3),
                (Ok(_), s3) => match parse(s3, TokenMatcher::Newline) {
                    (Err(e), s4) => (Err(e), s4),
                    (Ok(value), s4) => (
                        Ok(
                            DeclarationModel {
                                identifier: match ident.value {
                                    TokenValueModel::Identifier(name) => name,
                                    _ => ident.text,
                                },
                                ttype,
                                value,
                                first_token: ident,
                            },
                        ),
                        s4,
                    ),
                },
            },
        },
    }
}

/// Parsing a declaration leaves less to read than there was.
pub proof fn lemma_parse_declaration_shrinks(s: StreamModel)
    ensures
        measure(parse_declaration(s).1) <= measure(s),
        parse_declaration(s).0 is Ok ==> measure(parse_declaration(s).1) < measure(s),
{
    lemma_consume_token_shrinks(s, TokenMatcher::Identifier, "expected identifier or `}`"@);
    let s1 = consume_token(s, TokenMatcher::Identifier, "expected identifier or `}`"@).1;
    lemma_consume_token_shrinks(s1, TokenMatcher::Identifier, "expected type definition"@);
    let s2 = parse_type(s1).1;
    lemma_consume_token_shrinks(s2, TokenMatcher::Assign, "expected `=`"@);
    let s3 = consume_token(s2, TokenMatcher::Assign, "expected `=`"@).1;
    lemma_parse_shrinks(s3, TokenMatcher::Newline);
}

/// Parsing the next declaration of a block, past any newlines, or its
/// closing brace, which is consumed.
pub open spec fn next_declaration(s: StreamModel) -> Parsed<Option<DeclarationModel>> {
    match skip_while(s, TokenMatcher::Newline) {
        (Err(e), s1) => (Err(e), s1),
        (Ok(_), s1) => match peek(s1) {
            (Some(Err(e)), s2) => (Err(from_tokenizer(e)), s2),
            (Some(Ok(t)), s2) => if t.value is CloseBrace {
                (Ok(None), next_token(s2).1)
            } else {
                match parse_declaration(s2) {
                    (Err(e), s3) => (Err(e), s3),
                    (Ok(decl), s3) => (Ok(Some(decl)), s3),
                }
            },
            (None, s2) => (
                Err(error_at(s2, ErrorKindModel::UnexpectedEOF, Seq::<char>::empty())),
                s2,
            ),
        },
    }
}

/// Looking for the next declaration leaves less to read than there was.
pub proof fn lemma_next_declaration_shrinks(s: StreamModel)
    ensures
        measure(next_declaration(s).1) <= measure(s),
        next_declaration(s).0 is Ok ==> measure(next_declaration(s).1) < measure(s),
{
    lemma_skip_until_shrinks(s, TokenMatcher::Not(Box::new(TokenMatcher::Newline)));
    let s1 = skip_while(s, TokenMatcher::Newline).1;
    lemma_reads_shrink(s1);
    lemma_reads_shrink(peek(s1).1);
    lemma_parse_declaration_shrinks(peek(s1).1);
}

/// Parsing the declarations of a block up to its closing brace, after
/// `decls`. Newlines between declarations are skipped.
pub open spec fn parse_declarations(s: StreamModel, decls: Seq<DeclarationModel>) -> Parsed<
    Seq<DeclarationModel>,
>
    decreases measure(s),
{
    match next_declaration(s) {
        (Err(e), s1) => (Err(e), s1),
        (Ok(None), s1) => (Ok(decls), s1),
        (Ok(Some(decl)), s1) => {
            proof {
                lemma_next_declaration_shrinks(s);
            }
            parse_declarations(s1, decls.push(decl))
        },
    }
}

/// Parsing the body of a `const` or `var` block, with its braces.
pub open spec fn parse_declaration_block(s: StreamModel) -> Parsed<Seq<DeclarationModel>> {
    match skip_while(s, TokenMatcher::Newline) {
        (Err(e), s1) => (Err(e), s1),
        (Ok(_), s1) => match consume_token(
            s1,
            TokenMatcher::OpenBrace,
            "const and var blocks should start with a `{`"@,
        ) {
            (Err(e), s2) => (Err(e), s2),
            (Ok(_), s2) => parse_declarations(s2, Seq::<DeclarationModel>::empty()),
        },
    }
}

// ---------------------------------------------------------------------------
// Imports
// ---------------------------------------------------------------------------
/// The texts of the tokens, one after the other.
pub open spec fn joined_text(parts: Seq<TokenModel>) -> Seq<char>
    decreases parts.len(),
{
    if parts.len() == 0 {
        Seq::<char>::empty()
    } else {
        joined_text(parts.drop_last()) + parts.last().text
    }
}

/// Installing the import whose path the tokens `parts` spell, under `alias`
/// or, where that is empty, under the last segment of the path. The stream
/// `s` is where an error is located.
pub open spec fn complete_import(
    module: Namespace,
    s: StreamModel,
    parts: Seq<TokenModel>,
    alias: Seq<char>,
) -> Result<Namespace, ErrorModel> {
    let import = joined_text(parts);
    if import.len() > 0 && (import.last() == '.' || import.first() == '.') {
        Err(
            error_at(
                s,
                ErrorKindModel::InvalidImport(import),
                "import cannot start or end with '.'"@,
            ),
        )
    } else if import.len() == 0 || parts.len() == 0 {
        Err(error_at(s, ErrorKindModel::InvalidImport(import), "empty import"@))
    } else {
        let ident = if alias.len() == 0 {
            last_segment(import)
        } else {
            alias
        };
        if module.contains_key(ident) {
            Err(redefined_symbol(s, ident))
        } else {
            Ok(
                module.insert(
                    ident,
                    SymbolModel::Import(
                        ImportModel {
                            path: import,
                            alias: ident,
                            signature: None,
                            first_token: parts[0],
                        },
                    ),
                ),
            )
        }
    }
}

/// What may follow the alias of an import: a comma, a newline or the end of
/// the block.
pub open spec fn alias_end() -> TokenMatcher {
    TokenMatcher::Either(
        Box::new(
            TokenMatcher::Either(Box::new(TokenMatcher::Comma), Box::new(TokenMatcher::Newline)),
        ),
        Box::new(TokenMatcher::CloseBrace),
    )
}

/// The outcome of completing an import and going on with `rest`.
pub open spec fn after_import(
    module: Namespace,
    s: StreamModel,
    completed: Result<Namespace, ErrorModel>,
) -> Outcome {
    match completed {
        Ok(updated) => Outcome { result: Ok(()), module: updated, stream: s },
        Err(e) => Outcome { result: Err(e), module, stream: s },
    }
}

/// What reading one token of a `use` block leads to: the end of the block,
/// with its outcome, or more of the block to read.
pub ghost enum ImportStep {
    Done(Outcome),
    More { module: Namespace, stream: StreamModel, parts: Seq<TokenModel> },
}

/// Completing the import that the tokens `parts` spell, if there are any,
/// and going on with the block.
pub open spec fn import_then_more(
    module: Namespace,
    s: StreamModel,
    parts: Seq<TokenModel>,
) -> ImportStep {
    match complete_import(module, s, parts, Seq::<char>::empty()) {
        Err(e) => ImportStep::Done(Outcome { result: Err(e), module, stream: s }),
        Ok(updated) => ImportStep::More {
            module: updated,
            stream: s,
            parts: Seq::<TokenModel>::empty(),
        },
    }
}

/// Reading the alias of an import, after `as`: the alias, which completes
/// the import, and then a comma or a newline, which is consumed, or the
/// closing brace, which is left.
pub open spec fn import_alias(
    module: Namespace,
    s: StreamModel,
    parts: Seq<TokenModel>,
) -> ImportStep {
    match consume_token(s, TokenMatcher::Identifier, "while parsing import alias"@) {
        (Err(e), s2) => ImportStep::Done(Outcome { result: Err(e), module, stream: s2 }),
        (Ok(alias), s2) => match complete_import(module, s2, parts, alias.text) {
            Err(e) => ImportStep::Done(Outcome { result: Err(e), module, stream: s2 }),
            Ok(updated) => match ensure_next_token(
                s2,
                alias_end(),
                "while parsing import alias"@,
            ) {
                (Err(e), s3) => ImportStep::Done(
                    Outcome { result: Err(e), module: updated, stream: s3 },
                ),
                (Ok(_), s3) => if peek(s2).0 matches Some(Ok(next)) && next.value is CloseBrace {
                    ImportStep::More {
                        module: updated,
                        stream: s3,
                        parts: Seq::<TokenModel>::empty(),
                    }
                } else {
                    ImportStep::More {
                        module: updated,
                        stream: next_token(s3).1,
                        parts: Seq::<TokenModel>::empty(),
                    }
                },
            },
        },
    }
}

/// Reading one token of a `use` block; `parts` are the tokens read so far of
/// the path that is being read.
///
/// Paths are separated by commas or newlines. A path may be followed by `as`
/// and an alias. Each complete import is installed at once, so that an error
/// leaves the earlier imports of the block in the module.
pub open spec fn import_step(
    module: Namespace,
    s: StreamModel,
    parts: Seq<TokenModel>,
) -> ImportStep {
    match next_token(s) {
        (None, s1) => ImportStep::Done(
            Outcome {
                result: Err(
                    error_at(s1, ErrorKindModel::UnexpectedEOF, "missing '}' after 'use' block"@),
                ),
                module,
                stream: s1,
            },
        ),
        (Some(Err(e)), s1) => ImportStep::Done(
            Outcome { result: Err(from_tokenizer(e)), module, stream: s1 },
        ),
        (Some(Ok(t)), s1) => match t.value {
            TokenValueModel::CloseBrace => if parts.len() > 0 {
                ImportStep::Done(
                    after_import(
                        module,
                        s1,
                        complete_import(module, s1, parts, Seq::<char>::empty()),
                    ),
                )
            } else {
                ImportStep::Done(Outcome { result: Ok(()), module, stream: s1 })
            },
            TokenValueModel::KeywordAs => import_alias(module, s1, parts),
            TokenValueModel::Newline => if parts.len() > 0 {
                import_then_more(module, s1, parts)
            } else {
                ImportStep::More { module, stream: s1, parts }
            },
            TokenValueModel::Comma => import_then_more(module, s1, parts),
            TokenValueModel::Identifier(_) => ImportStep::More {
                module,
                stream: s1,
                parts: parts.push(t),
            },
            TokenValueModel::Dot => ImportStep::More { module, stream: s1, parts: parts.push(t) },
            _ => ImportStep::Done(
                Outcome {
                    result: Err(unexpected_token(t, "while parsing `use` block"@)),
                    module,
                    stream: s1,
                },
            ),
        },
    }
}

/// A step of a `use` block that does not end it leaves less to read than
/// there was.
pub proof fn lemma_import_step_shrinks(module: Namespace, s: StreamModel, parts: Seq<TokenModel>)
    ensures
        import_step(module, s, parts) matches ImportStep::More { stream, .. } ==> measure(stream)
            < measure(s),
{
    lemma_reads_shrink(s);
    let s1 = next_token(s).1;
    lemma_consume_token_shrinks(s1, TokenMatcher::Identifier, "while parsing import alias"@);
    let s2 = consume_token(s1, TokenMatcher::Identifier, "while parsing import alias"@).1;
    lemma_reads_shrink(s2);
    lemma_reads_shrink(peek(s2).1);
}

/// Parsing the imports of a `use` block up to its closing brace, one token
/// after the other.
pub open spec fn parse_imports(module: Namespace, s: StreamModel, parts: Seq<TokenModel>) -> Outcome
    decreases measure(s),
{
    match import_step(module, s, parts) {
        ImportStep::Done(outcome) => outcome,
        ImportStep::More { module: updated, stream, parts: read } => {
            proof {
                lemma_import_step_shrinks(module, s, parts);
            }
            parse_imports(updated, stream, read)
        },
    }
}

/// The tokens before which a `use` block may be absent.
pub open spec fn use_block_followers() -> Seq<TokenValueModel> {
    seq![
        TokenValueModel::KeywordFunc,
        TokenValueModel::KeywordTest,
        TokenValueModel::KeywordConst,
        TokenValueModel::KeywordVar,
    ]
}

/// The tokens before which a `const` block may be absent.
pub open spec fn const_block_followers() -> Seq<TokenValueModel> {
    seq![TokenValueModel::KeywordFunc, TokenValueModel::KeywordTest, TokenValueModel::KeywordVar]
}

/// The tokens before which a `var` block may be absent.
pub open spec fn var_block_followers() -> Seq<TokenValueModel> {
    seq![TokenValueModel::KeywordFunc, TokenValueModel::KeywordTest]
}

/// Parsing the `use` block, if the source has one.
pub open spec fn maybe_parse_use_block(module: Namespace, s: StreamModel) -> Outcome {
    match scan_for_keyword(s, TokenValueModel::KeywordUse, "use"@, use_block_followers()) {
        (Err(e), s1) => Outcome { result: Err(e), module, stream: s1 },
        (Ok(present), s1) => if !present {
            Outcome { result: Ok(()), module, stream: s1 }
        } else {
            match skip_while(s1, TokenMatcher::Newline) {
                (Err(e), s2) => Outcome { result: Err(e), module, stream: s2 },
                (Ok(_), s2) => match consume_token(
                    s2,
                    TokenMatcher::OpenBrace,
                    "use keyword should be followed by a `{`"@,
                ) {
                    (Err(e), s3) => Outcome { result: Err(e), module, stream: s3 },
                    (Ok(_), s3) => parse_imports(module, s3, Seq::<TokenModel>::empty()),
                },
            }
        },
    }
}

/// Whether a block declares constants or variables.
#[derive(Debug, Clone, Copy, PartialEq, Eq, Structural)]
pub enum DeclarationKind {
    Constant,
    Variable,
}

/// The symbol that a declaration of the given kind defines.
pub open spec fn declared_symbol(kind: DeclarationKind, decl: DeclarationModel) -> SymbolModel {
    match kind {
        DeclarationKind::Constant => SymbolModel::Constant(
            ConstModel { ttype: decl.ttype, value: decl.value, first_token: decl.first_token },
        ),
        DeclarationKind::Variable => SymbolModel::Variable(
            VariableModel {
                ttype: decl.ttype,
                initial_value: decl.value,
                first_token: decl.first_token,
            },
        ),
    }
}

/// Defining the declarations `decls` from index `from` on, in order, up to
/// the first whose name is taken. The stream `s` is where that error is
/// located.
pub open spec fn define_all(
    module: Namespace,
    s: StreamModel,
    kind: DeclarationKind,
    decls: Seq<DeclarationModel>,
    from: nat,
) -> Outcome
    decreases decls.len() - from,
{
    if from >= decls.len() {
        Outcome { result: Ok(()), module, stream: s }
    } else if module.contains_key(decls[from as int].identifier) {
        Outcome {
            result: Err(redefined_symbol(s, decls[from as int].identifier)),
            module,
            stream: s,
        }
    } else {
        define_all(
            module.insert(
                decls[from as int].identifier,
                declared_symbol(kind, decls[from as int]),
            ),
            s,
            kind,
            decls,
            from + 1,
        )
    }
}

/// Parsing a block of declarations of the given kind, if the source has one
/// where the stream stands.
pub open spec fn maybe_parse_declarations(
    module: Namespace,
    s: StreamModel,
    kind: DeclarationKind,
) -> Outcome {
    let scanned = match kind {
        DeclarationKind::Constant => scan_for_keyword(
            s,
            TokenValueModel::KeywordConst,
            "const"@,
            const_block_followers(),
        ),
        DeclarationKind::Variable => scan_for_keyword(
            s,
            TokenValueModel::KeywordVar,
            "var"@,
            var_block_followers(),
        ),
    };
    match scanned {
        (Err(e), s1) => Outcome { result: Err(e), module, stream: s1 },
        (Ok(present), s1) => if !present {
            Outcome { result: Ok(()), module, stream: s1 }
        } else {
            match parse_declaration_block(s1) {
                (Err(e), s2) => Outcome { result: Err(e), module, stream: s2 },
                (Ok(decls), s2) => define_all(module, s2, kind, decls, 0),
            }
        },
    }
}

/// Parsing what follows the blocks of a source. No top-level declaration has
/// a grammar yet: only newlines may follow.
pub open spec fn parse_module_body(s: StreamModel) -> Parsed<()> {
    match skip_while(s, TokenMatcher::Newline) {
        (Err(e), s1) => (Err(e), s1),
        (Ok(_), s1) => match peek(s1) {
            (Some(Ok(t)), s2) => (
                Err(unexpected_token(t, "top-level declarations are not implemented yet"@)),
                s2,
            ),
            (Some(Err(e)), s2) => (Err(from_tokenizer(e)), s2),
            (None, s2) => (Ok(()), s2),
        },
    }
}

/// The stream at the start of the input `bytes`, labelled `path`.
pub open spec fn initial_stream(bytes: Seq<u8>, path: Option<Seq<char>>) -> StreamModel {
    StreamModel {
        path: match path {
            Some(p) => p,
            None => "-"@,
        },
        pending: decode_items(bytes),
        line: 1,
        column: 1,
        cached: None,
    }
}

/// Parsing one source into the module: an optional `use` block, an optional
/// `const` block, an optional `var` block, and nothing but newlines after
/// them. The first error ends the parse and leaves in the module what was
/// defined before it.
pub open spec fn add_source(module: Namespace, bytes: Seq<u8>, path: Option<Seq<char>>) -> (
    Result<(), ErrorModel>,
    Namespace,
) {
    let imported = maybe_parse_use_block(module, initial_stream(bytes, path));
    if imported.result is Err {
        (imported.result, imported.module)
    } else {
        let constants = maybe_parse_declarations(
            imported.module,
            imported.stream,
            DeclarationKind::Constant,
        );
        if constants.result is Err {
            (constants.result, constants.module)
        } else {
            let variables = maybe_parse_declarations(
                constants.module,
                constants.stream,
                DeclarationKind::Variable,
            );
            if variables.result is Err || is_empty(variables.stream) {
                (variables.result, variables.module)
            } else {
                (parse_module_body(variables.stream).0, variables.module)
            }
        }
    }
}

/// After a body that parsed without error nothing is left to read.
pub proof fn lemma_module_body_reads_all(s: StreamModel)
    ensures
        parse_module_body(s).0 is Ok ==> is_empty(parse_module_body(s).1),
        measure(parse_module_body(s).1) <= measure(s),
{
    lemma_skip_until_shrinks(s, TokenMatcher::Not(Box::new(TokenMatcher::Newline)));
    let s1 = skip_while(s, TokenMatcher::Newline).1;
    lemma_reads_shrink(s1);
}

} // verus!
