//! The expression parser.
use crate::lang::expression::{expression_models, texts, ExpressionModel};
use crate::lang::{Expression, ExpressionValue};
use crate::parser::error::{Error, ErrorKind, ErrorModel};
use crate::parser::model;
use crate::parser::model::{lemma_parse_arguments_shrinks, lemma_parse_shrinks};
use crate::parser::token_matcher::TokenMatcher;
use crate::parser::consume_token;
use crate::tokenizer::laws::{lemma_reads_shrink, measure};
use crate::tokenizer::model::{next_token, peek};
use crate::tokenizer::{BinaryOperator, Token, TokenStream, TokenValue, UnaryOperator};
use vstd::prelude::*;
use vstd::string::*;

verus! {

/// Mathematical value of the result of parsing an expression.
pub open spec fn expression_view(r: Result<Expression, Error>) -> Result<
    ExpressionModel,
    ErrorModel,
> {
    match r {
        Ok(e) => Ok(e@),
        Err(e) => Err(e@),
    }
}

/// Mathematical value of the result of parsing a list of expressions.
pub open spec fn expressions_view(r: Result<Vec<Expression>, Error>) -> Result<
    Seq<ExpressionModel>,
    ErrorModel,
> {
    match r {
        Ok(list) => Ok(expression_models(list@)),
        Err(e) => Err(e@),
    }
}

/// Parses an expression up to a token that `terminator` matches, which
/// stays in the stream, or up to the end of the input.
pub fn parse(ts: &mut TokenStream, terminator: &TokenMatcher) -> (r: Result<Expression, Error>)
    requires
        old(ts).wf(),
    ensures
        final(ts).wf(),
        (expression_view(r), final(ts)@) == model::parse(old(ts)@, *terminator),
    decreases measure(old(ts)@), 2nat,
{
    let first_token = match ts.peek() {
        Some(Ok(t)) => t,
        Some(Err(e)) => {
            return Err(Error::from_tokenizer(e));
        },
        None => {
            return Err(
                Error::new(
                    ts,
                    ErrorKind::UnexpectedEOF,
                    String::from_str("unexpected EOF, expression expected"),
                ),
            );
        },
    };
    let ghost s = old(ts)@;
    let ghost s1 = ts@;
    let ghost s2 = next_token(s1).1;
    proof {
        lemma_reads_shrink(s);
        lemma_reads_shrink(s1);
        lemma_parse_shrinks(s2, *terminator);
        lemma_parse_shrinks(s2, TokenMatcher::CloseParen);
        model::lemma_parse_primary_shrinks(
            s1,
            first_token@,
            *terminator,
            model::parse(s2, *terminator),
            model::parse(s2, TokenMatcher::CloseParen),
            measure(s),
        );
    }
    match parse_primary(ts, first_token, terminator) {
        Ok(first_subexp) => parse_trailers(ts, first_subexp, terminator),
        Err(e) => Err(e),
    }
}

/// Parses the primary that begins with `first_token`, which `peek` has set
/// aside in the stream.
fn parse_primary(ts: &mut TokenStream, first_token: Token, terminator: &TokenMatcher) -> (r: Result<
    Expression,
    Error,
>)
    requires
        old(ts).wf(),
        old(ts)@.cached == Some(first_token@),
    ensures
        final(ts).wf(),
        (expression_view(r), final(ts)@) == model::parse_primary(
            old(ts)@,
            first_token@,
            *terminator,
            model::parse(next_token(old(ts)@).1, *terminator),
            model::parse(
                next_token(old(ts)@).1,
                TokenMatcher::CloseParen,
            ),
        ),
    decreases measure(old(ts)@), 1nat,
{
    match &first_token.value {
        TokenValue::Identifier(_) => parse_identifier(ts, terminator),
        TokenValue::IntegerLiteral(v) => {
            let _ = ts.next_token();
            Ok(Expression::literal_int(*v, first_token.clone()))
        },
        TokenValue::FloatingPointLiteral(v) => {
            let _ = ts.next_token();
            Ok(Expression::literal_float(v.clone(), first_token.clone()))
        },
        TokenValue::StringLiteral(v) => {
            let _ = ts.next_token();
            Ok(Expression::literal_string(v.clone(), first_token.clone()))
        },
        TokenValue::CharLiteral(v) => {
            let _ = ts.next_token();
            Ok(Expression::literal_char(*v, first_token.clone()))
        },
        TokenValue::BoolLiteral(v) => {
            let _ = ts.next_token();
            Ok(Expression::literal_bool(*v, first_token.clone()))
        },
        TokenValue::UnaryOperator(v) => {
            let _ = ts.next_token();  // Pop operator
            match parse(ts, terminator) {
                Ok(sub_expression) => Ok(
                    Expression::unary(*v, sub_expression, first_token.clone()),
                ),
                Err(e) => Err(e),
            }
        },
        TokenValue::BinaryOperator(BinaryOperator::Subtract) => {
            let _ = ts.next_token();  // Pop operator
            match parse(ts, terminator) {
                Ok(sub_expression) => Ok(
                    Expression::unary_minus(sub_expression, first_token.clone()),
                ),
                Err(e) => Err(e),
            }
        },
        TokenValue::BinaryOperator(BinaryOperator::Add) => {
            let _ = ts.next_token();  // Pop operator
            match parse(ts, terminator) {
                Ok(sub_expression) => Ok(
                    Expression::unary_plus(sub_expression, first_token.clone()),
                ),
                Err(e) => Err(e),
            }
        },
        TokenValue::OpenParen => {
            let _ = ts.next_token();  // Pop '('
            match parse(ts, &TokenMatcher::CloseParen) {
                Ok(sub_expression) => match consume_token(ts, &TokenMatcher::CloseParen, "") {
                    Ok(_) => Ok(sub_expression),
                    Err(e) => Err(e),
                },
                Err(e) => Err(e),
            }
        },
        _ => Err(
            Error::unexpected_token(
                first_token.clone(),
                String::from_str("expecting an expression"),
            ),
        ),
    }
}

/// Parses what follows the expression `expr`: the argument lists of calls,
/// up to a token that `terminator` matches or the end of the input.
fn parse_trailers(ts: &mut TokenStream, expr: Expression, terminator: &TokenMatcher) -> (r: Result<
    Expression,
    Error,
>)
    requires
        old(ts).wf(),
    ensures
        final(ts).wf(),
        (expression_view(r), final(ts)@) == model::parse_trailers(old(ts)@, expr@, *terminator),
    decreases measure(old(ts)@), 1nat,
{
    let mut first_subexp = expr;
    loop
        invariant
            ts.wf(),
            measure(ts@) <= measure(old(ts)@),
            model::parse_trailers(ts@, first_subexp@, *terminator) == model::parse_trailers(
                old(ts)@,
                expr@,
                *terminator,
            ),
        decreases measure(ts@),
    {
        let ghost s = ts@;
        proof {
            lemma_reads_shrink(s);
            lemma_reads_shrink(peek(s).1);
        }
        let t = match ts.peek() {
            Some(Ok(t)) => t,
            Some(Err(e)) => {
                return Err(Error::from_tokenizer(e));
            },
            None => {
                return Ok(first_subexp);
            },
        };
        if terminator.matches(&t) {
            return Ok(first_subexp);
        }
        let callable = match &first_subexp.value {
            ExpressionValue::Identifier(_) => true,
            _ => false,
        };
        match &t.value {
            TokenValue::OpenParen => {
                if callable {
                    // Parsing a function call
                    let _ = ts.next_token();
                    proof {
                        lemma_parse_arguments_shrinks(ts@);
                    }
                    match parse_arguments(ts) {
                        Ok(args) => {
                            first_subexp = Expression::function_call(first_subexp, args);
                        },
                        Err(e) => {
                            return Err(e);
                        },
                    }
                } else {
                    return Err(
                        Error::unexpected_token(t, String::from_str("while parsing expression")),
                    );
                }
            },
            TokenValue::Dot => {
                // Struct member access
                return Err(
                    Error::unexpected_token(
                        t,
                        String::from_str(
                            "member access is only supported for identifier expressions",
                        ),
                    ),
                );
            },
            TokenValue::BinaryOperator(_) => {
                return Err(
                    Error::unexpected_token(
                        t,
                        String::from_str("binary operators are not implemented yet"),
                    ),
                );
            },
            TokenValue::OpenBracket => {
                // List member access
                return Err(
                    Error::unexpected_token(
                        t,
                        String::from_str("list member access is not implemented yet"),
                    ),
                );
            },
            _ => {
                return Err(
                    Error::unexpected_token(t, String::from_str("while parsing expression")),
                );
            },
        }
    }
}

/// Parses the arguments of a call, after its opening parenthesis.
fn parse_arguments(ts: &mut TokenStream) -> (r: Result<Vec<Expression>, Error>)
    requires
        old(ts).wf(),
    ensures
        final(ts).wf(),
        (expressions_view(r), final(ts)@) == model::parse_arguments(old(ts)@),
    decreases measure(old(ts)@), 4nat,
{
    proof {
        lemma_reads_shrink(ts@);
    }
    let args: Vec<Expression> = Vec::new();
    assert(expression_models(args@) =~= Seq::<ExpressionModel>::empty());
    match ts.peek() {
        Some(Ok(t)) => match t.value {
            TokenValue::CloseParen => {
                let _ = ts.next_token();
                Ok(args)
            },
            _ => parse_argument_list(ts, args),
        },
        Some(Err(e)) => Err(Error::from_tokenizer(e)),
        None => Err(
            Error::new(
                ts,
                ErrorKind::UnexpectedEOF,
                String::from_str("unexpected EOF, expression expected"),
            ),
        ),
    }
}

/// Parses the rest of a list of arguments, after `args`.
fn parse_argument_list(ts: &mut TokenStream, parsed: Vec<Expression>) -> (r: Result<
    Vec<Expression>,
    Error,
>)
    requires
        old(ts).wf(),
    ensures
        final(ts).wf(),
        (expressions_view(r), final(ts)@) == model::parse_argument_list(
            old(ts)@,
            expression_models(parsed@),
        ),
    decreases measure(old(ts)@), 3nat,
{
    let mut args = parsed;
    let end = TokenMatcher::Either(
        Box::new(TokenMatcher::CloseParen),
        Box::new(TokenMatcher::Comma),
    );
    loop
        invariant
            ts.wf(),
            end == model::argument_end(),
            measure(ts@) <= measure(old(ts)@),
            model::parse_argument_list(ts@, expression_models(args@))
                == model::parse_argument_list(old(ts)@, expression_models(parsed@)),
        decreases measure(ts@),
    {
        let ghost s = ts@;
        let ghost before = args@;
        let arg = match parse(ts, &end) {
            Ok(arg) => arg,
            Err(e) => {
                return Err(e);
            },
        };
        proof {
            lemma_parse_shrinks(s, end);
            lemma_reads_shrink(ts@);
            lemma_reads_shrink(peek(ts@).1);
        }
        args.push(arg);
        assert(expression_models(args@) =~= expression_models(before).push(arg@));
        match ts.peek() {
            Some(Ok(t)) => match &t.value {
                TokenValue::CloseParen => {
                    let _ = ts.next_token();
                    return Ok(args);
                },
                TokenValue::Comma => {
                    let _ = ts.next_token();
                },
                _ => {
                    return Err(
                        Error::unexpected_token(
                            t,
                            String::from_str("while parsing function call argument list"),
                        ),
                    );
                },
            },
            Some(Err(e)) => {
                return Err(Error::from_tokenizer(e));
            },
            None => {
                return Err(
                    Error::new(
                        ts,
                        ErrorKind::UnexpectedEOF,
                        String::from_str("unexpected EOF, expression expected"),
                    ),
                );
            },
        }
    }
}

/// Parses an identifier path: identifiers separated by dots.
fn parse_identifier(ts: &mut TokenStream, terminator: &TokenMatcher) -> (r: Result<
    Expression,
    Error,
>)
    requires
        old(ts).wf(),
    ensures
        final(ts).wf(),
        (expression_view(r), final(ts)@) == model::parse_identifier(old(ts)@, *terminator),
{
    let first_token: Token = match ts.peek() {
        Some(Ok(t)) => t,
        Some(Err(e)) => {
            return Err(Error::from_tokenizer(e));
        },
        None => {
            return Err(
                Error::new(
                    ts,
                    ErrorKind::UnexpectedEOF,
                    String::from_str("unexpected EOF, identifier expected"),
                ),
            );
        },
    };
    let ghost start = ts@;
    let mut words: Vec<String> = Vec::new();
    let mut must_dot = false;
    let mut next: Option<Token> = None;
    assert(texts(words@) =~= Seq::<Seq<char>>::empty());
    loop
        invariant
            ts.wf(),
            peek(old(ts)@).0 == Some(
                Ok::<crate::tokenizer::TokenModel, crate::tokenizer::ErrorModel>(first_token@),
            ),
            peek(old(ts)@).1 == start,
            model::parse_path(ts@, texts(words@), must_dot, *terminator)
                == model::parse_path(start, Seq::<Seq<char>>::empty(), false, *terminator),
        ensures
            ts.wf(),
            model::path_end(
                ts@,
                match next {
                    Some(t) => Some(t@),
                    None => None,
                },
                texts(words@),
                must_dot,
            ) == model::parse_path(start, Seq::<Seq<char>>::empty(), false, *terminator),
        decreases measure(ts@),
    {
        let ghost s = ts@;
        let ghost before = words@;
        proof {
            lemma_reads_shrink(s);
            lemma_reads_shrink(peek(s).1);
        }
        let t = match ts.peek() {
            Some(Ok(t)) => t,
            Some(Err(e)) => {
                return Err(Error::from_tokenizer(e));
            },
            None => {
                next = None;
                break ;
            },
        };
        match &t.value {
            TokenValue::Identifier(i) => {
                if !must_dot {
                    let _ = ts.next_token();
                    words.push(i.clone());
                    must_dot = true;
                    assert(texts(words@)
                        =~= texts(before).push(i@));
                } else {
                    return Err(
                        Error::unexpected_token(
                            t,
                            String::from_str("expected `.` or end of identifier"),
                        ),
                    );
                }
            },
            TokenValue::Dot => {
                if must_dot {
                    let _ = ts.next_token();
                    must_dot = false;
                } else {
                    return Err(
                        Error::unexpected_token(t, String::from_str("while parsing identifier")),
                    );
                }
            },
            TokenValue::UnaryOperator(_)
            | TokenValue::BinaryOperator(_)
            | TokenValue::Comparison(_)
            | TokenValue::Assignment(_)
            | TokenValue::Comma
            | TokenValue::Newline
            | TokenValue::OpenBracket
            | TokenValue::OpenParen => {
                next = Some(t);
                break ;
            },
            _ => {
                if terminator.matches(&t) {
                    next = Some(t);
                    break ;
                } else {
                    return Err(
                        Error::unexpected_token(t, String::from_str("while parsing identifier")),
                    );
                }
            },
        }
    }
    if !must_dot {
        return match next {
            Some(t) => Err(Error::unexpected_token(t, String::from_str("expected identifier"))),
            None => Err(
                Error::new(
                    ts,
                    ErrorKind::UnexpectedEOF,
                    String::from_str("unexpected EOF, identifier expected"),
                ),
            ),
        };
    }
    Ok(Expression::identifier(words, first_token))
}

} // verus!
