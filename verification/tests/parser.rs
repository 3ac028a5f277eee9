use tiger_lang::lang::{
    Expression, ExpressionValue, Literal, Module, SymbolRef, Type,
};
use tiger_lang::parser::expression::parse;
use tiger_lang::parser::token_matcher::{
    close_paren, comma, either, identifier, newline, term_delimiter_for, OperatorPrecedence,
    TokenMatcher,
};
use tiger_lang::parser::{Error, ErrorKind, Parser};
use tiger_lang::tokenizer::{
    BinaryOperator, Token, TokenStream, TokenValue, UnaryOperator,
};

fn stream(text: &str) -> TokenStream {
    TokenStream::new(text.as_bytes().to_vec(), Some("test.tg".to_string()))
}

fn parse_text(text: &str) -> Result<Expression, Error> {
    let mut ts = stream(text);
    parse(&mut ts, &TokenMatcher::Newline)
}

fn parse_source(text: &str) -> (Result<(), Error>, Module) {
    let mut parser = Parser::new("unit".to_string());
    let result = parser.add_source(text.as_bytes().to_vec(), Some("unit.tg".to_string()));
    (result, parser.finalize().unwrap())
}

fn token(text: &str) -> Token {
    stream(text).next_token().unwrap().unwrap()
}

fn int_of(e: &Expression) -> i128 {
    match &e.value {
        ExpressionValue::Literal(Literal::Integer(v)) => *v,
        other => panic!("not an integer literal: {:?}", other),
    }
}

fn name_of(e: &Expression) -> (Vec<String>, String) {
    match &e.value {
        ExpressionValue::Identifier(id) => (id.namespace.clone(), id.name.clone()),
        other => panic!("not an identifier: {:?}", other),
    }
}

#[test]
fn nested_function_call() {
    let e = parse_text("f(1, g(2), 3)").unwrap();
    match &e.value {
        ExpressionValue::FunctionCall(call) => {
            assert_eq!(name_of(&call.function), (vec![], "f".to_string()));
            assert_eq!(call.args.len(), 3);
            assert_eq!(int_of(&call.args[0]), 1);
            match &call.args[1].value {
                ExpressionValue::FunctionCall(inner) => {
                    assert_eq!(name_of(&inner.function), (vec![], "g".to_string()));
                    assert_eq!(inner.args.len(), 1);
                    assert_eq!(int_of(&inner.args[0]), 2);
                }
                other => panic!("not a call: {:?}", other),
            }
            assert_eq!(int_of(&call.args[2]), 3);
        }
        other => panic!("not a call: {:?}", other),
    }
    assert_eq!(e.first_token.text, "f");
    assert_eq!((e.first_token.line, e.first_token.column), (1, 1));
}

#[test]
fn parenthesized_literal_is_the_literal() {
    let e = parse_text("(1)").unwrap();
    assert_eq!(int_of(&e), 1);
    assert_eq!(e.first_token.column, 2);
}

#[test]
fn call_without_arguments() {
    let e = parse_text("f()").unwrap();
    match &e.value {
        ExpressionValue::FunctionCall(call) => assert_eq!(call.args.len(), 0),
        other => panic!("not a call: {:?}", other),
    }
}

#[test]
fn identifier_path_has_namespace_and_name() {
    let e = parse_text("a.b.c").unwrap();
    assert_eq!(name_of(&e), (vec!["a".to_string(), "b".to_string()], "c".to_string()));
}

#[test]
fn identifier_path_must_not_end_with_a_dot() {
    let e = parse_text("a.\n").unwrap_err();
    assert!(matches!(e.kind, ErrorKind::UnexpectedToken(_)));
    assert_eq!(e.message, "expected identifier");
    let e = parse_text("a.").unwrap_err();
    assert!(matches!(e.kind, ErrorKind::UnexpectedEOF));
    let e = parse_text("a b").unwrap_err();
    assert_eq!(e.message, "expected `.` or end of identifier");
    let e = parse_text("a..b").unwrap_err();
    assert_eq!(e.message, "while parsing identifier");
}

#[test]
fn literals_parse_to_literals() {
    assert!(matches!(
        parse_text("\"hi\"").unwrap().value,
        ExpressionValue::Literal(Literal::String(s)) if s == "hi"
    ));
    assert!(matches!(
        parse_text("'x'").unwrap().value,
        ExpressionValue::Literal(Literal::Char('x'))
    ));
    assert!(matches!(
        parse_text("true").unwrap().value,
        ExpressionValue::Literal(Literal::Bool(true))
    ));
    match parse_text("2.5").unwrap().value {
        ExpressionValue::Literal(Literal::Float(text)) => {
            assert_eq!(text.parse::<f64>().unwrap(), 2.5)
        }
        other => panic!("not a float: {:?}", other),
    }
}

#[test]
fn leading_sign_is_unary() {
    match parse_text("-x").unwrap().value {
        ExpressionValue::UnaryOperation(op) => {
            assert_eq!(op.operator, UnaryOperator::Minus);
            assert_eq!(name_of(&op.operand), (vec![], "x".to_string()));
        }
        other => panic!("not unary: {:?}", other),
    }
    match parse_text("+1").unwrap().value {
        ExpressionValue::UnaryOperation(op) => assert_eq!(op.operator, UnaryOperator::Plus),
        other => panic!("not unary: {:?}", other),
    }
    match parse_text("!(f(1))").unwrap().value {
        ExpressionValue::UnaryOperation(op) => {
            assert_eq!(op.operator, UnaryOperator::Not);
            assert!(matches!(op.operand.value, ExpressionValue::FunctionCall(_)));
        }
        other => panic!("not unary: {:?}", other),
    }
    match parse_text("++i").unwrap().value {
        ExpressionValue::UnaryOperation(op) => assert_eq!(op.operator, UnaryOperator::Increment),
        other => panic!("not unary: {:?}", other),
    }
}

#[test]
fn terminator_stays_in_the_stream() {
    let mut ts = stream("x\ny");
    let e = parse(&mut ts, &TokenMatcher::Newline).unwrap();
    assert_eq!(name_of(&e).1, "x");
    assert_eq!(ts.next_token().unwrap().unwrap().value, TokenValue::Newline);
}

#[test]
fn unsupported_trailers_fail_fast() {
    let e = parse_text("1 + 2").unwrap_err();
    assert!(matches!(&e.kind, ErrorKind::UnexpectedToken(t) if t.text == "+"));
    assert_eq!(e.message, "binary operators are not implemented yet");
    assert_eq!((e.line, e.column), (1, 3));
    let e = parse_text("f(1).x").unwrap_err();
    assert_eq!(e.message, "member access is only supported for identifier expressions");
    let e = parse_text("a[1]").unwrap_err();
    assert_eq!(e.message, "list member access is not implemented yet");
    let e = parse_text("f(1)(2)").unwrap_err();
    assert_eq!(e.message, "while parsing expression");
    let e = parse_text(")").unwrap_err();
    assert_eq!(e.message, "expecting an expression");
}

#[test]
fn errors_are_distinct_and_positioned() {
    // an unterminated string
    let e = parse_text("f(\"abc").unwrap_err();
    match &e.kind {
        ErrorKind::TokenizerError(inner) => {
            assert_eq!(inner.kind, tiger_lang::tokenizer::ErrorKind::InvalidInput);
            assert_eq!(inner.message, "unexpected EOF while reading unterminated string");
            assert_eq!((inner.line, inner.column), (1, 7));
        }
        other => panic!("not a tokenizer error: {:?}", other),
    }
    assert_eq!((e.line, e.column), (1, 7));
    assert_eq!(e.source, "test.tg");
    assert_eq!(
        e.to_string(),
        "test.tg:1:7: invalid input (unexpected EOF while reading unterminated string)"
    );
    // an unrecognized character
    let e = parse_text("f(@)").unwrap_err();
    match &e.kind {
        ErrorKind::TokenizerError(inner) => {
            assert_eq!(inner.message, "unexpected character '@'");
            assert_eq!((inner.line, inner.column), (1, 4));
        }
        other => panic!("not a tokenizer error: {:?}", other),
    }
    // the end of the input in the middle of an argument list
    let e = parse_text("f(1,").unwrap_err();
    assert!(matches!(e.kind, ErrorKind::UnexpectedEOF));
    assert_eq!(e.message, "unexpected EOF, expression expected");
    assert_eq!((e.line, e.column), (1, 5));
    assert_eq!(e.to_string(), "test.tg:1:5: unexpected EOF (unexpected EOF, expression expected)");
    let e = parse_text("f(1").unwrap_err();
    assert!(matches!(e.kind, ErrorKind::UnexpectedEOF));
    let e = parse_text("(1").unwrap_err();
    assert!(matches!(e.kind, ErrorKind::UnexpectedEOF));
    assert_eq!(e.message, "");
    assert_eq!(e.to_string(), "test.tg:1:3: unexpected EOF");
    let e = parse_text("").unwrap_err();
    assert!(matches!(e.kind, ErrorKind::UnexpectedEOF));
}

#[test]
fn use_block_installs_imports() {
    let (result, module) = parse_source("use { a.b.c, x.y as z }");
    assert!(result.is_ok(), "{:?}", result);
    match module.lookup("c") {
        Some(SymbolRef::Import(import)) => {
            assert_eq!(import.path, "a.b.c");
            assert_eq!(import.alias, "c");
            assert!(import.signature.is_none());
            assert_eq!(import.first_token.text, "a");
        }
        other => panic!("no import c: {:?}", other),
    }
    match module.lookup("z") {
        Some(SymbolRef::Import(import)) => {
            assert_eq!(import.path, "x.y");
            assert_eq!(import.alias, "z");
        }
        other => panic!("no import z: {:?}", other),
    }
    assert!(module.lookup("y").is_none());
    assert!(module.lookup("a").is_none());
}

#[test]
fn use_block_with_newlines() {
    let (result, module) = parse_source("\n\nuse\n{\n  a.b\n  c.d as e\n\n  f,g\n}\n");
    assert!(result.is_ok(), "{:?}", result);
    for name in ["b", "e", "f", "g"] {
        assert!(matches!(module.lookup(name), Some(SymbolRef::Import(_))), "{}", name);
    }
}

#[test]
fn use_block_rejects_leading_and_trailing_dot() {
    let (result, _) = parse_source("use { .a }");
    let e = result.unwrap_err();
    assert!(matches!(&e.kind, ErrorKind::InvalidImport(i) if i == ".a"));
    assert_eq!(e.message, "import cannot start or end with '.'");
    assert_eq!(e.to_string(), "unit.tg:1:11: invalid import `.a` (import cannot start or end with '.')");
    let (result, _) = parse_source("use { a. }");
    let e = result.unwrap_err();
    assert!(matches!(&e.kind, ErrorKind::InvalidImport(i) if i == "a."));
    let (result, _) = parse_source("use { a, , b }");
    let e = result.unwrap_err();
    assert!(matches!(&e.kind, ErrorKind::InvalidImport(i) if i.is_empty()));
    assert_eq!(e.message, "empty import");
}

#[test]
fn use_block_alias_collision_keeps_earlier_imports() {
    let (result, module) = parse_source("use { a.b, c.d as b }");
    let e = result.unwrap_err();
    assert!(matches!(&e.kind, ErrorKind::SymbolRedefined(s) if s == "b"));
    assert_eq!(e.message, "`b` already defined");
    assert_eq!(e.to_string(), "unit.tg:1:20: `b` is already defined (`b` already defined)");
    match module.lookup("b") {
        Some(SymbolRef::Import(import)) => assert_eq!(import.path, "a.b"),
        other => panic!("no import b: {:?}", other),
    }
}

#[test]
fn use_block_errors() {
    let (result, _) = parse_source("use { a.b");
    assert!(matches!(result.unwrap_err().kind, ErrorKind::UnexpectedEOF));
    let (result, _) = parse_source("use a.b");
    let e = result.unwrap_err();
    assert!(matches!(e.kind, ErrorKind::UnexpectedToken(_)));
    assert_eq!(e.message, "use keyword should be followed by a `{`");
    let (result, _) = parse_source("use { a 1 }");
    assert_eq!(result.unwrap_err().message, "while parsing `use` block");
    let (result, _) = parse_source("use { a as 1 }");
    assert_eq!(result.unwrap_err().message, "while parsing import alias");
    let (result, _) = parse_source("use { a as b c }");
    assert_eq!(result.unwrap_err().message, "while parsing import alias");
}

#[test]
fn const_and_var_blocks() {
    let source = "use { io.print }\nconst {\n  limit int = 10\n  name text = \"x\"\n}\nvar {\n  total point = origin(0, 0)\n}\n";
    let (result, module) = parse_source(source);
    assert!(result.is_ok(), "{:?}", result);
    match module.lookup("limit") {
        Some(SymbolRef::Constant(c)) => {
            assert_eq!(c.ttype, Type::Int);
            assert!(matches!(c.value.value, ExpressionValue::Literal(Literal::Integer(10))));
            assert_eq!((c.first_token.line, c.first_token.column), (3, 3));
        }
        other => panic!("no constant: {:?}", other),
    }
    match module.lookup("name") {
        Some(SymbolRef::Constant(c)) => assert_eq!(c.ttype, Type::Text),
        other => panic!("no constant: {:?}", other),
    }
    match module.lookup("total") {
        Some(SymbolRef::Variable(v)) => {
            assert_eq!(v.ttype, Type::Struct("point".to_string()));
            assert!(matches!(v.initial_value.value, ExpressionValue::FunctionCall(_)));
        }
        other => panic!("no variable: {:?}", other),
    }
    assert!(matches!(module.lookup("print"), Some(SymbolRef::Import(_))));
}

#[test]
fn blocks_are_optional() {
    let (result, module) = parse_source("");
    assert!(result.is_ok());
    assert!(module.lookup("x").is_none());
    let (result, _) = parse_source("\n\n  \n");
    assert!(result.is_ok());
    let (result, module) = parse_source("var {\n x int = 1\n}\n");
    assert!(result.is_ok(), "{:?}", result);
    assert!(matches!(module.lookup("x"), Some(SymbolRef::Variable(_))));
    let (result, module) = parse_source("const {\n}\n");
    assert!(result.is_ok(), "{:?}", result);
    assert!(module.lookup("x").is_none());
}

#[test]
fn redefinition_is_an_error() {
    let (result, module) = parse_source("const {\n a int = 1\n}\nvar {\n a int = 2\n}\n");
    let e = result.unwrap_err();
    assert!(matches!(&e.kind, ErrorKind::SymbolRedefined(s) if s == "a"));
    assert!(matches!(module.lookup("a"), Some(SymbolRef::Constant(_))));
    let (result, _) = parse_source("use { a }\nconst {\n a int = 1\n}\n");
    assert!(matches!(result.unwrap_err().kind, ErrorKind::SymbolRedefined(_)));
}

#[test]
fn unexpected_tokens_are_hard_errors() {
    let (result, _) = parse_source("1");
    let e = result.unwrap_err();
    assert!(matches!(e.kind, ErrorKind::UnexpectedToken(_)));
    assert_eq!(e.message, "while looking for `use` block");
    let (result, _) = parse_source("use { a }\n)");
    assert_eq!(result.unwrap_err().message, "while looking for `const` block");
    let (result, _) = parse_source("const {\n a int = 1\n}\nuse { a }");
    assert_eq!(result.unwrap_err().message, "while looking for `var` block");
    let (result, _) = parse_source("func main");
    let e = result.unwrap_err();
    assert!(matches!(&e.kind, ErrorKind::UnexpectedToken(t) if t.value == TokenValue::KeywordFunc));
    assert_eq!(e.message, "top-level declarations are not implemented yet");
    let (result, _) = parse_source("var {\n a int = 1\n}\nvar {\n b int = 1\n}\n");
    assert_eq!(result.unwrap_err().message, "top-level declarations are not implemented yet");
}

#[test]
fn declaration_block_errors() {
    let (result, _) = parse_source("const a int = 1");
    assert_eq!(result.unwrap_err().message, "const and var blocks should start with a `{`");
    let (result, _) = parse_source("const {\n 1 int = 1\n}");
    assert_eq!(result.unwrap_err().message, "expected identifier or `}`");
    let (result, _) = parse_source("const {\n a 1 = 1\n}");
    assert_eq!(result.unwrap_err().message, "expected type definition");
    let (result, _) = parse_source("const {\n a int 1\n}");
    assert_eq!(result.unwrap_err().message, "expected `=`");
    let (result, _) = parse_source("const {\n a int += 1\n}");
    assert_eq!(result.unwrap_err().message, "expected `=`");
    let (result, _) = parse_source("const {\n a int = 1");
    assert!(matches!(result.unwrap_err().kind, ErrorKind::UnexpectedEOF));
    let (result, _) = parse_source("const {\n a int = \"x\n}");
    assert!(matches!(result.unwrap_err().kind, ErrorKind::TokenizerError(_)));
}

#[test]
fn token_matchers() {
    assert!(identifier(&token("abc")));
    assert!(!identifier(&token("if")));
    assert!(newline(&token("\n")));
    assert!(!newline(&token(",")));
    assert!(comma(&token(",")));
    assert!(close_paren(&token(")")));
    assert!(!close_paren(&token("(")));
    let m = either(TokenMatcher::CloseParen, TokenMatcher::Comma);
    assert!(m.matches(&token(")")));
    assert!(m.matches(&token(",")));
    assert!(!m.matches(&token("x")));
    assert!(TokenMatcher::Not(Box::new(TokenMatcher::Newline)).matches(&token("x")));
    assert!(TokenMatcher::Assign.matches(&token("=")));
    assert!(!TokenMatcher::Assign.matches(&token("+=")));
    assert!(TokenMatcher::OpenBrace.matches(&token("{")));
    assert!(TokenMatcher::CloseBrace.matches(&token("}")));
}

#[test]
fn precedence_order() {
    let order = [
        "||", "&&", "|", "^", "&", "==", "<<", "+", "*", "!",
    ];
    for (i, a) in order.iter().enumerate() {
        for (j, b) in order.iter().enumerate() {
            let delimiter = term_delimiter_for(&token(a));
            assert_eq!(delimiter.matches(&token(b)), j > i, "{} {}", a, b);
        }
        // a token that is no operator never outranks an operator
        assert!(!term_delimiter_for(&token(a)).matches(&token("x")));
        assert!(!term_delimiter_for(&token(a)).matches(&token(")")));
        // every operator outranks a token that is no operator
        assert!(term_delimiter_for(&token("x")).matches(&token(a)));
    }
    assert_eq!(OperatorPrecedence::from(&token("-")), OperatorPrecedence::Sum);
    assert_eq!(OperatorPrecedence::from(&token("%")), OperatorPrecedence::Multiplication);
    assert_eq!(OperatorPrecedence::from(&token(">=")), OperatorPrecedence::Comparison);
    assert_eq!(OperatorPrecedence::from(&token(">>")), OperatorPrecedence::BitwiseShift);
    assert_eq!(OperatorPrecedence::from(&token("--")), OperatorPrecedence::UnaryOperator);
    assert_eq!(OperatorPrecedence::from(&token("=")), OperatorPrecedence::NotAnOperator);
    assert_eq!(OperatorPrecedence::UnaryOperator.rank(), 10);
    assert_eq!(OperatorPrecedence::NotAnOperator.rank(), 0);
    assert_eq!(
        token("+").value,
        TokenValue::BinaryOperator(BinaryOperator::Add)
    );
}

#[test]
fn error_kinds_as_text() {
    assert_eq!(ErrorKind::Nop.to_string(), "no error");
    assert_eq!(ErrorKind::UnexpectedEOF.to_string(), "unexpected EOF");
    assert_eq!(ErrorKind::UnexpectedToken(token("abc")).to_string(), "unexpected token `abc`");
    assert_eq!(ErrorKind::InvalidImport("a.".to_string()).to_string(), "invalid import `a.`");
    assert_eq!(ErrorKind::SymbolRedefined("x".to_string()).to_string(), "`x` is already defined");
    let mut ts = stream("@");
    let inner = ts.next_token().unwrap().unwrap_err();
    assert_eq!(
        ErrorKind::TokenizerError(inner).to_string(),
        "test.tg:1:2: invalid input (unexpected character '@')"
    );
    let e = Error::unexpected_token(token("x"), String::new());
    assert_eq!(e.to_string(), "test.tg:1:1: unexpected token `x`");
    let ts = stream("ab");
    let e = Error::redefined_symbol(&ts, "ab");
    assert_eq!(e.to_string(), "test.tg:1:1: `ab` is already defined (`ab` already defined)");
    let e = Error::new(&ts, ErrorKind::Nop, "m".to_string());
    assert_eq!(e.to_string(), "test.tg:1:1: no error (m)");
}

#[test]
fn sources_add_up() {
    let mut parser = Parser::new("unit".to_string());
    assert!(parser.add_source(b"use { a.b }".to_vec(), None).is_ok());
    assert!(parser.add_source(b"const {\n c int = 1\n}\n".to_vec(), None).is_ok());
    let e = parser.add_source(b"var {\n b int = 1\n}\n".to_vec(), None).unwrap_err();
    assert!(matches!(&e.kind, ErrorKind::SymbolRedefined(s) if s == "b"));
    assert_eq!(e.source, "-");
    let module = parser.finalize().unwrap();
    assert!(matches!(module.lookup("b"), Some(SymbolRef::Import(_))));
    assert!(matches!(module.lookup("c"), Some(SymbolRef::Constant(_))));
}
