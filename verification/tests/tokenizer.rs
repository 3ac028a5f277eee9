use tiger_lang::tokenizer::AssignOperator::{Assign, AssignAfter};
use tiger_lang::tokenizer::BinaryOperator::{
    Add, BinaryAnd, BinaryOr, Divide, LogicalAnd, LogicalOr, Modulo, Multiply, ShiftLeft,
    ShiftRight, Subtract, Xor,
};
use tiger_lang::tokenizer::{
    is_numeric, is_operator, AssignOperator, BinaryOperator, ComparisonOperator, ErrorKind, Token,
    TokenStream, TokenValue, UnaryOperator,
};

fn stream(text: &str) -> TokenStream {
    TokenStream::new(text.as_bytes().to_vec(), None)
}

fn tokens(text: &str) -> Vec<Token> {
    let mut ts = stream(text);
    let mut out = Vec::new();
    while let Some(t) = ts.next_token() {
        match t {
            Ok(t) => out.push(t),
            Err(e) => panic!("unexpected error: {}", e.to_string()),
        }
    }
    out
}

fn values(text: &str) -> Vec<TokenValue> {
    tokens(text).into_iter().map(|t| t.value).collect()
}

#[test]
fn identifier_operator_integer() {
    let ts = tokens("abc123 + 1");
    assert_eq!(ts.len(), 3);
    assert_eq!(ts[0].value, TokenValue::Identifier("abc123".to_string()));
    assert_eq!((ts[0].line, ts[0].column, ts[0].length), (1, 1, 6));
    assert_eq!(ts[0].text, "abc123");
    assert_eq!(ts[0].path, "-");
    assert_eq!(ts[1].value, TokenValue::BinaryOperator(BinaryOperator::Add));
    assert_eq!((ts[1].line, ts[1].column, ts[1].length), (1, 8, 1));
    assert_eq!(ts[2].value, TokenValue::IntegerLiteral(1));
    assert_eq!((ts[2].line, ts[2].column, ts[2].length), (1, 10, 1));
}

#[test]
fn compound_shift_assign_is_one_token() {
    assert_eq!(
        values("<<="),
        vec![TokenValue::Assignment(AssignOperator::AssignAfter(BinaryOperator::ShiftLeft))]
    );
    assert_eq!(
        values("<a"),
        vec![
            TokenValue::Comparison(ComparisonOperator::LessThan),
            TokenValue::Identifier("a".to_string())
        ]
    );
    assert_eq!(
        values("a+b"),
        vec![
            TokenValue::Identifier("a".to_string()),
            TokenValue::BinaryOperator(BinaryOperator::Add),
            TokenValue::Identifier("b".to_string())
        ]
    );
    assert_eq!(values("++"), vec![TokenValue::UnaryOperator(UnaryOperator::Increment)]);
}

#[test]
fn number_literals() {
    assert_eq!(values("0x1F"), vec![TokenValue::IntegerLiteral(31)]);
    let float = values("3.14");
    assert_eq!(float, vec![TokenValue::FloatingPointLiteral("3.14".to_string())]);
    match &float[0] {
        TokenValue::FloatingPointLiteral(text) => assert_eq!(text.parse::<f64>().unwrap(), 3.14),
        _ => unreachable!(),
    }
    assert_eq!(values("5."), vec![TokenValue::IntegerLiteral(5), TokenValue::Dot]);
    assert_eq!(
        values("5.)"),
        vec![TokenValue::IntegerLiteral(5), TokenValue::Dot, TokenValue::CloseParen]
    );
}

#[test]
fn string_escape_tab() {
    let ts = tokens("\"a\\tb\"");
    assert_eq!(ts.len(), 1);
    assert_eq!(ts[0].value, TokenValue::StringLiteral("a\tb".to_string()));
    match &ts[0].value {
        TokenValue::StringLiteral(s) => assert_eq!(s.chars().count(), 3),
        _ => unreachable!(),
    }
}

#[test]
fn unexpected_character_is_an_error() {
    let mut ts = stream("  @");
    match ts.next_token() {
        Some(Err(e)) => {
            assert_eq!(e.kind, ErrorKind::InvalidInput);
            assert_eq!(e.message, "unexpected character '@'");
            assert_eq!((e.line, e.column), (1, 4));
            assert_eq!(e.to_string(), "-:1:4: invalid input (unexpected character '@')");
        }
        _ => panic!("expected an error"),
    }
}

fn error_of(text: &str) -> tiger_lang::tokenizer::Error {
    let mut ts = stream(text);
    loop {
        match ts.next_token() {
            Some(Ok(_)) => {}
            Some(Err(e)) => return e,
            None => panic!("no error in {:?}", text),
        }
    }
}

#[test]
fn positions_follow_newlines() {
    let ts = tokens("a\n  bb\n\nc d");
    let got: Vec<(String, usize, usize)> =
        ts.iter().map(|t| (t.text.clone(), t.line, t.column)).collect();
    let expected = vec![
        ("a".to_string(), 1, 1),
        ("\n".to_string(), 1, 2),
        ("bb".to_string(), 2, 3),
        ("\n".to_string(), 2, 5),
        ("\n".to_string(), 3, 1),
        ("c".to_string(), 4, 1),
        ("d".to_string(), 4, 3),
    ];
    assert_eq!(got, expected);
    let mut s = stream("ab\ncd\n");
    assert_eq!(s.position(), ("-".to_string(), 1, 1));
    while let Some(t) = s.next_token() {
        t.unwrap();
    }
    assert_eq!(s.position(), ("-".to_string(), 3, 1));
}

#[test]
fn position_counts_characters_not_bytes() {
    let ts = tokens("é ü");
    assert_eq!((ts[0].line, ts[0].column, ts[0].length), (1, 1, 2));
    assert_eq!((ts[1].line, ts[1].column, ts[1].length), (1, 3, 2));
    assert_eq!(ts[1].text, "ü");
}

#[test]
fn peek_is_idempotent() {
    let mut ts = stream("a b");
    assert!(!ts.is_empty());
    let first = ts.peek().unwrap().unwrap();
    let second = ts.peek().unwrap().unwrap();
    let third = ts.next_token().unwrap().unwrap();
    for t in [&first, &second, &third] {
        assert_eq!(t.value, TokenValue::Identifier("a".to_string()));
        assert_eq!((t.line, t.column), (1, 1));
    }
    let fourth = ts.next_token().unwrap().unwrap();
    assert_eq!(fourth.value, TokenValue::Identifier("b".to_string()));
    assert_eq!((fourth.line, fourth.column), (1, 3));
    assert!(ts.is_empty());
    assert!(ts.peek().is_none());
    assert!(ts.next_token().is_none());
    assert!(ts.next().is_none());
    assert!(ts.is_empty());
    let mut ts = stream("a b");
    assert_eq!(ts.next().unwrap().unwrap().text, "a");
    assert_eq!(ts.peek().unwrap().unwrap().text, "b");
    assert_eq!(ts.next().unwrap().unwrap().text, "b");
}

#[test]
fn is_empty_waits_for_the_cached_token() {
    let mut ts = stream("a");
    assert!(!ts.is_empty());
    ts.peek().unwrap().unwrap();
    assert!(!ts.is_empty());
    ts.next_token().unwrap().unwrap();
    assert!(ts.is_empty());
    let mut ts = stream("");
    assert!(ts.is_empty());
    assert!(ts.next_token().is_none());
    let mut ts = stream("a ");
    ts.next_token().unwrap().unwrap();
    assert!(!ts.is_empty());
    assert!(ts.next_token().is_none());
    assert!(ts.is_empty());
}

#[test]
fn keywords_and_identifiers() {
    assert_eq!(
        values("if else for loop while func test var const use as return true false"),
        vec![
            TokenValue::KeywordIf,
            TokenValue::KeywordElse,
            TokenValue::KeywordFor,
            TokenValue::KeywordLoop,
            TokenValue::KeywordWhile,
            TokenValue::KeywordFunc,
            TokenValue::KeywordTest,
            TokenValue::KeywordVar,
            TokenValue::KeywordConst,
            TokenValue::KeywordUse,
            TokenValue::KeywordAs,
            TokenValue::KeywordReturn,
            TokenValue::BoolLiteral(true),
            TokenValue::BoolLiteral(false),
        ]
    );
    assert_eq!(
        values("iff _x x_1 Use struct"),
        vec![
            TokenValue::Identifier("iff".to_string()),
            TokenValue::Identifier("_x".to_string()),
            TokenValue::Identifier("x_1".to_string()),
            TokenValue::Identifier("Use".to_string()),
            TokenValue::Identifier("struct".to_string()),
        ]
    );
}

#[test]
fn punctuation() {
    assert_eq!(
        values("{}[](),."),
        vec![
            TokenValue::OpenBrace,
            TokenValue::CloseBrace,
            TokenValue::OpenBracket,
            TokenValue::CloseBracket,
            TokenValue::OpenParen,
            TokenValue::CloseParen,
            TokenValue::Comma,
            TokenValue::Dot,
        ]
    );
}

#[test]
fn every_operator() {
    let table = vec![
        ("+", TokenValue::BinaryOperator(Add)),
        ("-", TokenValue::BinaryOperator(Subtract)),
        ("*", TokenValue::BinaryOperator(Multiply)),
        ("/", TokenValue::BinaryOperator(Divide)),
        ("%", TokenValue::BinaryOperator(Modulo)),
        ("|", TokenValue::BinaryOperator(BinaryOr)),
        ("&", TokenValue::BinaryOperator(BinaryAnd)),
        ("^", TokenValue::BinaryOperator(Xor)),
        ("||", TokenValue::BinaryOperator(LogicalOr)),
        ("&&", TokenValue::BinaryOperator(LogicalAnd)),
        ("<<", TokenValue::BinaryOperator(ShiftLeft)),
        (">>", TokenValue::BinaryOperator(ShiftRight)),
        ("==", TokenValue::Comparison(ComparisonOperator::Equals)),
        (">", TokenValue::Comparison(ComparisonOperator::GreaterThan)),
        ("<", TokenValue::Comparison(ComparisonOperator::LessThan)),
        (">=", TokenValue::Comparison(ComparisonOperator::GreaterThanOrEquals)),
        ("<=", TokenValue::Comparison(ComparisonOperator::LessThanOrEquals)),
        ("!=", TokenValue::Comparison(ComparisonOperator::NotEquals)),
        ("!", TokenValue::UnaryOperator(UnaryOperator::Not)),
        ("++", TokenValue::UnaryOperator(UnaryOperator::Increment)),
        ("--", TokenValue::UnaryOperator(UnaryOperator::Decrement)),
        ("=", TokenValue::Assignment(Assign)),
        ("+=", TokenValue::Assignment(AssignAfter(Add))),
        ("-=", TokenValue::Assignment(AssignAfter(Subtract))),
        ("*=", TokenValue::Assignment(AssignAfter(Multiply))),
        ("/=", TokenValue::Assignment(AssignAfter(Divide))),
        ("%=", TokenValue::Assignment(AssignAfter(Modulo))),
        ("|=", TokenValue::Assignment(AssignAfter(BinaryOr))),
        ("&=", TokenValue::Assignment(AssignAfter(BinaryAnd))),
        ("^=", TokenValue::Assignment(AssignAfter(Xor))),
        ("||=", TokenValue::Assignment(AssignAfter(LogicalOr))),
        ("&&=", TokenValue::Assignment(AssignAfter(LogicalAnd))),
        ("<<=", TokenValue::Assignment(AssignAfter(ShiftLeft))),
        (">>=", TokenValue::Assignment(AssignAfter(ShiftRight))),
    ];
    for (text, value) in table {
        let ts = tokens(text);
        assert_eq!(ts.len(), 1, "{}", text);
        assert_eq!(ts[0].value, value, "{}", text);
        assert_eq!(ts[0].text, text);
        assert_eq!(ts[0].length, text.len());
        // the operator ends where another token begins
        let followed = format!("{}x", text);
        let ts = tokens(&followed);
        assert_eq!(ts.len(), 2, "{}", followed);
        assert_eq!(ts[0].value, value, "{}", followed);
        assert_eq!(ts[1].column, text.len() + 1);
    }
}

#[test]
fn operators_take_the_longest_match() {
    assert_eq!(
        values("<<<"),
        vec![
            TokenValue::BinaryOperator(ShiftLeft),
            TokenValue::Comparison(ComparisonOperator::LessThan)
        ]
    );
    assert_eq!(
        values("< ="),
        vec![
            TokenValue::Comparison(ComparisonOperator::LessThan),
            TokenValue::Assignment(AssignOperator::Assign)
        ]
    );
    assert_eq!(
        values("+++"),
        vec![
            TokenValue::UnaryOperator(UnaryOperator::Increment),
            TokenValue::BinaryOperator(Add)
        ]
    );
    assert_eq!(
        values("==="),
        vec![
            TokenValue::Comparison(ComparisonOperator::Equals),
            TokenValue::Assignment(AssignOperator::Assign)
        ]
    );
    assert_eq!(
        values("&|"),
        vec![TokenValue::BinaryOperator(BinaryAnd), TokenValue::BinaryOperator(BinaryOr)]
    );
    assert_eq!(
        values("1-2"),
        vec![
            TokenValue::IntegerLiteral(1),
            TokenValue::BinaryOperator(Subtract),
            TokenValue::IntegerLiteral(2)
        ]
    );
}

#[test]
fn integers_in_every_base() {
    assert_eq!(values("0"), vec![TokenValue::IntegerLiteral(0)]);
    assert_eq!(values("0b101"), vec![TokenValue::IntegerLiteral(5)]);
    assert_eq!(values("0o17"), vec![TokenValue::IntegerLiteral(15)]);
    assert_eq!(values("0xff"), vec![TokenValue::IntegerLiteral(255)]);
    assert_eq!(values("0xFF"), vec![TokenValue::IntegerLiteral(255)]);
    assert_eq!(values("0xb1"), vec![TokenValue::IntegerLiteral(177)]);
    assert_eq!(values("007"), vec![TokenValue::IntegerLiteral(7)]);
    assert_eq!(
        values("170141183460469231731687303715884105727"),
        vec![TokenValue::IntegerLiteral(i128::MAX)]
    );
    let ts = tokens("0x1F");
    assert_eq!(ts[0].text, "0x1F");
    assert_eq!(ts[0].length, 4);
}

#[test]
fn number_errors() {
    let e = error_of("170141183460469231731687303715884105728");
    assert_eq!(e.kind, ErrorKind::Internal);
    assert_eq!(
        e.message,
        "internal error while reading number: number too large to fit in target type"
    );
    assert_eq!(
        e.to_string(),
        "-:1:40: internal tokenizer error (internal error while reading number: number too large to fit in target type)"
    );
    let e = error_of("0x");
    assert_eq!(e.kind, ErrorKind::Internal);
    assert_eq!(
        e.message,
        "internal error while reading number: cannot parse integer from empty string"
    );
    let e = error_of("12a");
    assert_eq!(e.kind, ErrorKind::InvalidInput);
    assert_eq!(e.message, "unexpected character 'a' in a number literal");
    assert_eq!((e.line, e.column), (1, 4));
    let e = error_of("1x2");
    assert_eq!(e.message, "unexpected character 'x' in a number literal");
    let e = error_of("0b12");
    assert_eq!(e.message, "unexpected character '2' in a number literal");
    let e = error_of("1_000");
    assert_eq!(e.message, "unexpected character '_' in a number literal");
    let e = error_of("1.5.2");
    assert_eq!(e.message, "unexpected character '.' in a number literal");
    let e = error_of("1..2");
    assert_eq!(e.message, "unexpected character '.' in a number literal");
    let e = error_of("0x1.5");
    assert_eq!(e.message, "unexpected character '.' in a number literal");
    let e = error_of("5.x");
    assert_eq!(e.message, "unexpected character 'x' in a number literal");
    let e = error_of("\u{0663}");
    assert_eq!(e.message, "unexpected character '\u{0663}' in a number literal");
}

#[test]
fn floats() {
    assert_eq!(values("0.5"), vec![TokenValue::FloatingPointLiteral("0.5".to_string())]);
    assert_eq!(
        values("10.25+"),
        vec![
            TokenValue::FloatingPointLiteral("10.25".to_string()),
            TokenValue::BinaryOperator(BinaryOperator::Add)
        ]
    );
    assert_eq!(
        values("5.\n"),
        vec![TokenValue::IntegerLiteral(5), TokenValue::Dot, TokenValue::Newline]
    );
    let ts = tokens("5.\n");
    assert_eq!((ts[1].line, ts[1].column), (1, 2));
    assert_eq!((ts[2].line, ts[2].column), (1, 3));
}

#[test]
fn string_literals() {
    let ts = tokens("\"a b\" x");
    assert_eq!(ts[0].value, TokenValue::StringLiteral("a b".to_string()));
    assert_eq!(ts[0].text, "\"a b\"");
    assert_eq!(ts[0].length, 5);
    assert_eq!((ts[0].line, ts[0].column), (1, 1));
    assert_eq!(ts[1].column, 7);
    assert_eq!(values("\"\""), vec![TokenValue::StringLiteral(String::new())]);
    assert_eq!(
        values("\"\\r\\n\\t\\\\\\'\\\"\""),
        vec![TokenValue::StringLiteral("\n\n\t\\'\"".to_string())]
    );
}

#[test]
fn string_errors() {
    let e = error_of("\"abc");
    assert_eq!(e.kind, ErrorKind::InvalidInput);
    assert_eq!(e.message, "unexpected EOF while reading unterminated string");
    assert_eq!((e.line, e.column), (1, 5));
    let e = error_of("\"ab\ncd\"");
    assert_eq!(e.message, "unexpected newline while reading unterminated string");
    assert_eq!((e.line, e.column), (2, 1));
    let e = error_of("\"a\\qb\"");
    assert_eq!(e.message, "invalid character in escape sequence: q");
    let e = error_of("\"a\\");
    assert_eq!(e.message, "EOF reached while reading escape sequence");
}

#[test]
fn char_literals() {
    let ts = tokens("'a' '\\n' '\\''");
    assert_eq!(ts[0].value, TokenValue::CharLiteral('a'));
    assert_eq!(ts[0].text, "'a'");
    assert_eq!(ts[1].value, TokenValue::CharLiteral('\n'));
    assert_eq!(ts[2].value, TokenValue::CharLiteral('\''));
    assert_eq!(ts[2].column, 10);
    let e = error_of("''");
    assert_eq!(e.message, "character literal cannot be empty");
    let e = error_of("'ab'");
    assert_eq!(
        e.message,
        "unexpected character 'b': character literals can only contain one character"
    );
    let e = error_of("'");
    assert_eq!(e.message, "unexpected EOF while reading character literal");
    let e = error_of("'a");
    assert_eq!(e.message, "unexpected EOF while reading unterminated string");
    let e = error_of("'\\x'");
    assert_eq!(e.message, "invalid character in escape sequence: x");
}

#[test]
fn malformed_input_is_an_io_error() {
    let mut ts = TokenStream::new(vec![b'a', b' ', 0xff, 0xfe, 0xfd, 0xfc, b'b'], Some("f".to_string()));
    assert_eq!(ts.next_token().unwrap().unwrap().value, TokenValue::Identifier("a".to_string()));
    let e = ts.next_token().unwrap().unwrap_err();
    assert_eq!(
        e.kind,
        ErrorKind::IOError(tiger_lang::tokenizer::ReadError::InvalidData(0xff, 0xfe, 0xfd, 0xfc))
    );
    assert_eq!(e.message, "I/O error");
    assert_eq!((e.line, e.column), (1, 3));
    assert_eq!(
        e.to_string(),
        "f:1:3: I/O error: failed to parse UTF-8 data: fffefdfc (I/O error)"
    );
    assert_eq!(ts.next_token().unwrap().unwrap().value, TokenValue::Identifier("b".to_string()));
    let mut ts = TokenStream::new(vec![b'a', 0xe2, 0x82], None);
    let e = ts.next_token().unwrap().unwrap_err();
    assert_eq!(e.kind, ErrorKind::IOError(tiger_lang::tokenizer::ReadError::UnexpectedEof));
    assert_eq!(e.to_string(), "-:1:2: I/O error: incomplete UTF-8 codepoint (I/O error)");
}

#[test]
fn character_classes() {
    for c in "+-/*%!&|^=<>".chars() {
        assert!(is_operator(c));
    }
    for c in "a1 .,(){}[]\"'_~@#$?:;\\".chars() {
        assert!(!is_operator(c), "{}", c);
    }
    assert!(is_numeric('0', 2) && is_numeric('1', 2) && !is_numeric('2', 2));
    assert!(is_numeric('7', 8) && !is_numeric('8', 8));
    assert!(is_numeric('9', 10) && !is_numeric('a', 10));
    assert!(is_numeric('f', 16) && is_numeric('F', 16) && !is_numeric('g', 16));
    assert!(is_numeric('z', 36) && is_numeric('Z', 36));
    assert!(!is_numeric('.', 16) && !is_numeric('\u{0663}', 10));
    for base in 2..=36u32 {
        for c in ['0', '1', '5', '9', 'a', 'f', 'z', 'A', 'F', 'Z', '_', ' ', '-'] {
            assert_eq!(is_numeric(c, base), c.to_digit(base).is_some(), "{} {}", c, base);
        }
    }
    // no character is a digit of a base below one, and only zero of base one
    assert!(!is_numeric('0', 0));
    assert!(is_numeric('0', 1) && !is_numeric('1', 1));
}

#[test]
fn token_values_compare() {
    let a = TokenValue::Identifier("a".to_string());
    assert!(a.same_as(&TokenValue::Identifier("a".to_string())));
    assert!(!a.same_as(&TokenValue::Identifier("b".to_string())));
    assert!(!a.same_as(&TokenValue::StringLiteral("a".to_string())));
    assert!(TokenValue::KeywordUse.same_as(&TokenValue::KeywordUse));
    assert!(!TokenValue::KeywordUse.same_as(&TokenValue::KeywordVar));
    assert!(TokenValue::IntegerLiteral(3).same_as(&TokenValue::IntegerLiteral(3)));
    let t = tokens("abc")[0].clone();
    assert_eq!(t.text, "abc");
    assert_eq!(t.value.clone(), TokenValue::Identifier("abc".to_string()));
}

#[test]
fn whitespace_is_skipped() {
    let ts = tokens("a\t b\r\n\u{a0}c\u{2003}d");
    let got: Vec<(String, usize, usize)> =
        ts.iter().map(|t| (t.text.clone(), t.line, t.column)).collect();
    assert_eq!(
        got,
        vec![
            ("a".to_string(), 1, 1),
            ("b".to_string(), 1, 4),
            ("\n".to_string(), 1, 6),
            ("c".to_string(), 2, 2),
            ("d".to_string(), 2, 4),
        ]
    );
    assert!(tokens(" \t \r ").is_empty());
}

#[test]
fn identifiers_beyond_ascii() {
    let ts = tokens("größe_2 名前 x²");
    assert_eq!(ts[0].value, TokenValue::Identifier("größe_2".to_string()));
    assert_eq!(ts[0].length, 9);
    assert_eq!(ts[1].value, TokenValue::Identifier("名前".to_string()));
    assert_eq!((ts[1].column, ts[1].length), (9, 6));
    // a superscript two is numeric, so it continues an identifier
    assert_eq!(ts[2].value, TokenValue::Identifier("x²".to_string()));
    // but it cannot begin a number
    assert_eq!(error_of("²").message, "unexpected character '²' in a number literal");
}

#[test]
fn other_characters_are_errors() {
    for text in ["@", "#", "$", "~", "?", ":", ";", "\\", "`"] {
        let e = error_of(text);
        assert_eq!(e.kind, ErrorKind::InvalidInput);
        assert_eq!(e.message, format!("unexpected character '{}'", text));
        assert_eq!((e.line, e.column), (1, 2));
    }
}
