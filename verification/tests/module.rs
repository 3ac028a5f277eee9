use tiger_lang::lang::{
    Expression, ExpressionValue, Import, Literal, Module, Symbol, SymbolRef, Type,
};
use tiger_lang::tokenizer::{Token, TokenStream, UnaryOperator};

fn token(text: &str) -> Token {
    TokenStream::new(text.as_bytes().to_vec(), None).next_token().unwrap().unwrap()
}

fn literal(v: i128) -> Expression {
    Expression::literal_int(v, token("0"))
}

fn constant(v: i128) -> Symbol {
    Symbol::new_const(Type::Int, literal(v), token("c"))
}

fn variable(v: i128) -> Symbol {
    Symbol::new_var(Type::Int64, literal(v), token("v"))
}

fn import(path: &str) -> Symbol {
    Symbol::new_import(path.to_string(), token("i"))
}

fn kind_of(module: &Module, name: &str) -> &'static str {
    match module.lookup(name) {
        Some(SymbolRef::Function(_)) => "function",
        Some(SymbolRef::Variable(_)) => "variable",
        Some(SymbolRef::Constant(_)) => "constant",
        Some(SymbolRef::Type(_)) => "type",
        Some(SymbolRef::Import(_)) => "import",
        None => "none",
    }
}

fn value_of(module: &Module, name: &str) -> i128 {
    let e = match module.lookup(name) {
        Some(SymbolRef::Variable(v)) => &v.initial_value,
        Some(SymbolRef::Constant(c)) => &c.value,
        other => panic!("no value: {:?}", other),
    };
    match &e.value {
        ExpressionValue::Literal(Literal::Integer(v)) => *v,
        other => panic!("not an integer: {:?}", other),
    }
}

#[test]
fn new_module_is_empty() {
    let m = Module::new("m".to_string());
    assert_eq!(kind_of(&m, "x"), "none");
    assert_eq!(kind_of(&m, ""), "none");
}

#[test]
fn define_then_lookup() {
    let mut m = Module::new("m".to_string());
    assert!(m.define("c".to_string(), constant(1)).is_ok());
    assert!(m.define("v".to_string(), variable(2)).is_ok());
    assert!(m.define("i".to_string(), import("a.b.i")).is_ok());
    assert_eq!(kind_of(&m, "c"), "constant");
    assert_eq!(kind_of(&m, "v"), "variable");
    assert_eq!(kind_of(&m, "i"), "import");
    assert_eq!(value_of(&m, "c"), 1);
    assert_eq!(value_of(&m, "v"), 2);
    assert_eq!(kind_of(&m, "C"), "none");
}

#[test]
fn second_define_fails_for_every_pair_of_kinds() {
    let makers: [(&str, fn() -> Symbol); 3] = [
        ("constant", || constant(1)),
        ("variable", || variable(1)),
        ("import", || import("p.q")),
    ];
    let second: [fn() -> Symbol; 3] = [|| constant(2), || variable(2), || import("r.s")];
    for (kind, first) in makers.iter() {
        for other in second.iter() {
            let mut m = Module::new("m".to_string());
            assert!(m.define("other".to_string(), variable(7)).is_ok());
            assert!(m.define("name".to_string(), first()).is_ok());
            assert_eq!(m.define("name".to_string(), other()), Err(()));
            // nothing has changed
            assert_eq!(kind_of(&m, "name"), *kind);
            assert_eq!(value_of(&m, "other"), 7);
            match m.lookup("name") {
                Some(SymbolRef::Import(i)) => assert_eq!(i.path, "p.q"),
                Some(SymbolRef::Constant(_)) | Some(SymbolRef::Variable(_)) => {
                    assert_eq!(value_of(&m, "name"), 1)
                }
                other => panic!("unexpected: {:?}", other),
            }
        }
    }
}

#[test]
fn undefine_removes_and_returns() {
    let mut m = Module::new("m".to_string());
    assert!(m.define("a".to_string(), constant(1)).is_ok());
    assert!(m.define("b".to_string(), variable(2)).is_ok());
    assert!(m.define("c".to_string(), import("x.c")).is_ok());
    assert!(matches!(m.undefine("b"), Some(Symbol::Variable(_))));
    assert_eq!(kind_of(&m, "b"), "none");
    assert_eq!(kind_of(&m, "a"), "constant");
    assert_eq!(kind_of(&m, "c"), "import");
    assert!(m.undefine("b").is_none());
    assert!(matches!(m.undefine("a"), Some(Symbol::Constant(_))));
    assert!(matches!(m.undefine("c"), Some(Symbol::Import(_))));
    assert_eq!(kind_of(&m, "a"), "none");
    // a name that was removed can be defined again
    assert!(m.define("b".to_string(), constant(3)).is_ok());
    assert_eq!(kind_of(&m, "b"), "constant");
}

#[test]
fn redefine_replaces_across_kinds() {
    let mut m = Module::new("m".to_string());
    assert!(m.redefine("a".to_string(), constant(1)).is_none());
    assert_eq!(kind_of(&m, "a"), "constant");
    match m.redefine("a".to_string(), variable(2)) {
        Some(Symbol::Constant(c)) => assert_eq!(c.ttype, Type::Int),
        other => panic!("unexpected: {:?}", other),
    }
    assert_eq!(kind_of(&m, "a"), "variable");
    assert_eq!(value_of(&m, "a"), 2);
    assert!(matches!(m.redefine("a".to_string(), import("x.y")), Some(Symbol::Variable(_))));
    assert_eq!(kind_of(&m, "a"), "import");
}

#[test]
fn import_is_keyed_by_alias() {
    let mut m = Module::new("m".to_string());
    assert!(m.import(Import::new("a.b.c".to_string(), "d".to_string(), token("a"))).is_ok());
    assert_eq!(kind_of(&m, "d"), "import");
    assert_eq!(kind_of(&m, "c"), "none");
    assert!(m.define("v".to_string(), variable(1)).is_ok());
    assert_eq!(m.import(Import::new("x.y".to_string(), "v".to_string(), token("x"))), Err(()));
    assert_eq!(kind_of(&m, "v"), "variable");
    assert_eq!(m.import(Import::new("x.y".to_string(), "d".to_string(), token("x"))), Err(()));
    match m.lookup("d") {
        Some(SymbolRef::Import(i)) => assert_eq!(i.path, "a.b.c"),
        other => panic!("unexpected: {:?}", other),
    }
}

#[test]
fn new_import_alias_is_last_segment() {
    match Symbol::new_import("a.b.c".to_string(), token("a")) {
        Symbol::Import(i) => {
            assert_eq!(i.alias, "c");
            assert_eq!(i.path, "a.b.c");
            assert!(i.signature.is_none());
        }
        other => panic!("unexpected: {:?}", other),
    }
    match Symbol::new_import("plain".to_string(), token("a")) {
        Symbol::Import(i) => assert_eq!(i.alias, "plain"),
        other => panic!("unexpected: {:?}", other),
    }
    match Symbol::new_import("a.".to_string(), token("a")) {
        Symbol::Import(i) => assert_eq!(i.alias, ""),
        other => panic!("unexpected: {:?}", other),
    }
}

#[test]
fn type_names() {
    let names = [
        ("text", Type::Text),
        ("char", Type::Character),
        ("bool", Type::Bool),
        ("int", Type::Int),
        ("int8", Type::Int8),
        ("int16", Type::Int16),
        ("int32", Type::Int32),
        ("int64", Type::Int64),
        ("uint", Type::UInt),
        ("uint8", Type::UInt8),
        ("uint16", Type::UInt16),
        ("uint32", Type::UInt32),
        ("uint64", Type::UInt64),
        ("float", Type::Float),
        ("float32", Type::Float32),
        ("float64", Type::Float64),
    ];
    for (name, expected) in names {
        assert_eq!(Type::from_name(name), expected);
    }
    assert_eq!(Type::from_name("point"), Type::Struct("point".to_string()));
    assert_eq!(Type::from_name("Int"), Type::Struct("Int".to_string()));
    assert_eq!(Type::from_name(""), Type::Struct("".to_string()));
    assert_eq!(Type::from_name("int128"), Type::Struct("int128".to_string()));
}

#[test]
fn expression_constructors() {
    let e = Expression::identifier(vec!["a".to_string(), "b".to_string(), "c".to_string()], token("a"));
    match &e.value {
        ExpressionValue::Identifier(id) => {
            assert_eq!(id.namespace, vec!["a".to_string(), "b".to_string()]);
            assert_eq!(id.name, "c");
        }
        other => panic!("unexpected: {:?}", other),
    }
    let e = Expression::identifier(vec![], token("a"));
    match &e.value {
        ExpressionValue::Identifier(id) => {
            assert!(id.namespace.is_empty());
            assert_eq!(id.name, "");
        }
        other => panic!("unexpected: {:?}", other),
    }
    assert!(matches!(
        Expression::literal_string("s".to_string(), token("a")).value,
        ExpressionValue::Literal(Literal::String(s)) if s == "s"
    ));
    assert!(matches!(
        Expression::literal_char('c', token("a")).value,
        ExpressionValue::Literal(Literal::Char('c'))
    ));
    assert!(matches!(
        Expression::literal_float("1.5".to_string(), token("a")).value,
        ExpressionValue::Literal(Literal::Float(s)) if s == "1.5"
    ));
    assert!(matches!(
        Expression::literal_bool(false, token("a")).value,
        ExpressionValue::Literal(Literal::Bool(false))
    ));
    for (e, op) in [
        (Expression::unary_plus(literal(1), token("+")), UnaryOperator::Plus),
        (Expression::unary_minus(literal(1), token("-")), UnaryOperator::Minus),
        (Expression::unary_not(literal(1), token("!")), UnaryOperator::Not),
    ] {
        match e.value {
            ExpressionValue::UnaryOperation(u) => assert_eq!(u.operator, op),
            other => panic!("unexpected: {:?}", other),
        }
    }
    let call = Expression::function_call(
        Expression::identifier(vec!["f".to_string()], token("f")),
        vec![literal(1), literal(2)],
    );
    assert_eq!(call.first_token.text, "f");
    match call.value {
        ExpressionValue::FunctionCall(c) => assert_eq!(c.args.len(), 2),
        other => panic!("unexpected: {:?}", other),
    }
}
