//! Constructors of symbols.
use crate::lang::{
    Const, ConstModel, Expression, Import, ImportModel, Symbol, SymbolModel, Type, Variable,
    VariableModel,
};
use crate::text::{chars_of, collect_chars, last_segment, last_segment_of};
use crate::tokenizer::Token;
use vstd::prelude::*;
use vstd::string::*;

verus! {

impl Import {
    /// An import of `path` that is known locally as `alias`; its signature is
    /// filled in later.
    pub fn new(path: String, alias: String, first_token: Token) -> (r: Self)
        ensures
            r@ == (ImportModel {
                path: path@,
                alias: alias@,
                signature: None,
                first_token: first_token@,
            }),
    {
        Import { path, alias, signature: None, first_token }
    }
}

impl Symbol {
    /// An import of `import`, known locally by the last segment of that path.
    pub fn new_import(import: String, first_token: Token) -> (r: Self)
        ensures
            r@ == SymbolModel::Import(
                ImportModel {
                    path: import@,
                    alias: last_segment(import@),
                    signature: None,
                    first_token: first_token@,
                },
            ),
    {
        let path = chars_of(import.as_str());
        let alias = collect_chars(&last_segment_of(&path));
        Symbol::Import(Import::new(import, alias, first_token))
    }

    pub fn new_const(ttype: Type, value: Expression, first_token: Token) -> (r: Self)
        ensures
            r@ == SymbolModel::Constant(
                ConstModel { ttype: ttype@, value: value@, first_token: first_token@ },
            ),
    {
        Symbol::Constant(Const { ttype, value, first_token })
    }

    pub fn new_var(ttype: Type, value: Expression, first_token: Token) -> (r: Self)
        ensures
            r@ == SymbolModel::Variable(
                VariableModel { ttype: ttype@, initial_value: value@, first_token: first_token@ },
            ),
    {
        Symbol::Variable(Variable { ttype, initial_value: value, first_token })
    }
}

} // verus!
