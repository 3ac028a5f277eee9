//! The in-memory model of a compilation unit: types, symbols, expressions
//! and the module that owns them.
pub mod expression;
pub mod module;
pub mod symbol;
pub mod ttype;

pub use expression::{
    BinOp, Expression, ExpressionModel, ExpressionValue, ExpressionValueModel, FunctionCall,
    Identifier, Literal, LiteralModel, UnOp,
};
pub use module::Module;

use crate::tokenizer::{Token, TokenModel};
use std::collections::HashMap;
use vstd::prelude::*;

verus! {

/// A top-level named entity.
#[derive(Debug)]
pub enum Symbol {
    Function(Func),
    Variable(Variable),
    Constant(Const),
    Type(StructType),
    Import(Import),
}

/// A borrowed view of a symbol that a module owns.
#[derive(Debug)]
pub enum SymbolRef<'a> {
    Function(&'a Func),
    Variable(&'a Variable),
    Constant(&'a Const),
    Import(&'a Import),
    Type(&'a StructType),
}

/// A binding of an outside path to a local name.
#[derive(Debug)]
pub struct Import {
    /// The dotted path of what is imported.
    pub path: String,
    /// The name under which the module knows it.
    pub alias: String,
    /// The signature of what is imported, once a later phase has resolved it.
    pub signature: Option<FuncSignature>,
    pub first_token: Token,
}

#[derive(Debug, PartialEq, Eq)]
pub enum Type {
    Text,
    Character,
    Bool,
    Int,
    Int8,
    Int16,
    Int32,
    Int64,
    UInt,
    UInt8,
    UInt16,
    UInt32,
    UInt64,
    Float,
    Float32,
    Float64,
    /// A struct type that is not resolved yet, by name.
    Struct(String),
}

#[derive(Debug)]
pub struct StructType {
    ident: String,
    first_token: Token,
    fields: Vec<(String, Type)>,
}

#[derive(Debug)]
pub struct Func {
    signature: FuncSignature,
    constants: HashMap<String, Const>,
    variables: HashMap<String, Type>,
    statements: Vec<Statement>,
    first_token: Token,
}

#[derive(Debug)]
pub struct FuncSignature {
    args: Vec<Type>,
    return_value: Type,
    first_token: Token,
}

#[derive(Debug)]
pub struct Statement {
    value: StatementValue,
    first_token: Token,
}

/// What a statement does. Statements have no grammar yet: the empty
/// statement is the only one.
#[derive(Debug)]
pub enum StatementValue {
    Empty,
}

#[derive(Debug)]
pub struct Const {
    pub ttype: Type,
    pub value: Expression,
    pub first_token: Token,
}

#[derive(Debug)]
pub struct Variable {
    pub ttype: Type,
    pub initial_value: Expression,
    pub first_token: Token,
}

/// Mathematical value of a [`Type`].
pub ghost enum TypeModel {
    Text,
    Character,
    Bool,
    Int,
    Int8,
    Int16,
    Int32,
    Int64,
    UInt,
    UInt8,
    UInt16,
    UInt32,
    UInt64,
    Float,
    Float32,
    Float64,
    Struct(Seq<char>),
}

impl View for Type {
    type V = TypeModel;

    open spec fn view(&self) -> TypeModel {
        match self {
            Type::Text => TypeModel::Text,
            Type::Character => TypeModel::Character,
            Type::Bool => TypeModel::Bool,
            Type::Int => TypeModel::Int,
            Type::Int8 => TypeModel::Int8,
            Type::Int16 => TypeModel::Int16,
            Type::Int32 => TypeModel::Int32,
            Type::Int64 => TypeModel::Int64,
            Type::UInt => TypeModel::UInt,
            Type::UInt8 => TypeModel::UInt8,
            Type::UInt16 => TypeModel::UInt16,
            Type::UInt32 => TypeModel::UInt32,
            Type::UInt64 => TypeModel::UInt64,
            Type::Float => TypeModel::Float,
            Type::Float32 => TypeModel::Float32,
            Type::Float64 => TypeModel::Float64,
            Type::Struct(name) => TypeModel::Struct(name@),
        }
    }
}

/// Mathematical value of a [`Const`].
pub ghost struct ConstModel {
    pub ttype: TypeModel,
    pub value: ExpressionModel,
    pub first_token: TokenModel,
}

/// Mathematical value of a [`Variable`].
pub ghost struct VariableModel {
    pub ttype: TypeModel,
    pub initial_value: ExpressionModel,
    pub first_token: TokenModel,
}

/// Mathematical value of an [`Import`].
pub ghost struct ImportModel {
    pub path: Seq<char>,
    pub alias: Seq<char>,
    pub signature: Option<FuncSignature>,
    pub first_token: TokenModel,
}

/// Mathematical value of a [`Symbol`]. Functions and struct types, which no
/// grammar produces yet, stand for themselves.
pub ghost enum SymbolModel {
    Function(Func),
    Variable(VariableModel),
    Constant(ConstModel),
    Type(StructType),
    Import(ImportModel),
}

impl View for Const {
    type V = ConstModel;

    open spec fn view(&self) -> ConstModel {
        ConstModel { ttype: self.ttype@, value: self.value@, first_token: self.first_token@ }
    }
}

impl View for Variable {
    type V = VariableModel;

    open spec fn view(&self) -> VariableModel {
        VariableModel {
            ttype: self.ttype@,
            initial_value: self.initial_value@,
            first_token: self.first_token@,
        }
    }
}

impl View for Import {
    type V = ImportModel;

    open spec fn view(&self) -> ImportModel {
        ImportModel {
            path: self.path@,
            alias: self.alias@,
            signature: self.signature,
            first_token: self.first_token@,
        }
    }
}

impl View for Symbol {
    type V = SymbolModel;

    open spec fn view(&self) -> SymbolModel {
        match self {
            Symbol::Function(f) => SymbolModel::Function(*f),
            Symbol::Variable(v) => SymbolModel::Variable(v@),
            Symbol::Constant(c) => SymbolModel::Constant(c@),
            Symbol::Type(t) => SymbolModel::Type(*t),
            Symbol::Import(i) => SymbolModel::Import(i@),
        }
    }
}

impl<'a> View for SymbolRef<'a> {
    type V = SymbolModel;

    open spec fn view(&self) -> SymbolModel {
        match self {
            SymbolRef::Function(f) => SymbolModel::Function(**f),
            SymbolRef::Variable(v) => SymbolModel::Variable(v@),
            SymbolRef::Constant(c) => SymbolModel::Constant(c@),
            SymbolRef::Type(t) => SymbolModel::Type(**t),
            SymbolRef::Import(i) => SymbolModel::Import(i@),
        }
    }
}

} // verus!
