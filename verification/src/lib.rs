//! Front end of the Tiger compiler: a hand-written tokenizer, a recursive
//! descent parser for module-level declarations and expressions, and the
//! symbol table they fill.
pub mod cmd;
pub mod lang;
pub mod parser;
pub mod text;
pub mod tokenizer;
