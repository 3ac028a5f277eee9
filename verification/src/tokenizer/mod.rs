//! Lexical analysis: bytes to positioned tokens.
pub mod all_utf8;
pub mod chars;
pub mod decoder;
pub mod error;
pub mod laws;
pub mod model;
pub mod stream;
pub mod token;

pub use all_utf8::AllUTF8CharReader;
pub use chars::{is_numeric, is_operator};
pub use decoder::{read_char, ByteReader};
pub use stream::TokenStream;
pub use error::{Error, ErrorKind, ErrorModel, ReadError};
pub use token::{
    AssignOperator, BinaryOperator, ComparisonOperator, Token, TokenModel, TokenValue,
    TokenValueModel, UnaryOperator,
};
