//! Tokens: the glued, symbol-carrying units that the parser reads.

pub mod convert;
pub mod stream;
pub mod symbols;
pub mod token;
pub mod token_kind;
pub mod token_literal;
pub mod token_literal_kind;

pub use convert::{convert, text_of_range};
pub use stream::{glue_tokens, token_iter, unglued_token_iter};
pub use symbols::Symbols;
pub use token::Token;
pub use token_kind::TokenKind;
pub use token_literal::TokenLiteral;
pub use token_literal_kind::TokenLiteralKind;
