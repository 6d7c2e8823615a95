//! The first pass over source text: tokens of one kind and a byte length,
//! without symbols or positions.

pub mod chars;
pub mod cursor;
pub mod low_token;
pub mod scan;

pub use chars::{chars_of, is_digit, is_id_continue, is_id_start, utf8_len};
pub use cursor::Cursor;
pub use low_token::{LowToken, LowTokenKind, LowTokenLiteralKind, LowTokenNumberLiteralKind};
pub use scan::{consume_while, low_token_iter, low_tokens, next, CharClass};
