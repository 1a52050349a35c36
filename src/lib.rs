//! Hides text inside the invisible Unicode variation selectors that trail a
//! visible carrier symbol, and reads back attachment references and their
//! media kind.

pub mod chat;
pub mod dispatch;
pub mod emojis;
pub mod file_id;
pub mod inline;
pub mod plan;
pub mod reference;
pub mod state;
pub mod text;
pub mod variation;

pub use dispatch::{classify, reveal_hidden, Reveal};
pub use file_id::{decode_file_type, FileIdError, FileType};
pub use reference::{decode_with_file_check, encode_file_id};
pub use variation::{decode, encode, has_variation_selectors, EncoderError};
