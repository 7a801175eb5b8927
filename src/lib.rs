//! Canonical, comparison-friendly normalization of free-form Unicode text.
//!
//! The text is scanned once, left to right: allow-listed characters pass
//! untouched, whitespace becomes (possibly collapsed) ASCII spaces, emoji may
//! be dropped, and every other character is replaced by its compatibility
//! decomposition with control and non-BMP codepoints filtered out. The buffer
//! is then canonically composed and trimmed.
pub mod classify;
pub mod emoji;
pub mod lemmas;
pub mod pipeline;

pub use classify::{is_char_to_avoid, is_whitespace_char};
pub use emoji::is_emoji;
pub use pipeline::{
    basic_string_clean, custom_character_normalization, custom_normalization, push_decomposed,
    remove_emojis, trim_whitespace,
};

