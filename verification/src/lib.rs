//! Validation and dispatch-side tokenization logic for an embedding server.
//!
//! The library holds the rules a request must pass before and after it meets
//! the subword tokenizer: the empty-input check, prompt resolution, the
//! character-count ceiling with optional truncation, and the token-count
//! ceiling with position-id assignment. The tokenizer itself is an outside
//! capability, reached through a small set of trusted wrappers.

mod backend;
mod encoding;
mod error;
mod input;
mod laws;
mod pipeline;
mod prompt;

pub use encoding::{RawEncoding, SimpleToken, ValidEncoding, finalize_encoding, into_tokens};
pub use error::TokenizationError;
pub use input::{EncodingInput, validate_ids_not_empty};
pub use laws::{lemma_truncate_chars_prefix, lemma_truncation_within_limit};
pub use pipeline::{
    TruncationDirection, TruncationParams, TruncationStrategy, decode_ids,
    default_truncation_params, encode_input, queue_capacity, tokenize_input,
};
pub use prompt::{PromptTable, prepare_pre_prompt};
