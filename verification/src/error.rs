//! The errors a request can come back with.

use vstd::prelude::*;

verus! {

/// Everything that can go wrong while validating or tokenizing a request.
///
/// All variants are caller-recoverable; none is retried internally. A failure
/// surfaced by the outside tokenizer is carried through unchanged as the text
/// of `TokenizerFailure`.
#[derive(Debug, PartialEq)]
pub enum TokenizationError {
    /// The input text or id sequence was empty.
    EmptyInput,
    /// A prompt was requested by name but no table exists, or the name is
    /// absent from it; `available` lists the valid names when a table exists.
    UnknownPrompt { name: String, available: Option<Vec<String>> },
    /// A prompt was resolved for a dual (pair) input, which cannot be prefixed.
    PromptWithDualInput,
    /// The raw character count exceeded the ceiling and truncation was off.
    CharacterLimitExceeded { limit: usize, count: usize },
    /// The token count after tokenization exceeded the configured maximum.
    TokenLimitExceeded { limit: usize, count: usize },
    /// The outside tokenization capability reported a failure.
    TokenizerFailure(String),
}

impl TokenizationError {
    /// True of the errors that the validation rules alone decide, before any
    /// tokenizer work.
    pub open spec fn is_validation(&self) -> bool {
        !(self matches TokenizationError::TokenizerFailure(_))
    }
}

} // verus!
