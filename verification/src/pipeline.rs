//! The per-request processing a worker runs: prompt resolution, the
//! character ceiling with optional truncation, the tokenizer calls, and the
//! token ceiling with position-id assignment.

use vstd::prelude::*;
use crate::backend::{tok_apply_truncation, tok_clear_truncation, tok_decode, tok_encode_pair, tok_encode_str};
use crate::encoding::{RawEncoding, ValidEncoding, finalize_encoding};
use crate::error::TokenizationError;
use crate::input::{EncodingInput, saturate_usize, spec_truncate_chars};
use crate::prompt::{PromptTable, prepare_pre_prompt};

verus! {

/// A cheap pre-tokenization gate: no input may hold more than this many
/// characters for each token the model accepts.
pub const MAX_CHAR_MULTIPLIER: usize = 250;

/// Whether excess tokens are dropped from the start or the end of a sequence.
#[derive(Debug, Clone, Copy, PartialEq, Eq)]
pub enum TruncationDirection {
    Left,
    Right,
}

/// Which sequence of a pair gives up tokens first.
#[derive(Debug, Clone, Copy, PartialEq, Eq)]
pub enum TruncationStrategy {
    LongestFirst,
    OnlyFirst,
    OnlySecond,
}

/// The truncation policy handed to the tokenizer.
#[derive(Debug, Clone, Copy, PartialEq, Eq)]
pub struct TruncationParams {
    pub direction: TruncationDirection,
    pub max_length: usize,
    pub strategy: TruncationStrategy,
    pub stride: usize,
}

/// The encode path's truncation policy: the requested direction, the token
/// ceiling as the length, excess dropped from the longest sequence first,
/// no stride.
pub fn default_truncation_params(
    truncate: bool,
    direction: TruncationDirection,
    max_input_length: usize,
) -> (r: Option<TruncationParams>)
    ensures
        !truncate ==> r is None,
        truncate ==> (r matches Some(p) && p.direction == direction && p.max_length
            == max_input_length && p.strategy == TruncationStrategy::LongestFirst && p.stride
            == 0),
{
    if truncate {
        Some(
            TruncationParams {
                direction,
                max_length: max_input_length,
                strategy: TruncationStrategy::LongestFirst,
                stride: 0,
            },
        )
    } else {
        None
    }
}

/// The worker pool's request queue holds four buffered requests for each
/// worker; a full queue suspends submitters and is the sole backpressure
/// point.
pub fn queue_capacity(workers: usize) -> (r: usize)
    requires
        workers * 4 <= usize::MAX,
    ensures
        r == workers * 4,
{
    workers * 4
}

/// The character ceiling for a given token ceiling.
pub open spec fn spec_char_limit(max_input_length: int) -> int {
    max_input_length * 250
}

/// The character count as the length guard reports it.
pub open spec fn spec_gate_count(inputs: EncodingInput) -> int {
    saturate_usize(inputs.spec_count_chars())
}

/// Whether the request trips the character gate.
pub open spec fn spec_over_char_limit(inputs: EncodingInput, max_input_length: int) -> bool {
    spec_gate_count(inputs) > spec_char_limit(max_input_length)
}

/// Whether prompt resolution goes through (no requested name always does).
pub open spec fn prompt_resolves(
    prompt_name: Option<String>,
    prompts: Option<&PromptTable>,
) -> bool {
    match prompt_name {
        None => true,
        Some(n) => match prompts {
            None => false,
            Some(t) => t.spec_contains(n@),
        },
    }
}

/// The resolved prefix: the named prompt's entry, or the default prompt.
pub open spec fn spec_resolved_prompt(
    default_prompt: Option<String>,
    prompt_name: Option<String>,
    prompts: Option<&PromptTable>,
) -> Option<Seq<char>>
    recommends
        prompt_resolves(prompt_name, prompts),
{
    match prompt_name {
        None => match default_prompt {
            None => None,
            Some(d) => Some(d@),
        },
        Some(n) => match prompts {
            None => None,
            Some(t) => Some(t.spec_get(n@)),
        },
    }
}

/// The prefix actually prepended: the resolved prompt, or nothing.
pub open spec fn spec_prefix(
    default_prompt: Option<String>,
    prompt_name: Option<String>,
    prompts: Option<&PromptTable>,
) -> Seq<char> {
    match spec_resolved_prompt(default_prompt, prompt_name, prompts) {
        Some(p) => p,
        None => Seq::empty(),
    }
}

/// `s` truncated to `limit` characters when truncation was applied, `s`
/// itself otherwise.
pub open spec fn spec_limited(s: Seq<char>, limit: int, applied: bool) -> Seq<char> {
    if applied {
        spec_truncate_chars(s, limit)
    } else {
        s
    }
}

/// Hand the truncation policy to the tokenizer: clear it when there is
/// none, store it otherwise. A refused policy comes back as a tokenizer
/// failure.
fn set_truncation(
    tokenizer: &mut tokenizers::Tokenizer,
    params: Option<&TruncationParams>,
) -> (r: Result<(), TokenizationError>)
    requires
        params matches Some(p) ==> p.stride == 0,
    ensures
        params is None ==> r is Ok,
        r matches Err(e) ==> e matches TokenizationError::TokenizerFailure(_),
{
    let outcome = match params {
        None => tok_clear_truncation(tokenizer),
        Some(p) => tok_apply_truncation(tokenizer, p),
    };
    match outcome {
        Ok(_) => Ok(()),
        Err(e) => Err(TokenizationError::TokenizerFailure(e)),
    }
}

/// Resolve the prompt, enforce the character ceiling (truncating instead
/// when a truncation policy is given), prepend the prefix, and run the
/// tokenizer. Returns the text that was tokenized (for text-producing
/// paths) beside the raw encoding.
pub fn tokenize_input(
    inputs: EncodingInput,
    add_special_tokens: bool,
    max_input_length: usize,
    truncate_params: Option<TruncationParams>,
    default_prompt: Option<String>,
    prompt_name: Option<String>,
    prompts: Option<&PromptTable>,
    tokenizer: &mut tokenizers::Tokenizer,
) -> (r: Result<(Option<String>, RawEncoding), TokenizationError>)
    requires
        max_input_length * 250 <= usize::MAX,
        prompts matches Some(t) ==> t.wf(),
        truncate_params matches Some(p) ==> p.stride == 0,
    ensures
        prompt_name matches Some(n) ==> prompts is None ==> (r matches Err(
            TokenizationError::UnknownPrompt { name, available },
        ) && name@ == n@ && available is None),
        prompt_name matches Some(n) ==> prompts matches Some(t) ==> !t.spec_contains(n@) ==> (r
            matches Err(TokenizationError::UnknownPrompt { name, available }) && name@ == n@
            && (available matches Some(av) && av@.len() == t.entries@.len() && (forall|i: int|
            0 <= i < av@.len() ==> av@[i]@ == t.entries@[i].0@))),
        prompt_resolves(prompt_name, prompts) && spec_over_char_limit(
            inputs,
            max_input_length as int,
        ) && truncate_params is None ==> r == Err::<(Option<String>, RawEncoding), _>(
            (TokenizationError::CharacterLimitExceeded {
                limit: (max_input_length * 250) as usize,
                count: spec_gate_count(inputs) as usize,
            }),
        ),
        prompt_resolves(prompt_name, prompts) && !(spec_over_char_limit(
            inputs,
            max_input_length as int,
        ) && truncate_params is None) && (inputs matches EncodingInput::Dual(_, _))
            && spec_prefix(default_prompt, prompt_name, prompts).len() > 0 ==> r
            == Err::<(Option<String>, RawEncoding), _>(TokenizationError::PromptWithDualInput),
        r matches Err(e) ==> e.is_validation() ==> (!prompt_resolves(prompt_name, prompts) || (
        spec_over_char_limit(inputs, max_input_length as int) && truncate_params is None) || (
        inputs matches EncodingInput::Dual(_, _) && spec_prefix(
            default_prompt,
            prompt_name,
            prompts,
        ).len() > 0)),
        r matches Err(e) ==> !(e matches TokenizationError::TokenLimitExceeded { .. }) && !(e
            matches TokenizationError::EmptyInput),
        r matches Ok(p) ==> p.1.wf(),
        inputs matches EncodingInput::Single(s) ==> r matches Ok(p) ==> (p.0 matches Some(t)
            && t@ == spec_prefix(default_prompt, prompt_name, prompts) + spec_limited(
            s@,
            spec_char_limit(max_input_length as int),
            spec_over_char_limit(inputs, max_input_length as int) && truncate_params is Some,
        )),
        inputs matches EncodingInput::Dual(_, _) ==> r matches Ok(p) ==> p.0 is None,
        inputs matches EncodingInput::Ids(_) ==> r matches Ok(p) ==> (p.0 matches Some(t)
            && spec_prefix(default_prompt, prompt_name, prompts).is_prefix_of(t@)),
{
    let mut inputs = inputs;
    let pre_prompt = match prepare_pre_prompt(default_prompt, prompt_name, prompts) {
        Ok(p) => p,
        Err(e) => {
            return Err(e);
        },
    };
    let input_chars = inputs.count_chars();
    let limit = max_input_length * MAX_CHAR_MULTIPLIER;
    if input_chars > limit {
        if truncate_params.is_none() {
            return Err(TokenizationError::CharacterLimitExceeded { limit, count: input_chars });
        }
        inputs.apply_limit(limit);
    }
    match inputs {
        EncodingInput::Single(s) => {
            let text: String = match pre_prompt {
                Some(pre) => {
                    let mut t = pre;
                    t.append(s.as_str());
                    t
                },
                None => s,
            };
            match set_truncation(tokenizer, truncate_params.as_ref()) {
                Ok(_) => {},
                Err(e) => {
                    return Err(e);
                },
            }
            match tok_encode_str(tokenizer, text.as_str(), add_special_tokens) {
                Ok(enc) => {
                    proof {
                        assert(Seq::<char>::empty() + text@ =~= text@);
                    }
                    Ok((Some(text), enc))
                },
                Err(e) => Err(TokenizationError::TokenizerFailure(e)),
            }
        },
        EncodingInput::Dual(s1, s2) => {
            let prompt_nonempty = match &pre_prompt {
                Some(p) => !p.as_str().is_empty(),
                None => false,
            };
            if prompt_nonempty {
                return Err(TokenizationError::PromptWithDualInput);
            }
            match set_truncation(tokenizer, truncate_params.as_ref()) {
                Ok(_) => {},
                Err(e) => {
                    return Err(e);
                },
            }
            match tok_encode_pair(tokenizer, s1, s2, add_special_tokens) {
                Ok(enc) => Ok((None, enc)),
                Err(e) => Err(TokenizationError::TokenizerFailure(e)),
            }
        },
        EncodingInput::Ids(ids) => {
            match pre_prompt {
                Some(pre) => {
                    let decoded = match tok_decode(tokenizer, &ids, true) {
                        Ok(t) => t,
                        Err(e) => {
                            return Err(TokenizationError::TokenizerFailure(e));
                        },
                    };
                    let mut text = pre;
                    text.append(decoded.as_str());
                    match set_truncation(tokenizer, truncate_params.as_ref()) {
                        Ok(_) => {},
                        Err(e) => {
                            return Err(e);
                        },
                    }
                    match tok_encode_str(tokenizer, text.as_str(), true) {
                        Ok(enc) => {
                            proof {
                                assert(text@.subrange(
                                    0,
                                    spec_prefix(default_prompt, prompt_name, prompts).len() as int,
                                ) =~= spec_prefix(default_prompt, prompt_name, prompts));
                            }
                            Ok((Some(text), enc))
                        },
                        Err(e) => Err(TokenizationError::TokenizerFailure(e)),
                    }
                },
                None => {
                    let decoded = match tok_decode(tokenizer, &ids, false) {
                        Ok(t) => t,
                        Err(e) => {
                            return Err(TokenizationError::TokenizerFailure(e));
                        },
                    };
                    match set_truncation(tokenizer, truncate_params.as_ref()) {
                        Ok(_) => {},
                        Err(e) => {
                            return Err(e);
                        },
                    }
                    match tok_encode_str(tokenizer, decoded.as_str(), false) {
                        Ok(enc) => {
                            proof {
                                assert(Seq::<char>::empty().is_prefix_of(decoded@));
                            }
                            Ok((Some(decoded), enc))
                        },
                        Err(e) => Err(TokenizationError::TokenizerFailure(e)),
                    }
                },
            }
        },
    }
}

/// The full encode path: tokenize with the default truncation policy, then
/// enforce the token ceiling and assign position ids.
pub fn encode_input(
    inputs: EncodingInput,
    truncate: bool,
    truncation_direction: TruncationDirection,
    max_input_length: usize,
    position_offset: usize,
    default_prompt: Option<String>,
    prompt_name: Option<String>,
    prompts: Option<&PromptTable>,
    tokenizer: &mut tokenizers::Tokenizer,
) -> (r: Result<ValidEncoding, TokenizationError>)
    requires
        max_input_length * 250 <= usize::MAX,
        position_offset + max_input_length <= u32::MAX,
        prompts matches Some(t) ==> t.wf(),
    ensures
        prompt_name matches Some(n) ==> prompts is None ==> (r matches Err(
            TokenizationError::UnknownPrompt { name, available },
        ) && name@ == n@ && available is None),
        prompt_name matches Some(n) ==> prompts matches Some(t) ==> !t.spec_contains(n@) ==> (r
            matches Err(TokenizationError::UnknownPrompt { name, available }) && name@ == n@
            && (available matches Some(av) && av@.len() == t.entries@.len() && (forall|i: int|
            0 <= i < av@.len() ==> av@[i]@ == t.entries@[i].0@))),
        prompt_resolves(prompt_name, prompts) && spec_over_char_limit(
            inputs,
            max_input_length as int,
        ) && !truncate ==> r == Err::<ValidEncoding, _>(
            (TokenizationError::CharacterLimitExceeded {
                limit: (max_input_length * 250) as usize,
                count: spec_gate_count(inputs) as usize,
            }),
        ),
        prompt_resolves(prompt_name, prompts) && !(spec_over_char_limit(
            inputs,
            max_input_length as int,
        ) && !truncate) && (inputs matches EncodingInput::Dual(_, _)) && spec_prefix(
            default_prompt,
            prompt_name,
            prompts,
        ).len() > 0 ==> r == Err::<ValidEncoding, _>(TokenizationError::PromptWithDualInput),
        r matches Ok(v) ==> v.wf(max_input_length as int, position_offset as int),
        r matches Err(e) ==> e matches TokenizationError::TokenLimitExceeded {
            limit,
            count,
        } ==> (limit == max_input_length && count > max_input_length),
        r matches Err(e) ==> !(e matches TokenizationError::EmptyInput),
{
    let truncate_params = default_truncation_params(
        truncate,
        truncation_direction,
        max_input_length,
    );
    let encoding = match tokenize_input(
        inputs,
        true,
        max_input_length,
        truncate_params,
        default_prompt,
        prompt_name,
        prompts,
        tokenizer,
    ) {
        Ok(p) => p.1,
        Err(e) => {
            return Err(e);
        },
    };
    finalize_encoding(&encoding, max_input_length, position_offset)
}

/// The decode path: clear any truncation configuration, then delegate to the
/// tokenizer. Only a tokenizer failure can come back.
pub fn decode_ids(
    ids: Vec<u32>,
    skip_special_tokens: bool,
    tokenizer: &mut tokenizers::Tokenizer,
) -> (r: Result<String, TokenizationError>)
    ensures
        r matches Err(e) ==> e matches TokenizationError::TokenizerFailure(_),
{
    match set_truncation(tokenizer, None) {
        Ok(_) => {},
        Err(e) => {
            return Err(e);
        },
    }
    match tok_decode(tokenizer, &ids, skip_special_tokens) {
        Ok(t) => Ok(t),
        Err(e) => Err(TokenizationError::TokenizerFailure(e)),
    }
}

} // verus!
