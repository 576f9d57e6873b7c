//! The outside tokenizer capability, reached through trusted wrappers.
//!
//! Everything in this module is believed, not proved: each item's doc comment
//! names the outside function it relies on. The rest of the crate is verified
//! against these contracts.

use vstd::prelude::*;
use vstd::utf8::{decode_utf8, valid_utf8};
use tokenizers::PostProcessor;
use crate::encoding::RawEncoding;
use crate::pipeline::{TruncationDirection, TruncationParams, TruncationStrategy};

verus! {

/// Declares `tokenizers::Tokenizer` so that a value of it can flow through
/// verified signatures. Verus sees nothing inside such a value.
#[verifier::external_type_specification]
#[verifier::external_body]
pub struct ExTokenizer(tokenizers::Tokenizer);

/// Declares the tokenizers crate's encoding, so that the converter below can
/// name it.
#[verifier::external_type_specification]
#[verifier::external_body]
pub struct ExEncoding(tokenizers::Encoding);

/// The character sequence that lenient UTF-8 decoding gives for a byte
/// sequence. A function of the bytes alone; stated only through the wrapper
/// below.
pub uninterp spec fn lossy_decode_of(bytes: Seq<u8>) -> Seq<char>;

/// Relies on `String::from_utf8_lossy` of std: the result depends on the
/// bytes alone, and bytes that already are valid UTF-8 come back decoded
/// unchanged.
#[verifier::external_body]
pub(crate) fn decode_lossy(bytes: &[u8]) -> (r: String)
    ensures
        r@ == lossy_decode_of(bytes@),
        valid_utf8(bytes@) ==> r@ == decode_utf8(bytes@),
        bytes@.len() == 0 ==> r@.len() == 0,
{
    String::from_utf8_lossy(bytes).into_owned()
}

/// Converts the tokenizers crate's encoding into the library's model of it,
/// sequence for sequence. No outside function runs here beyond the accessors.
#[verifier::external_body]
fn to_raw_encoding(e: tokenizers::Encoding) -> RawEncoding {
    RawEncoding {
        ids: e.get_ids().to_vec(),
        type_ids: e.get_type_ids().to_vec(),
        tokens: e.get_tokens().to_vec(),
        offsets: e.get_offsets().to_vec(),
        special_tokens_mask: e.get_special_tokens_mask().to_vec(),
    }
}

/// Relies on tokenizers' `TokenizerImpl::with_truncation` with `None`:
/// clearing the stored truncation never fails and subtracts nothing.
#[verifier::external_body]
pub(crate) fn tok_clear_truncation(tokenizer: &mut tokenizers::Tokenizer) -> (r: Result<
    (),
    String,
>)
    ensures
        r is Ok,
{
    tokenizer.with_truncation(None).map(|_| ()).map_err(|e| e.to_string())
}

/// Relies on tokenizers' `TokenizerImpl::with_truncation` with parameters:
/// it stores them on the tokenizer for later encode calls. Its body
/// subtracts the post-processor's added-token count from `max_length` in
/// `usize`, which underflows below that count; such a ceiling is surfaced as
/// an error here first, read through `get_post_processor` and
/// `PostProcessor::added_tokens`, so the call never reaches the subtraction.
/// A stride is only ever handed down as zero, which `Encoding::truncate`
/// accepts for every cut length.
#[verifier::external_body]
pub(crate) fn tok_apply_truncation(
    tokenizer: &mut tokenizers::Tokenizer,
    p: &TruncationParams,
) -> (r: Result<(), String>)
    requires
        p.stride == 0,
{
    let added = tokenizer.get_post_processor().map_or(0, |pp| pp.added_tokens(false));
    if p.max_length < added {
        return Err(format!("truncation max_length {} is below the {added} added tokens", p.max_length));
    }
    let direction = match p.direction {
        TruncationDirection::Left => tokenizers::TruncationDirection::Left,
        TruncationDirection::Right => tokenizers::TruncationDirection::Right,
    };
    let strategy = match p.strategy {
        TruncationStrategy::LongestFirst => tokenizers::TruncationStrategy::LongestFirst,
        TruncationStrategy::OnlyFirst => tokenizers::TruncationStrategy::OnlyFirst,
        TruncationStrategy::OnlySecond => tokenizers::TruncationStrategy::OnlySecond,
    };
    let conv = tokenizers::TruncationParams { direction, strategy, stride: p.stride, max_length: p.max_length };
    tokenizer.with_truncation(Some(conv)).map(|_| ()).map_err(|e| e.to_string())
}

/// Relies on tokenizers' `TokenizerImpl::encode` on a single text: a
/// successful encoding carries parallel per-token sequences of one common
/// length. When special tokens are added, post-processing subtracts the
/// post-processor's added-token count from the stored truncation ceiling in
/// `usize`, which underflows below that count; such a ceiling is surfaced as
/// an error here first, read through `get_truncation`, `get_post_processor`
/// and `PostProcessor::added_tokens`.
#[verifier::external_body]
pub(crate) fn tok_encode_str(
    tokenizer: &tokenizers::Tokenizer,
    text: &str,
    add_special_tokens: bool,
) -> (r: Result<RawEncoding, String>)
    ensures
        r matches Ok(enc) ==> enc.wf(),
{
    let added = tokenizer.get_post_processor().map_or(0, |pp| pp.added_tokens(false));
    if add_special_tokens && tokenizer.get_truncation().is_some_and(|t| t.max_length < added) {
        return Err(format!(
            "truncation max_length is below the {added} tokens the post-processor adds"
        ));
    }
    match tokenizer.encode::<&str>(text, add_special_tokens) {
        Ok(e) => Ok(to_raw_encoding(e)),
        Err(e) => Err(e.to_string()),
    }
}

/// Relies on tokenizers' `TokenizerImpl::encode` on a pair of texts, as
/// `tok_encode_str` does, with the post-processor's added-token count for a
/// pair.
#[verifier::external_body]
pub(crate) fn tok_encode_pair(
    tokenizer: &tokenizers::Tokenizer,
    first: String,
    second: String,
    add_special_tokens: bool,
) -> (r: Result<RawEncoding, String>)
    ensures
        r matches Ok(enc) ==> enc.wf(),
{
    let added = tokenizer.get_post_processor().map_or(0, |pp| pp.added_tokens(true));
    if add_special_tokens && tokenizer.get_truncation().is_some_and(|t| t.max_length < added) {
        return Err(format!(
            "truncation max_length is below the {added} tokens the post-processor adds"
        ));
    }
    match tokenizer.encode::<(String, String)>((first, second), add_special_tokens) {
        Ok(e) => Ok(to_raw_encoding(e)),
        Err(e) => Err(e.to_string()),
    }
}

/// Relies on tokenizers' `TokenizerImpl::decode`: ids back to text, with
/// special tokens kept or skipped. Nothing is promised of the text; what the
/// callers state holds whatever comes back.
#[verifier::external_body]
pub(crate) fn tok_decode(
    tokenizer: &tokenizers::Tokenizer,
    ids: &Vec<u32>,
    skip_special_tokens: bool,
) -> (r: Result<String, String>)
{
    tokenizer.decode(ids, skip_special_tokens).map_err(|e| e.to_string())
}

} // verus!
