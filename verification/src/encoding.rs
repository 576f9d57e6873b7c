//! The tokenizer's per-request output, the model-ready tensors made from it,
//! and the projection of an encoding back onto the input bytes.

use vstd::prelude::*;
use vstd::string::StringSliceAdditionalSpecFns;
use crate::backend::{decode_lossy, lossy_decode_of};
use crate::error::TokenizationError;

verus! {

/// What the tokenizer reports for one request: parallel per-token sequences
/// of ids, type ids, textual forms, byte offsets into the tokenized text,
/// and a 0/1 special-token mask.
#[derive(Debug, PartialEq)]
pub struct RawEncoding {
    pub ids: Vec<u32>,
    pub type_ids: Vec<u32>,
    pub tokens: Vec<String>,
    pub offsets: Vec<(usize, usize)>,
    pub special_tokens_mask: Vec<u32>,
}

impl RawEncoding {
    /// The five sequences describe the same tokens, one entry each.
    pub open spec fn wf(&self) -> bool {
        &&& self.type_ids@.len() == self.ids@.len()
        &&& self.tokens@.len() == self.ids@.len()
        &&& self.offsets@.len() == self.ids@.len()
        &&& self.special_tokens_mask@.len() == self.ids@.len()
    }

    pub open spec fn spec_len(&self) -> int {
        self.ids@.len() as int
    }

    /// Number of tokens in the encoding.
    pub fn len(&self) -> (r: usize)
        ensures
            r == self.spec_len(),
    {
        self.ids.len()
    }
}

/// The model-ready result of a full encode request: three equal-length
/// sequences, with `position_ids[i] = position_offset + i`.
#[derive(Debug, PartialEq)]
pub struct ValidEncoding {
    pub input_ids: Vec<u32>,
    pub token_type_ids: Vec<u32>,
    pub position_ids: Vec<u32>,
}

impl ValidEncoding {
    pub open spec fn wf(&self, max_input_length: int, position_offset: int) -> bool {
        &&& self.token_type_ids@.len() == self.input_ids@.len()
        &&& self.position_ids@.len() == self.input_ids@.len()
        &&& self.input_ids@.len() <= max_input_length
        &&& forall|i: int|
            0 <= i < self.position_ids@.len() ==> self.position_ids@[i] == position_offset + i
    }
}

/// Enforce the token-count ceiling on a finished encoding and assign the
/// position ids. This is the hard post-condition of the encode path: it
/// stands even when character-level truncation already ran.
pub fn finalize_encoding(
    encoding: &RawEncoding,
    max_input_length: usize,
    position_offset: usize,
) -> (r: Result<ValidEncoding, TokenizationError>)
    requires
        encoding.wf(),
        position_offset + max_input_length <= u32::MAX,
    ensures
        encoding.spec_len() <= usize::MAX,
        encoding.spec_len() > max_input_length ==> r == Err::<ValidEncoding, _>(
            TokenizationError::TokenLimitExceeded {
                limit: max_input_length,
                count: encoding.ids@.len() as usize,
            },
        ),
        encoding.spec_len() <= max_input_length ==> (r matches Ok(v) && v.input_ids@
            == encoding.ids@ && v.token_type_ids@ == encoding.type_ids@ && v.wf(
            max_input_length as int,
            position_offset as int,
        )),
{
    let seq_len = encoding.ids.len();
    if seq_len > max_input_length {
        return Err(
            TokenizationError::TokenLimitExceeded { limit: max_input_length, count: seq_len },
        );
    }
    let mut position_ids: Vec<u32> = Vec::new();
    for i in 0..seq_len
        invariant
            seq_len <= max_input_length,
            position_offset + max_input_length <= u32::MAX,
            position_ids@.len() == i,
            forall|k: int|
                0 <= k < i ==> position_ids@[k] == position_offset + k,
    {
        position_ids.push((position_offset + i) as u32);
    }
    Ok(
        ValidEncoding {
            input_ids: encoding.ids.clone(),
            token_type_ids: encoding.type_ids.clone(),
            position_ids,
        },
    )
}

/// One human-readable token: its id, display text, special flag, and, for a
/// token that came from the input, its byte offsets there.
#[derive(Debug, PartialEq)]
pub struct SimpleToken {
    pub id: u32,
    pub text: String,
    pub special: bool,
    pub start: Option<usize>,
    pub stop: Option<usize>,
}

/// Clamp a byte index to the length of the input.
pub open spec fn spec_clamp(i: int, len: int) -> int {
    if i < len {
        i
    } else {
        len
    }
}

/// What `into_tokens` owes for position `i`: a special token keeps its
/// reported text and no offsets; any other token shows the input bytes
/// `[start, stop)` decoded leniently, alongside those offsets.
pub open spec fn token_matches(t: SimpleToken, enc: RawEncoding, input: Seq<u8>, i: int) -> bool {
    if enc.special_tokens_mask@[i] == 1 {
        &&& t.id == enc.ids@[i]
        &&& t.text@ == enc.tokens@[i]@
        &&& t.special
        &&& t.start is None
        &&& t.stop is None
    } else {
        &&& t.id == enc.ids@[i]
        &&& !t.special
        &&& t.start == Some(enc.offsets@[i].0)
        &&& t.stop == Some(enc.offsets@[i].1)
        &&& t.text@ == lossy_decode_of(
            input.subrange(
                spec_clamp(enc.offsets@[i].0 as int, input.len() as int),
                spec_clamp(enc.offsets@[i].1 as int, input.len() as int),
            ),
        )
    }
}

/// Project a finished encoding back onto the original input: one
/// `SimpleToken` per position, pure and total.
pub fn into_tokens(encoding: RawEncoding, input: &str) -> (r: Vec<SimpleToken>)
    requires
        encoding.wf(),
        forall|i: int|
            0 <= i < encoding.offsets@.len() ==> (#[trigger] encoding.offsets@[i]).0
                <= encoding.offsets@[i].1,
    ensures
        r@.len() == encoding.spec_len(),
        forall|i: int|
            0 <= i < r@.len() ==> token_matches(r@[i], encoding, input.spec_bytes(), i),
{
    let n = encoding.ids.len();
    let bytes: &[u8] = input.as_bytes();
    let blen = bytes.len();
    let mut out: Vec<SimpleToken> = Vec::new();
    for i in 0..n
        invariant
            encoding.wf(),
            forall|k: int|
                0 <= k < encoding.offsets@.len() ==> (#[trigger] encoding.offsets@[k]).0
                    <= encoding.offsets@[k].1,
            n == encoding.spec_len(),
            bytes@ == input.spec_bytes(),
            blen == bytes@.len(),
            out@.len() == i,
            forall|k: int| 0 <= k < i ==> token_matches(out@[k], encoding, input.spec_bytes(), k),
    {
        let id = encoding.ids[i];
        if encoding.special_tokens_mask[i] == 1 {
            out.push(
                SimpleToken {
                    id,
                    text: encoding.tokens[i].clone(),
                    special: true,
                    start: None,
                    stop: None,
                },
            );
        } else {
            let (start, stop) = encoding.offsets[i];
            let lo = if start < blen {
                start
            } else {
                blen
            };
            let hi = if stop < blen {
                stop
            } else {
                blen
            };
            let text = decode_lossy(&bytes[lo..hi]);
            out.push(
                SimpleToken { id, text, special: false, start: Some(start), stop: Some(stop) },
            );
        }
    }
    out
}

} // verus!
