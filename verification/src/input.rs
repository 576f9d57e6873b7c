//! The three request payload shapes and the character-level length rules.

use vstd::prelude::*;
use crate::error::TokenizationError;

verus! {

/// A request payload: one text, a pair of texts, or pre-tokenized ids.
#[derive(Debug)]
pub enum EncodingInput {
    Single(String),
    Dual(String, String),
    Ids(Vec<u32>),
}

impl EncodingInput {
    /// An input is empty when every string it carries is empty, or the id
    /// sequence is empty.
    pub open spec fn spec_is_empty(&self) -> bool {
        match self {
            EncodingInput::Single(s) => s@.len() == 0,
            EncodingInput::Dual(s1, s2) => s1@.len() == 0 && s2@.len() == 0,
            EncodingInput::Ids(v) => v@.len() == 0,
        }
    }

    pub fn is_empty(&self) -> (r: bool)
        ensures
            r == self.spec_is_empty(),
    {
        match self {
            EncodingInput::Single(s) => s.as_str().is_empty(),
            EncodingInput::Dual(s1, s2) => s1.as_str().is_empty() && s2.as_str().is_empty(),
            EncodingInput::Ids(v) => v.len() == 0,
        }
    }

    /// The dispatch-side pre-check: an empty input is refused here, before
    /// any request is enqueued toward a worker.
    pub fn validate_not_empty(&self) -> (r: Result<(), TokenizationError>)
        ensures
            self.spec_is_empty() ==> r == Err::<(), TokenizationError>(
                TokenizationError::EmptyInput,
            ),
            !self.spec_is_empty() ==> r is Ok,
    {
        if self.is_empty() {
            Err(TokenizationError::EmptyInput)
        } else {
            Ok(())
        }
    }

    /// Character count of the input; each id counts as one character unit.
    pub open spec fn spec_count_chars(&self) -> int {
        match self {
            EncodingInput::Single(s) => s@.len() as int,
            EncodingInput::Dual(s1, s2) => s1@.len() + s2@.len() as int,
            EncodingInput::Ids(v) => v@.len() as int,
        }
    }

    pub fn count_chars(&self) -> (r: usize)
        ensures
            r == saturate_usize(self.spec_count_chars()),
    {
        match self {
            EncodingInput::Single(s) => s.as_str().unicode_len(),
            EncodingInput::Dual(s1, s2) => {
                let n1 = s1.as_str().unicode_len();
                let n2 = s2.as_str().unicode_len();
                if n1 <= usize::MAX - n2 {
                    n1 + n2
                } else {
                    usize::MAX
                }
            },
            EncodingInput::Ids(v) => v.len(),
        }
    }
}

/// The decode path's pre-check: an empty id sequence is refused before any
/// request is enqueued toward a worker.
pub fn validate_ids_not_empty(ids: &Vec<u32>) -> (r: Result<(), TokenizationError>)
    ensures
        ids@.len() == 0 ==> r == Err::<(), TokenizationError>(TokenizationError::EmptyInput),
        ids@.len() > 0 ==> r is Ok,
{
    if ids.len() == 0 {
        Err(TokenizationError::EmptyInput)
    } else {
        Ok(())
    }
}

/// Clamp a mathematical count to what a machine word can report.
pub open spec fn saturate_usize(n: int) -> int {
    if n <= usize::MAX {
        n
    } else {
        usize::MAX as int
    }
}

/// The first `limit` characters of `s`, or all of `s` where it is shorter.
pub open spec fn spec_truncate_chars(s: Seq<char>, limit: int) -> Seq<char> {
    if s.len() <= limit {
        s
    } else {
        s.take(limit)
    }
}

/// Cut `s` down to its first `limit` characters. Working at character
/// granularity means the cut can never split a multi-byte character.
fn truncate_chars(s: &String, limit: usize) -> (r: String)
    ensures
        r@ == spec_truncate_chars(s@, limit as int),
{
    let n = s.as_str().unicode_len();
    if n <= limit {
        s.clone()
    } else {
        let sub = s.as_str().substring_char(0, limit);
        proof {
            assert(s@.take(limit as int) =~= s@.subrange(0, limit as int));
        }
        sub.to_owned()
    }
}

impl EncodingInput {
    /// Truncate text inputs to the character limit: a single text keeps its
    /// first `limit` characters, each side of a pair its first `limit / 2`.
    /// Pre-tokenized ids are exempt and stay unchanged.
    pub fn apply_limit(&mut self, limit: usize)
        ensures
            (*old(self)) matches EncodingInput::Single(s) ==> ((*final (self)) matches
                EncodingInput::Single(t) && t@ == spec_truncate_chars(s@, limit as int)),
            (*old(self)) matches EncodingInput::Dual(s1, s2) ==> ((*final (self)) matches
                EncodingInput::Dual(t1, t2) && t1@ == spec_truncate_chars(
                s1@,
                limit as int / 2,
            ) && t2@ == spec_truncate_chars(s2@, limit as int / 2)),
            (*old(self)) matches EncodingInput::Ids(_) ==> *final (self) == *old(self),
    {
        match self {
            EncodingInput::Single(s) => {
                let t = truncate_chars(s, limit);
                *s = t;
            },
            EncodingInput::Dual(s1, s2) => {
                let half = limit / 2;
                let t1 = truncate_chars(s1, half);
                let t2 = truncate_chars(s2, half);
                *s1 = t1;
                *s2 = t2;
            },
            EncodingInput::Ids(_) => {},
        }
    }
}

impl core::convert::From<String> for EncodingInput {
    fn from(value: String) -> Self {
        EncodingInput::Single(value)
    }
}

impl vstd::std_specs::convert::FromSpecImpl<String> for EncodingInput {
    open spec fn obeys_from_spec() -> bool {
        true
    }

    open spec fn from_spec(t: String) -> Self {
        EncodingInput::Single(t)
    }
}

impl core::convert::From<(String, String)> for EncodingInput {
    fn from(value: (String, String)) -> Self {
        EncodingInput::Dual(value.0, value.1)
    }
}

impl vstd::std_specs::convert::FromSpecImpl<(String, String)> for EncodingInput {
    open spec fn obeys_from_spec() -> bool {
        true
    }

    open spec fn from_spec(t: (String, String)) -> Self {
        EncodingInput::Dual(t.0, t.1)
    }
}

} // verus!
