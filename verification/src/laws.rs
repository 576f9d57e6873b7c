//! Library-wide laws about truncation, stated and proved once.

use vstd::prelude::*;
use crate::input::spec_truncate_chars;

verus! {

/// Truncation works at character granularity, so the cut can never fall
/// inside a multi-byte character: the truncated text is a prefix of the
/// original character sequence, with at most `limit` characters.
pub proof fn lemma_truncate_chars_prefix(s: Seq<char>, limit: int)
    requires
        0 <= limit,
    ensures
        spec_truncate_chars(s, limit).is_prefix_of(s),
        spec_truncate_chars(s, limit).len() == if s.len() <= limit {
            s.len() as int
        } else {
            limit
        },
{
    if s.len() > limit {
        assert(s.take(limit) =~= s.subrange(0, limit));
    }
    assert(spec_truncate_chars(s, limit) =~= s.subrange(
        0,
        spec_truncate_chars(s, limit).len() as int,
    ));
}

/// An input truncated under the character limit stays under it: a single
/// text keeps at most `limit` characters, and the two halves of a dual
/// input, each cut to `limit / 2`, stay within `limit` together.
pub proof fn lemma_truncation_within_limit(s1: Seq<char>, s2: Seq<char>, limit: int)
    requires
        0 <= limit,
    ensures
        spec_truncate_chars(s1, limit).len() <= limit,
        spec_truncate_chars(s1, limit / 2).len() + spec_truncate_chars(s2, limit / 2).len()
            <= limit,
{
    lemma_truncate_chars_prefix(s1, limit);
    lemma_truncate_chars_prefix(s1, limit / 2);
    lemma_truncate_chars_prefix(s2, limit / 2);
}

} // verus!
