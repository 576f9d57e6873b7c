//! The prompt table and prompt-name resolution.

use vstd::prelude::*;
use crate::error::TokenizationError;

verus! {

/// A read-only mapping from prompt name to the literal prefix to prepend.
///
/// The table is immutable once the worker pool is running; lookups compare
/// names character for character.
pub struct PromptTable {
    pub entries: Vec<(String, String)>,
}

impl PromptTable {
    /// Names are pairwise distinct, so each name has at most one prefix.
    pub open spec fn wf(&self) -> bool {
        forall|i: int, j: int|
            0 <= i < j < self.entries@.len() ==> self.entries@[i].0@ != self.entries@[j].0@
    }

    pub open spec fn spec_contains(&self, name: Seq<char>) -> bool {
        exists|i: int| 0 <= i < self.entries@.len() && self.entries@[i].0@ == name
    }

    pub open spec fn spec_get(&self, name: Seq<char>) -> Seq<char> {
        self.entries@[choose|i: int|
            0 <= i < self.entries@.len() && self.entries@[i].0@ == name].1@
    }

    pub fn new() -> (r: Self)
        ensures
            r.wf(),
            r.entries@.len() == 0,
    {
        PromptTable { entries: Vec::new() }
    }

    /// Add a prompt under a fresh name; a name already present keeps its
    /// first prefix.
    pub fn insert(&mut self, name: String, value: String)
        requires
            old(self).wf(),
        ensures
            final(self).wf(),
            final(self).spec_contains(name@),
            !old(self).spec_contains(name@) ==> final(self).spec_get(name@) == value@,
            old(self).spec_contains(name@) ==> *final(self) == *old(self),
            forall|n: Seq<char>|
                n != name@ ==> final(self).spec_contains(n) == old(self).spec_contains(n),
            forall|n: Seq<char>|
                n != name@ && old(self).spec_contains(n) ==> final(self).spec_get(n)
                    == old(self).spec_get(n),
    {
        if self.lookup(&name).is_none() {
            let ghost pre = self.entries@;
            self.entries.push((name, value));
            proof {
                let n = self.entries@.len() - 1;
                assert(self.entries@[n].0@ == name@);
                assert(self.spec_contains(name@));
                let j = choose|j: int|
                    0 <= j < self.entries@.len() && self.entries@[j].0@ == name@;
                if j < n {
                    assert(pre[j].0@ == name@);
                    assert(old(self).spec_contains(name@));
                }
                assert(self.spec_get(name@) == value@);
                assert forall|i: int, j: int|
                    0 <= i < j < self.entries@.len() implies self.entries@[i].0@
                    != self.entries@[j].0@ by {
                    if j < n {
                        assert(self.entries@[i] == pre[i]);
                        assert(self.entries@[j] == pre[j]);
                    } else {
                        assert(self.entries@[i] == pre[i]);
                    }
                }
                assert forall|m: Seq<char>| #[trigger] old(self).spec_contains(m)
                    implies self.spec_contains(m) by {
                    let i = choose|i: int| 0 <= i < pre.len() && pre[i].0@ == m;
                    assert(self.entries@[i].0@ == m);
                }
                assert forall|m: Seq<char>|
                    m != self.entries@[n].0@ && #[trigger] self.spec_contains(m)
                    implies old(self).spec_contains(m) by {
                    let i = choose|i: int|
                        0 <= i < self.entries@.len() && self.entries@[i].0@ == m;
                    assert(pre[i].0@ == m);
                }
                assert forall|m: Seq<char>| #[trigger] old(self).spec_contains(m)
                    implies self.spec_get(m) == old(self).spec_get(m) by {
                    let i = choose|i: int|
                        0 <= i < self.entries@.len() && self.entries@[i].0@ == m;
                    let j = choose|j: int| 0 <= j < pre.len() && pre[j].0@ == m;
                    if i != j {
                        assert(self.entries@[j].0@ == m);
                        assert(self.entries@[i].0@ == self.entries@[j].0@);
                    }
                }
            }
        }
    }

    /// Find the prefix registered under `name`, cloned out of the table.
    pub fn lookup(&self, name: &String) -> (r: Option<String>)
        requires
            self.wf(),
        ensures
            match r {
                Some(p) => self.spec_contains(name@) && p@ == self.spec_get(name@),
                None => !self.spec_contains(name@),
            },
    {
        let n = self.entries.len();
        for i in 0..n
            invariant
                n == self.entries@.len(),
                self.wf(),
                forall|k: int| 0 <= k < i ==> self.entries@[k].0@ != name@,
        {
            if self.entries[i].0 == *name {
                proof {
                    let j = choose|j: int|
                        0 <= j < self.entries@.len() && self.entries@[j].0@ == name@;
                    if j != i as int {
                        assert(self.entries@[i as int].0@ == self.entries@[j].0@);
                    }
                }
                return Some(self.entries[i].1.clone());
            }
        }
        None
    }

    /// Every registered name, in table order.
    pub fn names(&self) -> (r: Vec<String>)
        ensures
            r@.len() == self.entries@.len(),
            forall|i: int| 0 <= i < r@.len() ==> r@[i]@ == self.entries@[i].0@,
    {
        let n = self.entries.len();
        let mut out: Vec<String> = Vec::new();
        for i in 0..n
            invariant
                n == self.entries@.len(),
                out@.len() == i,
                forall|k: int| 0 <= k < i ==> out@[k]@ == self.entries@[k].0@,
        {
            out.push(self.entries[i].0.clone());
        }
        out
    }
}

/// Resolve the prefix to prepend: a named prompt must exist in the table;
/// with no name the default prompt stands.
///
/// When `prompt_name` is given, the default prompt is ignored even if set.
pub fn prepare_pre_prompt(
    default_prompt: Option<String>,
    prompt_name: Option<String>,
    prompts: Option<&PromptTable>,
) -> (r: Result<Option<String>, TokenizationError>)
    requires
        prompts matches Some(t) ==> t.wf(),
    ensures
        prompt_name is None ==> r == Ok::<Option<String>, TokenizationError>(default_prompt),
        prompt_name matches Some(n) ==> prompts is None ==> (r matches Err(
            TokenizationError::UnknownPrompt { name, available },
        ) && name@ == n@ && available is None),
        prompt_name matches Some(n) ==> prompts matches Some(t) ==> !t.spec_contains(n@) ==> (r
            matches Err(TokenizationError::UnknownPrompt { name, available }) && name@ == n@
            && (available matches Some(av) && av@.len() == t.entries@.len() && (forall|i: int|
            0 <= i < av@.len() ==> av@[i]@ == t.entries@[i].0@))),
        prompt_name matches Some(n) ==> prompts matches Some(t) ==> t.spec_contains(n@) ==> (r
            matches Ok(p) && p matches Some(s) && s@ == t.spec_get(n@)),
{
    match prompt_name {
        None => Ok(default_prompt),
        Some(name) => match prompts {
            None => Err(TokenizationError::UnknownPrompt { name, available: None }),
            Some(table) => match table.lookup(&name) {
                None => Err(
                    TokenizationError::UnknownPrompt {
                        name,
                        available: Some(table.names()),
                    },
                ),
                Some(prefix) => Ok(Some(prefix)),
            },
        },
    }
}

} // verus!
