//! Special token ids extracted from GGUF metadata.
//!
//! Ids are optional because not every GGUF file declares every role; `None`
//! means the role is unused by the model.

use vstd::prelude::*;

verus! {

/// Roles referenced by the GGUF tokenizer section.
#[derive(Debug, Clone, Copy, PartialEq, Eq, Structural)]
pub struct SpecialTokens {
    /// Beginning of sequence.
    pub bos: Option<u32>,
    /// End of sequence / stop token for greedy decode loops.
    pub eos: Option<u32>,
    /// Unknown / OOV piece.
    pub unknown: Option<u32>,
    /// Separator (e.g. between segments).
    pub separator: Option<u32>,
    /// Padding for batched sequences.
    pub padding: Option<u32>,
}

/// `true` when `id` is declared for one of the roles.
pub open spec fn is_special(s: SpecialTokens, id: u32) -> bool {
    ||| s.bos == Some(id)
    ||| s.eos == Some(id)
    ||| s.unknown == Some(id)
    ||| s.separator == Some(id)
    ||| s.padding == Some(id)
}

impl Default for SpecialTokens {
    /// No role declared.
    fn default() -> (res: Self)
        ensures
            res == (SpecialTokens { bos: None, eos: None, unknown: None, separator: None, padding: None }),
    {
        SpecialTokens { bos: None, eos: None, unknown: None, separator: None, padding: None }
    }
}

/// `true` when `role` declares `id`.
fn declares(role: Option<u32>, id: u32) -> (res: bool)
    ensures
        res == (role == Some(id)),
{
    match role {
        Some(special) => special == id,
        None => false,
    }
}

impl SpecialTokens {
    /// `true` when `id` matches any declared special role.
    pub fn contains(&self, id: u32) -> (res: bool)
        ensures
            res == is_special(*self, id),
    {
        declares(self.bos, id) || declares(self.eos, id) || declares(self.unknown, id) || declares(
            self.separator,
            id,
        ) || declares(self.padding, id)
    }
}

} // verus!
