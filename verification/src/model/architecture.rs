//! Supported decoder-only architectures.

use vstd::prelude::*;

use crate::text::str_eq;

verus! {

/// Model family declared by `general.architecture`.
#[derive(Debug, Clone, Copy, PartialEq, Eq, Hash, Structural)]
pub enum Architecture {
    /// Meta Llama / Llama-2 / Llama-3 style decoder (GGUF arch string `llama`).
    Llama,
}

/// Architecture named by a `general.architecture` string, if supported.
pub open spec fn architecture_named(name: Seq<char>) -> Option<Architecture> {
    if name == "llama"@ {
        Some(Architecture::Llama)
    } else {
        None
    }
}

/// Canonical GGUF architecture string of a family.
pub open spec fn architecture_text(arch: Architecture) -> Seq<char> {
    match arch {
        Architecture::Llama => "llama"@,
    }
}

impl Architecture {
    /// Parse a GGUF `general.architecture` string; `None` for architectures
    /// this runtime does not configure.
    pub fn parse(name: &str) -> (res: Option<Self>)
        ensures
            res == architecture_named(name@),
    {
        if str_eq(name, "llama") {
            Some(Architecture::Llama)
        } else {
            None
        }
    }

    /// Canonical GGUF architecture string for this family.
    pub fn as_str(self) -> (res: &'static str)
        ensures
            res@ == architecture_text(self),
    {
        match self {
            Architecture::Llama => "llama",
        }
    }
}

/// Parsing the canonical name of a family gives that family back.
pub proof fn lemma_architecture_round_trip(arch: Architecture)
    ensures
        architecture_named(architecture_text(arch)) == Some(arch),
{
}

} // verus!
