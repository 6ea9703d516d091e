//! Element type tags for tensor storage.

use vstd::prelude::*;

verus! {

/// Logical element type of a tensor buffer.
#[derive(Debug, Clone, Copy, PartialEq, Eq, Hash, Structural)]
pub enum DType {
    /// 32-bit IEEE-754 float — default for activations.
    F32,
}

impl DType {
    /// Size of one element in bytes.
    pub fn size_of(self) -> (res: usize)
        ensures
            self == DType::F32 ==> res == 4,
    {
        match self {
            DType::F32 => 4,
        }
    }

    /// Human-readable name used in errors and model inspection.
    pub fn name(self) -> (res: &'static str)
        ensures
            self == DType::F32 ==> res@ == "f32"@,
    {
        match self {
            DType::F32 => "f32",
        }
    }
}

} // verus!
