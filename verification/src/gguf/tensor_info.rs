//! Tensor directory entries from the GGUF container.

use vstd::prelude::*;

use super::types::GgmlType;

verus! {

/// One tensor's metadata record (not the weight bytes).
#[derive(Debug, Clone, PartialEq, Eq)]
pub struct TensorInfo {
    /// Tensor name, e.g. `token_embd.weight` (≤ 64 bytes per spec).
    pub name: String,
    /// Dimension sizes in GGUF order (typically `[n_embd, n_vocab]` etc.).
    pub dimensions: Vec<u64>,
    /// Element / quantization type.
    pub ggml_type: GgmlType,
    /// Byte offset **relative to the tensor data blob**, not the file start.
    pub offset: u64,
}

/// Model of a tensor record.
#[verifier::ext_equal]
pub struct TensorInfoModel {
    pub name: Seq<char>,
    pub dimensions: Seq<u64>,
    pub ggml_type: GgmlType,
    pub offset: u64,
}

impl View for TensorInfo {
    type V = TensorInfoModel;

    open spec fn view(&self) -> TensorInfoModel {
        TensorInfoModel {
            name: self.name@,
            dimensions: self.dimensions@,
            ggml_type: self.ggml_type,
            offset: self.offset,
        }
    }
}

/// Product of the dimensions, computed left to right in `u64`; `None` as
/// soon as a partial product overflows.
pub open spec fn checked_product(dims: Seq<u64>) -> Option<u64>
    decreases dims.len(),
{
    if dims.len() == 0 {
        Some(1)
    } else {
        match checked_product(dims.drop_last()) {
            None => None,
            Some(p) => if p * dims.last() <= u64::MAX {
                Some((p * dims.last()) as u64)
            } else {
                None
            },
        }
    }
}

/// Mathematical product of the dimensions.
pub open spec fn dims_product(dims: Seq<u64>) -> int
    decreases dims.len(),
{
    if dims.len() == 0 {
        1
    } else {
        dims_product(dims.drop_last()) * dims.last()
    }
}

/// A checked product that succeeds is the true product.
pub proof fn lemma_checked_product(dims: Seq<u64>)
    ensures
        checked_product(dims) matches Some(p) ==> p == dims_product(dims),
    decreases dims.len(),
{
    if dims.len() > 0 {
        lemma_checked_product(dims.drop_last());
    }
}

impl TensorInfo {
    /// Number of dimensions.
    pub fn n_dims(&self) -> (n: usize)
        ensures
            n == self.dimensions@.len(),
    {
        self.dimensions.len()
    }

    /// Product of dimensions (element count for dense types), or `None` when
    /// a partial product overflows `u64`.
    pub fn numel(&self) -> (res: Option<u64>)
        ensures
            res == checked_product(self.dimensions@),
            res matches Some(p) ==> p == dims_product(self.dimensions@),
    {
        proof {
            lemma_checked_product(self.dimensions@);
        }
        let mut acc: u64 = 1;
        let mut i: usize = 0;
        while i < self.dimensions.len()
            invariant
                i <= self.dimensions@.len(),
                checked_product(self.dimensions@.take(i as int)) == Some(acc),
            decreases self.dimensions@.len() - i,
        {
            let dim = self.dimensions[i];
            assert(self.dimensions@.take(i + 1).drop_last() == self.dimensions@.take(i as int));
            match acc.checked_mul(dim) {
                Some(next) => {
                    acc = next;
                },
                None => {
                    proof {
                        lemma_checked_product_none(self.dimensions@, i + 1);
                    }
                    return None;
                },
            }
            i = i + 1;
        }
        assert(self.dimensions@.take(i as int) == self.dimensions@);
        Some(acc)
    }
}

/// Once a prefix overflows, every longer prefix overflows too.
pub proof fn lemma_checked_product_none(dims: Seq<u64>, k: int)
    requires
        0 <= k <= dims.len(),
        checked_product(dims.take(k)) is None,
    ensures
        checked_product(dims) is None,
    decreases dims.len() - k,
{
    if k < dims.len() {
        assert(dims.take(k + 1).drop_last() == dims.take(k));
        lemma_checked_product_none(dims, k + 1);
    } else {
        assert(dims.take(k) == dims);
    }
}

} // verus!
