//! Owned, contiguous, row-major tensors.
//!
//! The element type is a parameter: the library moves elements (gathers,
//! reshapes, transposes) without computing on them, so the same code serves
//! `f32` activations and any other element type.

use vstd::prelude::*;

use super::dtype::DType;
use super::error::{TensorError, TensorFault};
use super::shape::{
    in_bounds, lemma_offset_in_buffer, lemma_offset_injective, linear_offset, offset_answer, offset_walk, product,
    product_fits, strides_fit, row_major, OffsetWalk, Shape,
};
use crate::errors::PhalanxError;

verus! {

/// Dense tensor with contiguous row-major storage.
///
/// Contiguity is an invariant: the buffer always holds exactly
/// `shape.numel()` elements.
#[derive(Debug)]
pub struct Tensor<T> {
    data: Vec<T>,
    shape: Shape,
    dtype: DType,
}

/// The walk of `Shape::offset` ends in `Offset(n)` only for an in-range
/// index, and then `n` is the row-major formula.
proof fn lemma_walk_offset_in_range(dims: Seq<usize>, idx: Seq<usize>, k: nat, acc: nat, n: nat)
    requires
        idx.len() == dims.len(),
        k <= dims.len(),
        offset_walk(dims, idx, k, acc) == OffsetWalk::Offset(n),
    ensures
        forall|j: int| k <= j < dims.len() ==> #[trigger] idx[j] < dims[j],
    decreases dims.len() - k,
{
    if k < dims.len() {
        let next = (acc + idx[k as int] * super::shape::suffix_product(dims, k + 1 as int)) as nat;
        lemma_walk_offset_in_range(dims, idx, k + 1, next, n);
    }
}

impl<T> Tensor<T> {
    /// The elements in row-major order.
    pub closed spec fn data(&self) -> Seq<T> {
        self.data@
    }

    /// The dimensions.
    pub closed spec fn dims(&self) -> Seq<usize> {
        self.shape.dims()
    }

    /// The buffer holds exactly one element per index of the shape.
    pub closed spec fn wf(&self) -> bool {
        &&& self.shape.wf()
        &&& product_fits(self.shape.dims())
        &&& self.data@.len() == product(self.shape.dims())
        &&& self.dtype == DType::F32
    }

    /// What well-formedness says in terms of the public models.
    pub proof fn lemma_wf(&self)
        requires
            self.wf(),
        ensures
            self.dims().len() >= 1,
            product_fits(self.dims()),
            self.data().len() == product(self.dims()),
            product(self.dims()) <= usize::MAX,
    {
        self.shape.lemma_wf();
        assert(self.dims().take(self.dims().len() as int) =~= self.dims());
        assert(product(self.dims().take(self.dims().len() as int)) <= usize::MAX);
    }

    /// Wrap an existing buffer; its length must equal `shape.numel()`.
    ///
    /// Fails with [`TensorError::DataLengthMismatch`] exactly when it does not.
    pub fn from_vec(data: Vec<T>, shape: Shape) -> (res: Result<Self, PhalanxError>)
        requires
            shape.wf(),
            product_fits(shape.dims()),
        ensures
            data@.len() == product(shape.dims()) ==> (res matches Ok(t) && t.wf() && t.data() == data@
                && t.dims() == shape.dims()),
            data@.len() != product(shape.dims()) ==> (res matches Err(PhalanxError::Tensor(e)) && e@
                == (TensorFault::DataLengthMismatch {
                expected: product(shape.dims()) as usize,
                got: data@.len() as usize,
            })),
    {
        let expected = shape.numel();
        if data.len() != expected {
            let got = data.len();
            return Err(
                PhalanxError::Tensor(
                    TensorError::DataLengthMismatch { shape: shape.display_text(), expected, got },
                ),
            );
        }
        Ok(Tensor { data, shape, dtype: DType::F32 })
    }

    /// Logical element type (always [`DType::F32`]).
    pub fn dtype(&self) -> (res: DType)
        requires
            self.wf(),
        ensures
            res == DType::F32,
    {
        self.dtype
    }

    /// Shape metadata.
    pub fn shape(&self) -> (res: &Shape)
        ensures
            res.dims() == self.dims(),
            self.wf() ==> res.wf() && product_fits(res.dims()),
    {
        &self.shape
    }

    /// Rank shortcut.
    pub fn rank(&self) -> (res: usize)
        ensures
            res == self.dims().len(),
    {
        self.shape.rank()
    }

    /// Element count shortcut.
    pub fn numel(&self) -> (res: usize)
        requires
            self.wf(),
        ensures
            res == product(self.dims()),
            res == self.data().len(),
    {
        self.shape.numel()
    }

    /// Contiguous row-major strides for the current shape.
    pub fn strides(&self) -> (res: Result<Vec<usize>, PhalanxError>)
        requires
            self.wf(),
        ensures
            strides_fit(self.dims()) ==> (res matches Ok(s) && s@.len() == self.dims().len()
                && forall|i: int| 0 <= i < s@.len() ==> s@[i] == #[trigger] row_major(self.dims())[i]),
            !strides_fit(self.dims()) ==> (res matches Err(PhalanxError::Tensor(e)) && e@
                == TensorFault::InvalidShape),
    {
        self.shape.row_major_strides()
    }

    /// Immutable view of the backing buffer.
    pub fn as_slice(&self) -> (res: &[T])
        ensures
            res@ == self.data(),
    {
        self.data.as_slice()
    }

    /// Mutable view of the backing buffer: what is written through it
    /// becomes the tensor's elements; the shape stays as it was.
    pub fn as_mut_slice(&mut self) -> (res: &mut [T])
        ensures
            res@ == old(self).data(),
            final(self).dims() == old(self).dims(),
            final(self).data() == final(res)@,
            old(self).wf() && final(res)@.len() == res@.len() ==> final(self).wf(),
    {
        self.data.as_mut_slice()
    }

    /// Consume the tensor and return its buffer.
    pub fn into_vec(self) -> (res: Vec<T>)
        ensures
            res@ == self.data(),
    {
        self.data
    }

    /// Offset of an in-range index is inside the buffer.
    proof fn lemma_offset_inside(&self, idx: Seq<usize>, n: nat)
        requires
            self.wf(),
            idx.len() == self.dims().len(),
            offset_walk(self.dims(), idx, 0, 0) == OffsetWalk::Offset(n),
        ensures
            n < self.data().len(),
            in_bounds(self.dims(), idx),
    {
        lemma_walk_offset_in_range(self.dims(), idx, 0, 0, n);
        assert(self.dims().take(self.dims().len() as int) =~= self.dims());
        assert(product(self.dims().take(self.dims().len() as int)) <= usize::MAX);
        lemma_offset_in_buffer(self.dims(), idx);
    }

    /// Change shape without moving elements; the new shape must hold the
    /// same number of elements.
    ///
    /// Fails with [`TensorError::InvalidShape`] for an empty shape and with
    /// [`TensorError::DataLengthMismatch`] when the element counts differ.
    pub fn into_shape(self, new_shape: Vec<usize>) -> (res: Result<Self, PhalanxError>)
        requires
            self.wf(),
            new_shape@.len() > 0 ==> product_fits(new_shape@),
        ensures
            new_shape@.len() == 0 ==> (res matches Err(PhalanxError::Tensor(e)) && e@
                == TensorFault::InvalidShape),
            new_shape@.len() > 0 && product(new_shape@) == self.data().len() ==> (res matches Ok(t)
                && t.wf() && t.data() == self.data() && t.dims() == new_shape@),
            new_shape@.len() > 0 && product(new_shape@) != self.data().len() ==> (res matches Err(
                PhalanxError::Tensor(e),
            ) && e@ == (TensorFault::DataLengthMismatch {
                expected: product(new_shape@) as usize,
                got: self.data().len() as usize,
            })),
    {
        let shape = match Shape::new(new_shape) {
            Ok(s) => s,
            Err(e) => {
                return Err(e);
            },
        };
        Self::from_vec(self.data, shape)
    }
}

impl<T: Copy> Tensor<T> {
    /// Allocate a tensor of the given shape with every element `value`.
    ///
    /// Fails with [`TensorError::InvalidShape`] for an empty shape.
    pub fn full(shape: Vec<usize>, value: T) -> (res: Result<Self, PhalanxError>)
        requires
            shape@.len() > 0 ==> product_fits(shape@),
        ensures
            shape@.len() == 0 ==> (res matches Err(PhalanxError::Tensor(e)) && e@
                == TensorFault::InvalidShape),
            shape@.len() > 0 ==> (res matches Ok(t) && t.wf() && t.dims() == shape@
                && t.data().len() == product(shape@)
                && forall|i: int| 0 <= i < t.data().len() ==> #[trigger] t.data()[i] == value),
    {
        let shape = match Shape::new(shape) {
            Ok(s) => s,
            Err(e) => {
                return Err(e);
            },
        };
        let n = shape.numel();
        let mut data: Vec<T> = Vec::new();
        let mut i: usize = 0;
        while i < n
            invariant
                i <= n,
                data@.len() == i,
                forall|j: int| 0 <= j < i ==> #[trigger] data@[j] == value,
            decreases n - i,
        {
            data.push(value);
            i = i + 1;
        }
        Self::from_vec(data, shape)
    }

    /// Borrowed constructor; copies into an owned buffer.
    ///
    /// Fails with [`TensorError::DataLengthMismatch`] when the length differs
    /// from `shape.numel()`.
    pub fn from_slice(data: &[T], shape: Shape) -> (res: Result<Self, PhalanxError>)
        requires
            shape.wf(),
            product_fits(shape.dims()),
        ensures
            data@.len() == product(shape.dims()) ==> (res matches Ok(t) && t.wf() && t.data() == data@
                && t.dims() == shape.dims()),
            data@.len() != product(shape.dims()) ==> (res matches Err(PhalanxError::Tensor(e)) && e@
                == (TensorFault::DataLengthMismatch {
                expected: product(shape.dims()) as usize,
                got: data@.len() as usize,
            })),
    {
        Self::from_vec(copy_of(data), shape)
    }

    /// Read one element by multi-index.
    ///
    /// Fails as [`Shape::offset`] fails; otherwise returns the element at the
    /// row-major offset of the index.
    pub fn get(&self, indices: &[usize]) -> (res: Result<T, PhalanxError>)
        requires
            self.wf(),
        ensures
            indices@.len() != self.dims().len() ==> (res matches Err(PhalanxError::Tensor(e)) && e@
                == (TensorFault::RankMismatch {
                expected: self.dims().len() as usize,
                got: indices@.len() as usize,
            })),
            indices@.len() == self.dims().len() && !strides_fit(self.dims()) ==> (res matches Err(
                PhalanxError::Tensor(e),
            ) && e@ == TensorFault::InvalidShape),
            indices@.len() == self.dims().len() && strides_fit(self.dims()) ==> match offset_walk(
                self.dims(),
                indices@,
                0,
                0,
            ) {
                OffsetWalk::Offset(n) => res == Ok::<T, PhalanxError>(self.data()[n as int]),
                OffsetWalk::OutOfBounds(k) => res matches Err(PhalanxError::Tensor(e)) && e@
                    == (TensorFault::IndexOutOfBounds {
                    axis: k as usize,
                    index: indices@[k as int],
                    dim: self.dims()[k as int],
                }),
                OffsetWalk::Overflow => res matches Err(PhalanxError::Tensor(e)) && e@
                    == TensorFault::InvalidShape,
            },
    {
        match self.shape.offset(indices) {
            Ok(offset) => {
                proof {
                    self.lemma_offset_inside(indices@, offset as nat);
                }
                Ok(self.data[offset])
            },
            Err(e) => Err(e),
        }
    }

    /// Write one element by multi-index.
    ///
    /// Fails as [`Shape::offset`] fails, leaving the tensor unchanged;
    /// otherwise replaces exactly the element at the row-major offset.
    pub fn set(&mut self, indices: &[usize], value: T) -> (res: Result<(), PhalanxError>)
        requires
            old(self).wf(),
        ensures
            final(self).wf(),
            final(self).dims() == old(self).dims(),
            res is Err ==> final(self).data() == old(self).data(),
            indices@.len() != old(self).dims().len() ==> (res matches Err(PhalanxError::Tensor(e))
                && e@ == (TensorFault::RankMismatch {
                expected: old(self).dims().len() as usize,
                got: indices@.len() as usize,
            })),
            indices@.len() == old(self).dims().len() && !strides_fit(old(self).dims()) ==> (res matches Err(
                PhalanxError::Tensor(e),
            ) && e@ == TensorFault::InvalidShape),
            indices@.len() == old(self).dims().len() && strides_fit(old(self).dims()) ==> match offset_walk(
                old(self).dims(),
                indices@,
                0,
                0,
            ) {
                OffsetWalk::Offset(n) => res is Ok && final(self).data() == old(self).data().update(
                    n as int,
                    value,
                ),
                OffsetWalk::OutOfBounds(k) => res matches Err(PhalanxError::Tensor(e)) && e@
                    == (TensorFault::IndexOutOfBounds {
                    axis: k as usize,
                    index: indices@[k as int],
                    dim: old(self).dims()[k as int],
                }),
                OffsetWalk::Overflow => res matches Err(PhalanxError::Tensor(e)) && e@
                    == TensorFault::InvalidShape,
            },
    {
        match self.shape.offset(indices) {
            Ok(offset) => {
                proof {
                    self.lemma_offset_inside(indices@, offset as nat);
                }
                self.data.set(offset, value);
                Ok(())
            },
            Err(e) => Err(e),
        }
    }

    /// Copy with a new shape holding the same number of elements.
    ///
    /// Fails with [`TensorError::InvalidShape`] for an empty shape and with
    /// [`TensorError::DataLengthMismatch`] when the element counts differ.
    pub fn reshape(&self, new_shape: Vec<usize>) -> (res: Result<Self, PhalanxError>)
        requires
            self.wf(),
            new_shape@.len() > 0 ==> product_fits(new_shape@),
        ensures
            new_shape@.len() == 0 ==> (res matches Err(PhalanxError::Tensor(e)) && e@
                == TensorFault::InvalidShape),
            new_shape@.len() > 0 && product(new_shape@) == self.data().len() ==> (res matches Ok(t)
                && t.wf() && t.data() == self.data() && t.dims() == new_shape@),
            new_shape@.len() > 0 && product(new_shape@) != self.data().len() ==> (res matches Err(
                PhalanxError::Tensor(e),
            ) && e@ == (TensorFault::DataLengthMismatch {
                expected: product(new_shape@) as usize,
                got: self.data().len() as usize,
            })),
    {
        let shape = match Shape::new(new_shape) {
            Ok(s) => s,
            Err(e) => {
                return Err(e);
            },
        };
        Self::from_vec(copy_of(self.data.as_slice()), shape)
    }
}

/// Reading back a write: after `set` wrote `value` at an in-range index
/// `at` of a well-formed tensor (the rest unchanged), a read at `at` sees
/// `value`, and a read at any other in-range index sees what it saw before.
pub proof fn lemma_read_after_write<T>(before: &Tensor<T>, after: &Tensor<T>, at: Seq<usize>, other: Seq<usize>, value: T)
    requires
        before.wf(),
        in_bounds(before.dims(), at),
        in_bounds(before.dims(), other),
        after.dims() == before.dims(),
        offset_walk(before.dims(), at, 0, 0) matches OffsetWalk::Offset(n) && after.data() == before.data().update(
            n as int,
            value,
        ),
    ensures
        offset_walk(after.dims(), other, 0, 0) matches OffsetWalk::Offset(m) && after.data()[m as int] == if at
            == other {
            value
        } else {
            before.data()[m as int]
        },
{
    before.lemma_wf();
    let dims = before.dims();
    lemma_offset_in_buffer(dims, at);
    lemma_offset_in_buffer(dims, other);
    if at != other {
        lemma_offset_injective(dims, at, other);
    }
}

/// Row-major elements of the transpose of a `rows x cols` matrix stored
/// row-major in `d`: element `(j, i)` of the result is element `(i, j)`.
pub open spec fn transpose_seq<T>(d: Seq<T>, rows: int, cols: int) -> Seq<T> {
    Seq::new((rows * cols) as nat, |p: int| d[(p % rows) * cols + p / rows])
}

/// Transposing twice gives the matrix back.
pub proof fn lemma_transpose_involution<T>(d: Seq<T>, rows: int, cols: int)
    requires
        rows >= 0,
        cols >= 0,
        d.len() == rows * cols,
    ensures
        transpose_seq(transpose_seq(d, rows, cols), cols, rows) == d,
{
    let t = transpose_seq(d, rows, cols);
    let tt = transpose_seq(t, cols, rows);
    assert(cols * rows == rows * cols) by (nonlinear_arith);
    assert forall|p: int| 0 <= p < d.len() implies #[trigger] tt[p] == d[p] by {
        // p = b * cols + a with a = p % cols, b = p / cols.
        assert(cols != 0) by (nonlinear_arith)
            requires
                0 <= p < rows * cols,
        ;
        let a = p % cols;
        let b = p / cols;
        vstd::arithmetic::div_mod::lemma_fundamental_div_mod(p, cols);
        assert(0 <= a < cols);
        assert(0 <= b < rows) by (nonlinear_arith)
            requires
                p == cols * b + a,
                0 <= a < cols,
                0 <= p < rows * cols,
                cols > 0,
        ;
        let q = a * rows + b;
        assert(0 <= q < rows * cols) by (nonlinear_arith)
            requires
                0 <= a < cols,
                0 <= b < rows,
                q == a * rows + b,
        ;
        vstd::arithmetic::div_mod::lemma_fundamental_div_mod_converse(q, rows, a, b);
        assert(tt[p] == t[q]);
        assert(t[q] == d[b * cols + a]);
        assert(b * cols + a == p) by (nonlinear_arith)
            requires
                p == cols * b + a,
        ;
    }
    assert(tt =~= d);
}

impl<T: Copy> Tensor<T> {
    /// Materialize the transpose of a rank-2 tensor (`[M, N] -> [N, M]`).
    ///
    /// Fails with [`TensorError::RankMismatch`] when the rank is not 2.
    pub fn transpose(&self) -> (res: Result<Self, PhalanxError>)
        requires
            self.wf(),
        ensures
            self.dims().len() != 2 ==> (res matches Err(PhalanxError::Tensor(e)) && e@
                == (TensorFault::RankMismatch { expected: 2, got: self.dims().len() as usize })),
            self.dims().len() == 2 ==> (res matches Ok(t) && t.wf() && t.dims() == seq![
                self.dims()[1],
                self.dims()[0],
            ] && t.data() == transpose_seq(
                self.data(),
                self.dims()[0] as int,
                self.dims()[1] as int,
            )),
    {
        if self.rank() != 2 {
            return Err(
                PhalanxError::Tensor(TensorError::RankMismatch { expected: 2, got: self.rank() }),
            );
        }
        let rows = self.shape.as_slice()[0];
        let cols = self.shape.as_slice()[1];
        let ghost d = self.data@;
        proof {
            let dims = self.dims();
            assert(dims.drop_first().drop_first() =~= Seq::<usize>::empty());
            assert(product(dims.drop_first()) == cols * product(dims.drop_first().drop_first()));
            assert(d.len() == rows * cols);
            assert(dims.take(2) =~= dims);
            assert(product(dims.take(2)) <= usize::MAX);
        }
        let mut out: Vec<T> = Vec::new();
        let mut j: usize = 0;
        while j < cols
            invariant
                d == self.data@,
                d.len() == rows * cols,
                rows * cols <= usize::MAX,
                j <= cols,
                out@.len() == j * rows,
                forall|p: int| 0 <= p < out@.len() ==> #[trigger] out@[p] == d[(p % rows as int) * cols + p / rows as int],
            decreases cols - j,
        {
            let mut i: usize = 0;
            while i < rows
                invariant
                    d == self.data@,
                    d.len() == rows * cols,
                    rows * cols <= usize::MAX,
                    j < cols,
                    i <= rows,
                    out@.len() == j * rows + i,
                    forall|p: int| 0 <= p < out@.len() ==> #[trigger] out@[p] == d[(p % rows as int) * cols + p / rows as int],
                decreases rows - i,
            {
                proof {
                    assert(i * cols + j < rows * cols) by (nonlinear_arith)
                        requires
                            i < rows,
                            j < cols,
                    ;
                    assert(j * rows + i < rows * cols) by (nonlinear_arith)
                        requires
                            i < rows,
                            j < cols,
                    ;
                    vstd::arithmetic::div_mod::lemma_fundamental_div_mod_converse(
                        (j * rows + i) as int,
                        rows as int,
                        j as int,
                        i as int,
                    );
                }
                let src = i * cols + j;
                out.push(self.data[src]);
                i = i + 1;
            }
            proof {
                assert((j + 1) * rows == j * rows + rows) by (nonlinear_arith);
            }
            j = j + 1;
        }
        proof {
            assert(out@.len() == rows * cols) by (nonlinear_arith)
                requires
                    out@.len() == j * rows,
                    j == cols,
            ;
            assert(out@ =~= transpose_seq(d, rows as int, cols as int));
            let nd = seq![cols, rows];
            assert(nd.drop_first() =~= seq![rows]);
            assert(seq![rows].drop_first() =~= Seq::<usize>::empty());
            assert(nd[0] == cols);
            assert(product(seq![rows]) == rows * product(Seq::<usize>::empty()));
            assert(product(nd) == cols * product(seq![rows]));
            assert(product(nd) == cols * (rows * 1));
            assert(nd.take(0) =~= Seq::<usize>::empty());
            assert(nd.take(1) =~= seq![cols]);
            assert(nd.take(2) =~= nd);
            assert(seq![cols].drop_first() =~= Seq::<usize>::empty());
            assert(product(seq![cols]) == cols * 1);
            assert(cols * (rows * 1) == rows * cols) by (nonlinear_arith);
            assert(product_fits(nd)) by {
                assert forall|k: int| 0 <= k <= 2 implies #[trigger] product(nd.take(k)) <= usize::MAX by {
                    if k == 0 {
                        assert(product(nd.take(0)) == 1);
                    } else if k == 1 {
                        assert(seq![cols][0] == cols);
                        assert(product(nd.take(1)) == cols * 1);
                    } else {
                        assert(product(nd.take(2)) == rows * cols);
                    }
                }
            }
        }
        let shape = match Shape::new(vec![cols, rows]) {
            Ok(s) => s,
            Err(e) => {
                return Err(e);
            },
        };
        Self::from_vec(out, shape)
    }
}

/// Element-by-element copy of a slice.
fn copy_of<T: Copy>(data: &[T]) -> (res: Vec<T>)
    ensures
        res@ == data@,
{
    let mut out: Vec<T> = Vec::new();
    let mut i: usize = 0;
    while i < data.len()
        invariant
            i <= data@.len(),
            out@ == data@.take(i as int),
        decreases data@.len() - i,
    {
        proof {
            assert(data@.take(i + 1) =~= data@.take(i as int).push(data@[i as int]));
        }
        out.push(data[i]);
        i = i + 1;
    }
    assert(data@.take(i as int) =~= data@);
    out
}

} // verus!
