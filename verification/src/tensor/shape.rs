//! Tensor shape metadata and row-major stride computation.

use vstd::prelude::*;
use vstd::string::StringExecFns;

use super::error::{TensorError, TensorFault};
use crate::errors::PhalanxError;
use crate::text::{decimal, decimal_string};

verus! {

// ---------------------------------------------------------------------------
// Arithmetic model
// ---------------------------------------------------------------------------

/// Product of a sequence of dimensions (1 for the empty sequence).
pub open spec fn product(dims: Seq<usize>) -> int
    decreases dims.len(),
{
    if dims.len() == 0 {
        1
    } else {
        dims[0] * product(dims.drop_first())
    }
}

/// Every prefix product fits in `usize`: multiplying the dimensions left to
/// right never overflows.
pub open spec fn product_fits(dims: Seq<usize>) -> bool {
    forall|k: int| 0 <= k <= dims.len() ==> #[trigger] product(dims.take(k)) <= usize::MAX
}

/// Product of the dimensions from axis `k` on.
pub open spec fn suffix_product(dims: Seq<usize>, k: int) -> int {
    product(dims.subrange(k, dims.len() as int))
}

/// Every row-major stride fits in `usize`.
pub open spec fn strides_fit(dims: Seq<usize>) -> bool {
    forall|k: int| 1 <= k <= dims.len() ==> #[trigger] suffix_product(dims, k) <= usize::MAX
}

/// Row-major strides: the stride of axis `i` is the product of the later axes.
pub open spec fn row_major(dims: Seq<usize>) -> Seq<int> {
    Seq::new(dims.len(), |i: int| suffix_product(dims, i + 1))
}

pub proof fn lemma_product_nonneg(dims: Seq<usize>)
    ensures
        product(dims) >= 0,
    decreases dims.len(),
{
    if dims.len() > 0 {
        lemma_product_nonneg(dims.drop_first());
        let p = product(dims.drop_first());
        assert(dims[0] * p >= 0) by (nonlinear_arith)
            requires
                p >= 0,
        ;
    }
}

/// Appending a dimension multiplies the product by it.
pub proof fn lemma_product_push(dims: Seq<usize>, x: usize)
    ensures
        product(dims.push(x)) == product(dims) * x,
    decreases dims.len(),
{
    let pushed = dims.push(x);
    if dims.len() == 0 {
        assert(pushed.drop_first() =~= Seq::<usize>::empty());
        assert(product(pushed) == pushed[0] * product(pushed.drop_first()));
        assert(product(pushed.drop_first()) == 1);
    } else {
        assert(pushed.drop_first() =~= dims.drop_first().push(x));
        lemma_product_push(dims.drop_first(), x);
        let a = dims[0] as int;
        let p = product(dims.drop_first());
        assert(pushed[0] == dims[0]);
        assert(product(pushed) == a * (p * x));
        assert(product(dims) == a * p);
        assert(a * (p * x) == (a * p) * x) by (nonlinear_arith);
    }
}

/// The suffix product from axis `k` is `dims[k]` times the one from `k + 1`.
pub proof fn lemma_suffix_step(dims: Seq<usize>, k: int)
    requires
        0 <= k < dims.len(),
    ensures
        suffix_product(dims, k) == dims[k] * suffix_product(dims, k + 1),
{
    assert(dims.subrange(k, dims.len() as int).drop_first() =~= dims.subrange(k + 1, dims.len() as int));
}

/// The last axis has stride 1.
pub proof fn lemma_suffix_end(dims: Seq<usize>)
    ensures
        suffix_product(dims, dims.len() as int) == 1,
{
    assert(dims.subrange(dims.len() as int, dims.len() as int) =~= Seq::<usize>::empty());
}

/// `product(a + b) == product(a) * product(b)`, stated for a split point.
pub proof fn lemma_product_split(dims: Seq<usize>, k: int)
    requires
        0 <= k <= dims.len(),
    ensures
        product(dims) == product(dims.take(k)) * product(dims.skip(k)),
    decreases k,
{
    if k == 0 {
        assert(dims.take(0) =~= Seq::<usize>::empty());
        assert(dims.skip(0) =~= dims);
        assert(product(dims) == 1 * product(dims));
    } else {
        let rest = dims.drop_first();
        lemma_product_split(rest, k - 1);
        assert(dims.take(k).drop_first() =~= rest.take(k - 1));
        assert(dims.skip(k) =~= rest.skip(k - 1));
        assert(dims.take(k)[0] == dims[0]);
        let a = dims[0] as int;
        let p = product(rest.take(k - 1));
        let q = product(rest.skip(k - 1));
        assert(a * (p * q) == (a * p) * q) by (nonlinear_arith);
    }
}

/// Every axis of the index lies inside its dimension.
pub open spec fn in_bounds(dims: Seq<usize>, idx: Seq<usize>) -> bool {
    &&& idx.len() == dims.len()
    &&& forall|k: int| 0 <= k < dims.len() ==> #[trigger] idx[k] < dims[k]
}

/// Row-major linear offset of the first `k` axes of `idx`:
/// `sum_{j < k} idx[j] * stride[j]`.
pub open spec fn linear_offset(dims: Seq<usize>, idx: Seq<usize>, k: int) -> int
    decreases k,
{
    if k <= 0 {
        0
    } else {
        linear_offset(dims, idx, k - 1) + idx[k - 1] * suffix_product(dims, k)
    }
}

/// Result of walking a multi-index axis by axis, as `Shape::offset` does.
pub enum OffsetWalk {
    /// Every axis was in range and the running offset fit in `usize`.
    Offset(nat),
    /// The first failing axis had an index past its dimension.
    OutOfBounds(nat),
    /// The running offset left `usize`.
    Overflow,
}

/// Walk from axis `k` with running offset `acc`: stop at the first axis whose
/// index is out of range, or whose contribution makes the offset overflow.
pub open spec fn offset_walk(dims: Seq<usize>, idx: Seq<usize>, k: nat, acc: nat) -> OffsetWalk
    decreases dims.len() - k,
{
    if k >= dims.len() {
        OffsetWalk::Offset(acc)
    } else if idx[k as int] >= dims[k as int] {
        OffsetWalk::OutOfBounds(k)
    } else if acc + idx[k as int] * suffix_product(dims, k + 1 as int) > usize::MAX {
        OffsetWalk::Overflow
    } else {
        offset_walk(dims, idx, k + 1, (acc + idx[k as int] * suffix_product(dims, k + 1 as int)) as nat)
    }
}

/// What `Shape::offset` answers once the rank matches and the strides fit.
pub open spec fn offset_answer(dims: Seq<usize>, idx: Seq<usize>, res: Result<usize, PhalanxError>) -> bool {
    match offset_walk(dims, idx, 0, 0) {
        OffsetWalk::Offset(n) => res matches Ok(v) && v == n,
        OffsetWalk::OutOfBounds(k) => res matches Err(PhalanxError::Tensor(e)) && e@
            == (TensorFault::IndexOutOfBounds {
            axis: k as usize,
            index: idx[k as int],
            dim: dims[k as int],
        }),
        OffsetWalk::Overflow => res matches Err(PhalanxError::Tensor(e)) && e@
            == TensorFault::InvalidShape,
    }
}

/// For an in-range index the partial offset leaves room for the rest:
/// `linear_offset(k) + suffix_product(k) <= product`.
proof fn lemma_linear_room(dims: Seq<usize>, idx: Seq<usize>, k: int)
    requires
        in_bounds(dims, idx),
        0 <= k <= dims.len(),
    ensures
        linear_offset(dims, idx, k) + suffix_product(dims, k) <= product(dims),
        linear_offset(dims, idx, k) >= 0,
    decreases k,
{
    if k == 0 {
        assert(dims.subrange(0, dims.len() as int) =~= dims);
    } else {
        lemma_linear_room(dims, idx, k - 1);
        lemma_suffix_step(dims, k - 1);
        lemma_suffix_nonneg(dims, k);
        let i = idx[k - 1] as int;
        let d = dims[k - 1] as int;
        let s = suffix_product(dims, k);
        assert(i < d);
        assert(i * s <= (d - 1) * s) by (nonlinear_arith)
            requires
                0 <= i < d,
                s >= 0,
        ;
        assert((d - 1) * s == d * s - s) by (nonlinear_arith);
        assert(i * s >= 0) by (nonlinear_arith)
            requires
                i >= 0,
                s >= 0,
        ;
    }
}

proof fn lemma_suffix_nonneg(dims: Seq<usize>, k: int)
    ensures
        suffix_product(dims, k) >= 0,
{
    lemma_product_nonneg(dims.subrange(k, dims.len() as int));
}

/// With every index in range and the element count inside `usize`, each
/// stride fits and the walk from axis `k` ends at the full offset.
proof fn lemma_walk_completes(dims: Seq<usize>, idx: Seq<usize>, k: nat)
    requires
        in_bounds(dims, idx),
        product(dims) <= usize::MAX,
        k <= dims.len(),
    ensures
        offset_walk(dims, idx, k, linear_offset(dims, idx, k as int) as nat)
            == OffsetWalk::Offset(linear_offset(dims, idx, dims.len() as int) as nat),
    decreases dims.len() - k,
{
    lemma_linear_room(dims, idx, k as int);
    if k < dims.len() {
        lemma_linear_room(dims, idx, k + 1 as int);
        lemma_suffix_nonneg(dims, k + 1 as int);
        lemma_walk_completes(dims, idx, k + 1);
    }
}

/// Strides of a shape with no zero axis never exceed its element count.
proof fn lemma_strides_fit_of_product(dims: Seq<usize>)
    requires
        forall|k: int| 0 <= k < dims.len() ==> #[trigger] dims[k] >= 1,
        product(dims) <= usize::MAX,
    ensures
        strides_fit(dims),
{
    assert forall|k: int| 1 <= k <= dims.len() implies #[trigger] suffix_product(dims, k) <= usize::MAX by {
        lemma_product_split(dims, k);
        assert(dims.skip(k) =~= dims.subrange(k, dims.len() as int));
        lemma_prefix_positive(dims.take(k));
        lemma_suffix_nonneg(dims, k);
        let p = product(dims.take(k));
        let s = suffix_product(dims, k);
        assert(s <= p * s) by (nonlinear_arith)
            requires
                p >= 1,
                s >= 0,
        ;
    }
}

proof fn lemma_prefix_positive(dims: Seq<usize>)
    requires
        forall|k: int| 0 <= k < dims.len() ==> #[trigger] dims[k] >= 1,
    ensures
        product(dims) >= 1,
    decreases dims.len(),
{
    if dims.len() > 0 {
        assert forall|k: int| 0 <= k < dims.drop_first().len() implies #[trigger] dims.drop_first()[k] >= 1 by {
            assert(dims.drop_first()[k] == dims[k + 1]);
        }
        lemma_prefix_positive(dims.drop_first());
        let a = dims[0] as int;
        let p = product(dims.drop_first());
        assert(a * p >= 1) by (nonlinear_arith)
            requires
                a >= 1,
                p >= 1,
        ;
    }
}

/// Row-major addressing stays inside the buffer: for a multi-index that is in
/// range on every axis of a shape whose element count fits in `usize`, the
/// offset walk succeeds, its result is `sum idx[k] * stride[k]`, and it is
/// smaller than the element count.
pub proof fn lemma_offset_in_buffer(dims: Seq<usize>, idx: Seq<usize>)
    requires
        in_bounds(dims, idx),
        product(dims) <= usize::MAX,
    ensures
        strides_fit(dims),
        offset_walk(dims, idx, 0, 0) == OffsetWalk::Offset(linear_offset(dims, idx, dims.len() as int) as nat),
        0 <= linear_offset(dims, idx, dims.len() as int) < product(dims),
{
    assert forall|k: int| 0 <= k < dims.len() implies #[trigger] dims[k] >= 1 by {
        assert(idx[k] < dims[k]);
    }
    lemma_strides_fit_of_product(dims);
    lemma_walk_completes(dims, idx, 0);
    lemma_linear_room(dims, idx, dims.len() as int);
    lemma_suffix_end(dims);
}

/// The axes from `k` up to `m` add less than the stride room of axis `k`.
proof fn lemma_tail_room(dims: Seq<usize>, idx: Seq<usize>, k: int, m: int)
    requires
        in_bounds(dims, idx),
        0 <= k <= m <= dims.len(),
    ensures
        0 <= linear_offset(dims, idx, m) - linear_offset(dims, idx, k),
        linear_offset(dims, idx, m) - linear_offset(dims, idx, k) + suffix_product(dims, m) <= suffix_product(dims, k),
    decreases m - k,
{
    if m > k {
        lemma_tail_room(dims, idx, k, m - 1);
        lemma_suffix_step(dims, m - 1);
        lemma_suffix_nonneg(dims, m);
        let i = idx[m - 1] as int;
        let d = dims[m - 1] as int;
        let s = suffix_product(dims, m);
        assert(i < d);
        assert(i * s + s <= d * s) by (nonlinear_arith)
            requires
                0 <= i < d,
                s >= 0,
        ;
        assert(i * s >= 0) by (nonlinear_arith)
            requires
                i >= 0,
                s >= 0,
        ;
    }
}

/// Indices that agree on the first `k` axes share the partial offset.
proof fn lemma_prefix_offset(dims: Seq<usize>, a: Seq<usize>, b: Seq<usize>, k: int)
    requires
        0 <= k <= a.len(),
        k <= b.len(),
        forall|q: int| 0 <= q < k ==> a[q] == b[q],
    ensures
        linear_offset(dims, a, k) == linear_offset(dims, b, k),
    decreases k,
{
    if k > 0 {
        lemma_prefix_offset(dims, a, b, k - 1);
    }
}

/// Row-major addressing is one-to-one: two different multi-indices that are
/// both in range never share an offset, so a write at one leaves a read at
/// the other unchanged.
pub proof fn lemma_offset_injective(dims: Seq<usize>, a: Seq<usize>, b: Seq<usize>)
    requires
        in_bounds(dims, a),
        in_bounds(dims, b),
        a != b,
    ensures
        linear_offset(dims, a, dims.len() as int) != linear_offset(dims, b, dims.len() as int),
{
    let n = dims.len() as int;
    assert(exists|q: int| 0 <= q < n && a[q] != b[q]) by {
        if forall|q: int| 0 <= q < n ==> a[q] == b[q] {
            assert(a =~= b);
        }
    }
    let k = choose|q: int| 0 <= q < n && a[q] != b[q] && forall|r: int| 0 <= r < q ==> a[r] == b[r];
    assert(exists|q: int| 0 <= q < n && a[q] != b[q] && forall|r: int| 0 <= r < q ==> a[r] == b[r]) by {
        let w = choose|q: int| 0 <= q < n && a[q] != b[q];
        lemma_first_difference(a, b, w);
    }
    lemma_prefix_offset(dims, a, b, k);
    lemma_tail_room(dims, a, k + 1, n);
    lemma_tail_room(dims, b, k + 1, n);
    lemma_suffix_end(dims);
    lemma_suffix_step(dims, k);
    assert forall|q: int| 0 <= q < n implies #[trigger] dims[q] >= 1 by {
        assert(a[q] < dims[q]);
    }
    lemma_prefix_positive(dims.subrange(k + 1, n));
    let s = suffix_product(dims, k + 1);
    let x = a[k] as int;
    let y = b[k] as int;
    assert(x != y);
    if x < y {
        assert(x * s + s <= y * s) by (nonlinear_arith)
            requires
                x < y,
                s >= 1,
        ;
    } else {
        assert(y * s + s <= x * s) by (nonlinear_arith)
            requires
                y < x,
                s >= 1,
        ;
    }
}

proof fn lemma_first_difference(a: Seq<usize>, b: Seq<usize>, w: int)
    requires
        0 <= w < a.len(),
        w < b.len(),
        a[w] != b[w],
    ensures
        exists|q: int| 0 <= q <= w && a[q] != b[q] && forall|r: int| 0 <= r < q ==> a[r] == b[r],
    decreases w,
{
    if exists|r: int| 0 <= r < w && a[r] != b[r] {
        let r = choose|r: int| 0 <= r < w && a[r] != b[r];
        lemma_first_difference(a, b, r);
    } else {
        assert(forall|r: int| 0 <= r < w ==> a[r] == b[r]);
    }
}

/// A one-axis shape holds its length, which always fits.
pub proof fn lemma_product_one(a: usize)
    ensures
        product(seq![a]) == a,
        product_fits(seq![a]),
{
    let d = seq![a];
    assert(d.drop_first() =~= Seq::<usize>::empty());
    assert(product(Seq::<usize>::empty()) == 1);
    assert(d[0] == a);
    assert(product(d) == a * 1);
    assert(d.take(0) =~= Seq::<usize>::empty());
    assert(d.take(1) =~= d);
    assert forall|k: int| 0 <= k <= d.len() implies #[trigger] product(d.take(k)) <= usize::MAX by {
        if k == 0 {
            assert(product(d.take(0)) == 1);
        } else {
            assert(product(d.take(1)) == a);
        }
    }
}

/// A two-axis shape holds `a * b` elements; it fits when that product does.
pub proof fn lemma_product_two(a: usize, b: usize)
    ensures
        product(seq![a, b]) == a * b,
        a * b <= usize::MAX ==> product_fits(seq![a, b]),
{
    let d = seq![a, b];
    assert(d.drop_first() =~= seq![b]);
    lemma_product_one(b);
    lemma_product_one(a);
    assert(d.take(0) =~= Seq::<usize>::empty());
    assert(d.take(1) =~= seq![a]);
    assert(d.take(2) =~= d);
    assert(d[0] == a);
    assert(product(d) == a * product(seq![b]));
    if a * b <= usize::MAX {
        assert forall|k: int| 0 <= k <= d.len() implies #[trigger] product(d.take(k)) <= usize::MAX by {
            if k == 0 {
                assert(product(d.take(0)) == 1);
            } else if k == 1 {
                assert(product(d.take(1)) == a);
            } else {
                assert(product(d.take(2)) == a * b);
            }
        }
    }
}

// ---------------------------------------------------------------------------
// Shape
// ---------------------------------------------------------------------------

/// Ordered list of dimension sizes (`[rows, cols]` for a matrix).
///
/// Rank is at least 1 (scalars are `[1]`); individual dimensions may be zero.
#[derive(Debug, Clone, PartialEq, Eq, Hash)]
pub struct Shape {
    dims: Vec<usize>,
}

/// `[d0, d1, ...]`, as the shape is displayed in error messages.
pub open spec fn dims_text(dims: Seq<usize>) -> Seq<char> {
    "["@ + dims_list_text(dims) + "]"@
}

/// Dimensions in decimal, separated by `", "`.
pub open spec fn dims_list_text(dims: Seq<usize>) -> Seq<char>
    decreases dims.len(),
{
    if dims.len() == 0 {
        Seq::empty()
    } else if dims.len() == 1 {
        decimal(dims[0] as nat)
    } else {
        dims_list_text(dims.drop_last()) + ", "@ + decimal(dims.last() as nat)
    }
}

impl Shape {
    /// The dimensions.
    pub closed spec fn dims(&self) -> Seq<usize> {
        self.dims@
    }

    /// Shapes always have rank at least 1.
    pub closed spec fn wf(&self) -> bool {
        self.dims@.len() >= 1
    }

    /// A well-formed shape has at least one axis.
    pub proof fn lemma_wf(&self)
        ensures
            self.wf() <==> self.dims().len() >= 1,
    {
    }

    /// Construct a shape from dimension sizes.
    ///
    /// Fails with [`TensorError::InvalidShape`] exactly when `dims` is empty.
    pub fn new(dims: Vec<usize>) -> (res: Result<Self, PhalanxError>)
        ensures
            dims@.len() == 0 ==> (res matches Err(PhalanxError::Tensor(e)) && e@
                == TensorFault::InvalidShape),
            dims@.len() > 0 ==> (res matches Ok(s) && s.dims() == dims@ && s.wf()),
    {
        if dims.len() == 0 {
            return Err(
                PhalanxError::Tensor(
                    TensorError::InvalidShape {
                        reason: "shape must have rank >= 1 (use [1] for a scalar)".to_owned(),
                    },
                ),
            );
        }
        Ok(Shape { dims })
    }

    /// Rank (number of dimensions).
    pub fn rank(&self) -> (r: usize)
        ensures
            r == self.dims().len(),
    {
        self.dims.len()
    }

    /// Total number of elements (`0` if any dimension is zero).
    pub fn numel(&self) -> (n: usize)
        requires
            product_fits(self.dims()),
        ensures
            n == product(self.dims()),
    {
        let mut acc: usize = 1;
        let mut i: usize = 0;
        assert(self.dims@.take(0) =~= Seq::<usize>::empty());
        while i < self.dims.len()
            invariant
                i <= self.dims@.len(),
                product_fits(self.dims@),
                acc == product(self.dims@.take(i as int)),
            decreases self.dims@.len() - i,
        {
            proof {
                assert(self.dims@.take(i + 1) =~= self.dims@.take(i as int).push(self.dims@[i as int]));
                lemma_product_push(self.dims@.take(i as int), self.dims@[i as int]);
                assert(product(self.dims@.take(i + 1)) <= usize::MAX);
            }
            acc = acc * self.dims[i];
            i = i + 1;
        }
        assert(self.dims@.take(i as int) =~= self.dims@);
        acc
    }

    /// Element count, or `None` when multiplying the dimensions left to right
    /// leaves `usize`.
    pub fn checked_numel(&self) -> (res: Option<usize>)
        ensures
            res is Some <==> product_fits(self.dims()),
            res matches Some(n) ==> n == product(self.dims()),
    {
        let mut acc: usize = 1;
        let mut i: usize = 0;
        assert(self.dims@.take(0) =~= Seq::<usize>::empty());
        while i < self.dims.len()
            invariant
                i <= self.dims@.len(),
                acc == product(self.dims@.take(i as int)),
                forall|k: int| 0 <= k <= i ==> #[trigger] product(self.dims@.take(k)) <= usize::MAX,
            decreases self.dims@.len() - i,
        {
            proof {
                assert(self.dims@.take(i + 1) =~= self.dims@.take(i as int).push(self.dims@[i as int]));
                lemma_product_push(self.dims@.take(i as int), self.dims@[i as int]);
            }
            match acc.checked_mul(self.dims[i]) {
                Some(next) => {
                    acc = next;
                },
                None => {
                    assert(!product_fits(self.dims@)) by {
                        assert(product(self.dims@.take(i + 1)) > usize::MAX);
                    }
                    return None;
                },
            }
            i = i + 1;
        }
        assert(self.dims@.take(i as int) =~= self.dims@);
        Some(acc)
    }

    /// Borrow the raw dimension slice.
    pub fn as_slice(&self) -> (s: &[usize])
        ensures
            s@ == self.dims(),
    {
        self.dims.as_slice()
    }

    /// Row-major (C-order) strides for a dense contiguous layout.
    ///
    /// For shape `[2, 3, 4]` strides are `[12, 4, 1]`. Fails with
    /// [`TensorError::InvalidShape`] exactly when a stride overflows `usize`.
    pub fn row_major_strides(&self) -> (res: Result<Vec<usize>, PhalanxError>)
        requires
            self.wf(),
        ensures
            strides_fit(self.dims()) ==> (res matches Ok(s) && s@.len() == self.dims().len()
                && forall|i: int| 0 <= i < s@.len() ==> s@[i] == #[trigger] row_major(self.dims())[i]),
            !strides_fit(self.dims()) ==> (res matches Err(PhalanxError::Tensor(e)) && e@
                == TensorFault::InvalidShape),
    {
        let rank = self.dims.len();
        let mut strides: Vec<usize> = Vec::new();
        let mut k: usize = 0;
        while k < rank
            invariant
                k <= rank,
                rank == self.dims@.len(),
                strides@.len() == k,
                forall|j: int| 0 <= j < k ==> strides@[j] == 1,
            decreases rank - k,
        {
            strides.push(1);
            k = k + 1;
        }
        proof {
            lemma_suffix_end(self.dims@);
        }
        let mut i: usize = rank - 1;
        // strides[j] for j >= i are final; strides[rank - 1] = 1.
        while i > 0
            invariant
                0 <= i < rank,
                rank == self.dims@.len(),
                strides@.len() == rank,
                forall|j: int| i <= j < rank ==> strides@[j] == suffix_product(self.dims@, j + 1),
                forall|k: int| i + 1 <= k <= rank ==> #[trigger] suffix_product(self.dims@, k) <= usize::MAX,
            decreases i,
        {
            i = i - 1;
            proof {
                lemma_suffix_step(self.dims@, i + 1);
            }
            match strides[i + 1].checked_mul(self.dims[i + 1]) {
                Some(s) => {
                    proof {
                        let a = strides@[i + 1] as int;
                        let b = self.dims@[i + 1] as int;
                        assert(b * a == a * b) by (nonlinear_arith);
                    }
                    strides.set(i, s);
                },
                None => {
                    proof {
                        assert(suffix_product(self.dims@, i + 1) == self.dims@[i + 1] * suffix_product(self.dims@, i + 2));
                        assert(strides@[i + 1] == suffix_product(self.dims@, i + 2));
                        let a = strides@[i + 1] as int;
                        let b = self.dims@[i + 1] as int;
                        assert(a * b > usize::MAX);
                        assert(b * a == a * b) by (nonlinear_arith);
                        assert(suffix_product(self.dims@, i + 1) > usize::MAX);
                        assert(!strides_fit(self.dims@));
                    }
                    let mut reason = "stride overflow at axis ".to_owned();
                    reason.append(decimal_string(i as u64).as_str());
                    reason.append(" for shape ");
                    reason.append(self.display_text().as_str());
                    return Err(PhalanxError::Tensor(TensorError::InvalidShape { reason }));
                },
            }
        }
        assert forall|k: int| 1 <= k <= self.dims@.len() implies #[trigger] suffix_product(self.dims@, k) <= usize::MAX by {}
        Ok(strides)
    }

    /// Linear offset of a multi-index into a contiguous row-major buffer.
    ///
    /// Fails with [`TensorError::RankMismatch`] when the index has the wrong
    /// rank, with [`TensorError::InvalidShape`] when a stride or the running
    /// offset overflows `usize`, and with [`TensorError::IndexOutOfBounds`] at
    /// the first axis whose index is past its dimension.
    pub fn offset(&self, indices: &[usize]) -> (res: Result<usize, PhalanxError>)
        requires
            self.wf(),
        ensures
            indices@.len() != self.dims().len() ==> (res matches Err(PhalanxError::Tensor(e))
                && e@ == (TensorFault::RankMismatch {
                expected: self.dims().len() as usize,
                got: indices@.len() as usize,
            })),
            indices@.len() == self.dims().len() && !strides_fit(self.dims()) ==> (res matches Err(
                PhalanxError::Tensor(e),
            ) && e@ == TensorFault::InvalidShape),
            indices@.len() == self.dims().len() && strides_fit(self.dims()) ==> offset_answer(
                self.dims(),
                indices@,
                res,
            ),
    {
        if indices.len() != self.rank() {
            return Err(
                PhalanxError::Tensor(
                    TensorError::RankMismatch { expected: self.rank(), got: indices.len() },
                ),
            );
        }
        let strides = match self.row_major_strides() {
            Ok(s) => s,
            Err(e) => {
                return Err(e);
            },
        };
        let ghost dims = self.dims@;
        let ghost idx = indices@;
        let mut offset: usize = 0;
        let mut axis: usize = 0;
        while axis < indices.len()
            invariant
                dims == self.dims@,
                idx == indices@,
                idx.len() == dims.len(),
                axis <= dims.len(),
                strides_fit(dims),
                strides@.len() == dims.len(),
                forall|j: int| 0 <= j < strides@.len() ==> strides@[j] == #[trigger] row_major(dims)[j],
                offset_walk(dims, idx, 0, 0) == offset_walk(dims, idx, axis as nat, offset as nat),
            decreases dims.len() - axis,
        {
            let index = indices[axis];
            let dim = self.dims[axis];
            let stride = strides[axis];
            assert(stride == row_major(dims)[axis as int]);
            if index >= dim {
                return Err(
                    PhalanxError::Tensor(TensorError::IndexOutOfBounds { axis, index, dim }),
                );
            }
            let delta = match index.checked_mul(stride) {
                Some(d) => d,
                None => {
                    return Err(self.offset_overflow(axis));
                },
            };
            offset = match offset.checked_add(delta) {
                Some(o) => o,
                None => {
                    return Err(self.offset_overflow(axis));
                },
            };
            axis = axis + 1;
        }
        Ok(offset)
    }

    /// The error for an offset that leaves `usize` at `axis`.
    fn offset_overflow(&self, axis: usize) -> (e: PhalanxError)
        ensures
            e matches PhalanxError::Tensor(t) && t@ == TensorFault::InvalidShape,
            e matches PhalanxError::Tensor(TensorError::InvalidShape { reason }) && reason@
                == "offset overflow at axis "@ + decimal(axis as nat) + " for shape "@ + dims_text(self.dims()),
    {
        let mut reason = "offset overflow at axis ".to_owned();
        reason.append(decimal_string(axis as u64).as_str());
        reason.append(" for shape ");
        reason.append(self.display_text().as_str());
        PhalanxError::Tensor(TensorError::InvalidShape { reason })
    }

    /// Element-wise kernels need two operands of one shape.
    ///
    /// Fails with [`TensorError::ShapeMismatch`] (`expected` this shape,
    /// `got` the other, as [`Shape::display_text`] prints them) exactly when
    /// the dimensions differ.
    pub fn check_same(&self, other: &Shape) -> (res: Result<(), PhalanxError>)
        ensures
            self.dims() == other.dims() ==> res is Ok,
            self.dims() != other.dims() ==> (res matches Err(PhalanxError::Tensor(TensorError::ShapeMismatch {
                expected,
                got,
            })) && expected@ == dims_text(self.dims()) && got@ == dims_text(other.dims())),
    {
        let a = self.dims.as_slice();
        let b = other.dims.as_slice();
        let mut same = a.len() == b.len();
        let mut i: usize = 0;
        while same && i < a.len()
            invariant
                i <= a@.len(),
                a@ == self.dims(),
                b@ == other.dims(),
                same ==> a@.len() == b@.len(),
                same ==> forall|k: int| 0 <= k < i ==> a@[k] == b@[k],
                !same ==> a@ != b@,
            decreases a@.len() - i,
        {
            if a[i] != b[i] {
                same = false;
            }
            i = i + 1;
        }
        if same {
            assert(a@ =~= b@);
            Ok(())
        } else {
            Err(PhalanxError::Tensor(TensorError::ShapeMismatch { expected: self.display_text(), got: other.display_text() }))
        }
    }

    /// `(m, k, n)` of a matrix product `[m, k] × [k, n]`.
    ///
    /// Fails with [`TensorError::RankMismatch`] when this shape, then the
    /// other, is not rank 2, and with [`TensorError::MatMulIncompatible`]
    /// (both shapes as [`Shape::display_text`] prints them) when the inner
    /// dimensions differ.
    pub fn matmul_dims(&self, rhs: &Shape) -> (res: Result<(usize, usize, usize), PhalanxError>)
        ensures
            self.dims().len() != 2 ==> (res matches Err(PhalanxError::Tensor(e)) && e@ == (TensorFault::RankMismatch {
                expected: 2,
                got: self.dims().len() as usize,
            })),
            self.dims().len() == 2 && rhs.dims().len() != 2 ==> (res matches Err(PhalanxError::Tensor(e)) && e@
                == (TensorFault::RankMismatch { expected: 2, got: rhs.dims().len() as usize })),
            self.dims().len() == 2 && rhs.dims().len() == 2 && self.dims()[1] != rhs.dims()[0] ==> (res matches Err(
                PhalanxError::Tensor(TensorError::MatMulIncompatible { lhs, rhs: r }),
            ) && lhs@ == dims_text(self.dims()) && r@ == dims_text(rhs.dims())),
            self.dims().len() == 2 && rhs.dims().len() == 2 && self.dims()[1] == rhs.dims()[0] ==> res == Ok::<
                (usize, usize, usize),
                PhalanxError,
            >((self.dims()[0], self.dims()[1], rhs.dims()[1])),
    {
        if self.dims.len() != 2 {
            return Err(PhalanxError::Tensor(TensorError::RankMismatch { expected: 2, got: self.dims.len() }));
        }
        if rhs.dims.len() != 2 {
            return Err(PhalanxError::Tensor(TensorError::RankMismatch { expected: 2, got: rhs.dims.len() }));
        }
        if self.dims[1] != rhs.dims[0] {
            return Err(
                PhalanxError::Tensor(TensorError::MatMulIncompatible { lhs: self.display_text(), rhs: rhs.display_text() }),
            );
        }
        Ok((self.dims[0], self.dims[1], rhs.dims[1]))
    }

    /// `[d0, d1, ...]`: the shape as error messages print it.
    pub fn display_text(&self) -> (res: String)
        ensures
            res@ == dims_text(self.dims()),
    {
        let mut out = "[".to_owned();
        let mut i: usize = 0;
        while i < self.dims.len()
            invariant
                i <= self.dims@.len(),
                out@ == "["@ + dims_list_text(self.dims@.take(i as int)),
            decreases self.dims@.len() - i,
        {
            if i > 0 {
                out.append(", ");
            }
            out.append(decimal_string(self.dims[i] as u64).as_str());
            proof {
                assert(self.dims@.take(i + 1).drop_last() =~= self.dims@.take(i as int));
            }
            i = i + 1;
        }
        out.append("]");
        assert(self.dims@.take(i as int) =~= self.dims@);
        out
    }
}

} // verus!
