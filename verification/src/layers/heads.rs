//! Head layouts for attention: splitting `[B·S, H·d]` projections into
//! per-head `[B, H, S, d]` blocks, merging them back, and repeating KV heads
//! for grouped-query attention. Pure index permutations on row-major data.

use vstd::prelude::*;

use vstd::arithmetic::div_mod::{lemma_fundamental_div_mod, lemma_fundamental_div_mod_converse};

verus! {

/// Row-major offset of `(a, b, c, d)` in a `[_, n1, n2, n3]` array.
pub open spec fn flat4(a: int, b: int, c: int, d: int, n1: int, n2: int, n3: int) -> int {
    ((a * n1 + b) * n2 + c) * n3 + d
}

/// Multi-index of offset `p` in a `[_, n1, n2, n3]` array.
pub open spec fn split4(p: int, n1: int, n2: int, n3: int) -> (int, int, int, int) {
    let q3 = p / n3;
    let q2 = q3 / n2;
    (q2 / n1, q2 % n1, q3 % n2, p % n3)
}

/// Splitting an in-range offset gives an in-range multi-index that points
/// back at the offset.
pub proof fn lemma_split4(p: int, n0: int, n1: int, n2: int, n3: int)
    requires
        n0 > 0 && n1 > 0 && n2 > 0 && n3 > 0,
        0 <= p < n0 * n1 * n2 * n3,
    ensures
        ({
            let (a, b, c, d) = split4(p, n1, n2, n3);
            &&& 0 <= a < n0 && 0 <= b < n1 && 0 <= c < n2 && 0 <= d < n3
            &&& flat4(a, b, c, d, n1, n2, n3) == p
        }),
{
    let q3 = p / n3;
    let q2 = q3 / n2;
    lemma_fundamental_div_mod(p, n3);
    lemma_fundamental_div_mod(q3, n2);
    lemma_fundamental_div_mod(q2, n1);
    assert(0 <= p % n3 < n3);
    assert(0 <= q3 % n2 < n2);
    assert(0 <= q2 % n1 < n1);
    assert(q3 >= 0) by (nonlinear_arith)
        requires
            p >= 0,
            n3 > 0,
            q3 == p / n3,
    ;
    assert(q2 >= 0) by (nonlinear_arith)
        requires
            q3 >= 0,
            n2 > 0,
            q2 == q3 / n2,
    ;
    assert(q2 / n1 >= 0) by (nonlinear_arith)
        requires
            q2 >= 0,
            n1 > 0,
    ;
    assert(q2 / n1 < n0) by (nonlinear_arith)
        requires
            p == n3 * q3 + p % n3,
            q3 == n2 * q2 + q3 % n2,
            q2 == n1 * (q2 / n1) + q2 % n1,
            0 <= p % n3,
            0 <= q3 % n2,
            0 <= q2 % n1,
            p < n0 * n1 * n2 * n3,
            n1 > 0,
            n2 > 0,
            n3 > 0,
    ;
    assert(flat4(q2 / n1, q2 % n1, q3 % n2, p % n3, n1, n2, n3) == p) by (nonlinear_arith)
        requires
            p == n3 * q3 + p % n3,
            q3 == n2 * q2 + q3 % n2,
            q2 == n1 * (q2 / n1) + q2 % n1,
    ;
}

/// An in-range multi-index has an in-range offset.
pub proof fn lemma_flat4_bound(a: int, b: int, c: int, d: int, n0: int, n1: int, n2: int, n3: int)
    requires
        0 <= a < n0 && 0 <= b < n1 && 0 <= c < n2 && 0 <= d < n3,
    ensures
        0 <= a * n1 + b < n0 * n1,
        0 <= (a * n1 + b) * n2 + c < n0 * n1 * n2,
        0 <= flat4(a, b, c, d, n1, n2, n3) < n0 * n1 * n2 * n3,
        n0 * n1 <= n0 * n1 * n2 * n3,
        n0 * n1 * n2 <= n0 * n1 * n2 * n3,
{
    assert(0 <= a * n1 + b < n0 * n1) by (nonlinear_arith)
        requires
            0 <= a < n0,
            0 <= b < n1,
    ;
    assert(0 <= (a * n1 + b) * n2 + c < n0 * n1 * n2) by (nonlinear_arith)
        requires
            0 <= a * n1 + b < n0 * n1,
            0 <= c < n2,
    ;
    assert(0 <= ((a * n1 + b) * n2 + c) * n3 + d < n0 * n1 * n2 * n3) by (nonlinear_arith)
        requires
            0 <= (a * n1 + b) * n2 + c < n0 * n1 * n2,
            0 <= d < n3,
    ;
    assert(n0 * n1 <= n0 * n1 * n2 * n3) by (nonlinear_arith)
        requires
            n0 * n1 > 0,
            n2 >= 1,
            n3 >= 1,
    ;
    assert(n0 * n1 * n2 <= n0 * n1 * n2 * n3) by (nonlinear_arith)
        requires
            n0 * n1 * n2 > 0,
            n3 >= 1,
    ;
}

/// Splitting the offset of an in-range multi-index gives the multi-index.
pub proof fn lemma_split_flat4(a: int, b: int, c: int, d: int, n1: int, n2: int, n3: int)
    requires
        0 <= a && 0 <= b < n1 && 0 <= c < n2 && 0 <= d < n3,
    ensures
        split4(flat4(a, b, c, d, n1, n2, n3), n1, n2, n3) == (a, b, c, d),
{
    let x = a * n1 + b;
    let y = x * n2 + c;
    let p = y * n3 + d;
    assert(x >= 0 && y >= 0) by (nonlinear_arith)
        requires
            0 <= a,
            0 <= b < n1,
            0 <= c < n2,
            x == a * n1 + b,
            y == x * n2 + c,
    ;
    lemma_fundamental_div_mod_converse(p, n3, y, d);
    lemma_fundamental_div_mod_converse(y, n2, x, c);
    lemma_fundamental_div_mod_converse(x, n1, a, b);
}

/// Per-head layout `[B, H, S, d]` of a `[B·S, H·d]` projection.
pub open spec fn split_heads<T>(data: Seq<T>, batch: int, seq: int, heads: int, head_dim: int) -> Seq<T> {
    Seq::new(
        (batch * heads * seq * head_dim) as nat,
        |p: int|
            {
                let (b, h, s, d) = split4(p, heads, seq, head_dim);
                data[flat4(b, s, h, d, seq, heads, head_dim)]
            },
    )
}

/// `[B·S, H·d]` layout of per-head `[B, H, S, d]` data.
pub open spec fn joined_heads<T>(data: Seq<T>, batch: int, heads: int, seq: int, head_dim: int) -> Seq<T> {
    Seq::new(
        (batch * seq * heads * head_dim) as nat,
        |p: int|
            {
                let (b, s, h, d) = split4(p, seq, heads, head_dim);
                data[flat4(b, h, s, d, heads, seq, head_dim)]
            },
    )
}

/// KV heads repeated for GQA: query head `h` reads KV head `h / groups`.
pub open spec fn repeated_kv<T>(kv: Seq<T>, batch: int, seq: int, num_heads: int, num_kv: int, head_dim: int) -> Seq<T> {
    if num_heads == num_kv {
        kv
    } else {
        let groups = num_heads / num_kv;
        Seq::new(
            (batch * num_heads * seq * head_dim) as nat,
            |p: int|
                {
                    let (b, h, s, d) = split4(p, num_heads, seq, head_dim);
                    kv[flat4(b, h / groups, s, d, num_kv, seq, head_dim)]
                },
        )
    }
}

/// Split a row-major `[B·S, H·d]` projection into per-head `[B, H, S, d]`
/// blocks.
pub fn reshape_heads<T: Copy>(data: &[T], batch: usize, seq: usize, heads: usize, head_dim: usize) -> (res: Vec<T>)
    requires
        data@.len() == batch * seq * heads * head_dim,
    ensures
        res@ == split_heads(data@, batch as int, seq as int, heads as int, head_dim as int),
{
    let total = data.len();
    proof {
        assert(batch * heads * seq * head_dim == batch * seq * heads * head_dim) by (nonlinear_arith);
    }
    let mut out: Vec<T> = Vec::new();
    let mut p: usize = 0;
    while p < total
        invariant
            total == data@.len(),
            total == batch * heads * seq * head_dim,
            total == batch * seq * heads * head_dim,
            p <= total,
            out@.len() == p,
            forall|q: int| 0 <= q < p ==> #[trigger] out@[q] == split_heads(data@, batch as int, seq as int, heads as int, head_dim as int)[q],
        decreases total - p,
    {
        proof {
            assert(batch > 0 && heads > 0 && seq > 0 && head_dim > 0) by (nonlinear_arith)
                requires
                    0 <= p < batch * heads * seq * head_dim,
            ;
            lemma_split4(p as int, batch as int, heads as int, seq as int, head_dim as int);
        }
        let q3 = p / head_dim;
        let d = p % head_dim;
        let q2 = q3 / seq;
        let s = q3 % seq;
        let b = q2 / heads;
        let h = q2 % heads;
        proof {
            lemma_flat4_bound(b as int, s as int, h as int, d as int, batch as int, seq as int, heads as int, head_dim as int);
        }
        let src = ((b * seq + s) * heads + h) * head_dim + d;
        out.push(data[src]);
        p = p + 1;
    }
    assert(out@ =~= split_heads(data@, batch as int, seq as int, heads as int, head_dim as int));
    out
}

/// Merge per-head `[B, H, S, d]` blocks back into row-major `[B·S, H·d]`.
pub fn merge_heads<T: Copy>(data: &[T], batch: usize, heads: usize, seq: usize, head_dim: usize) -> (res: Vec<T>)
    requires
        data@.len() == batch * heads * seq * head_dim,
    ensures
        res@ == joined_heads(data@, batch as int, heads as int, seq as int, head_dim as int),
{
    let total = data.len();
    proof {
        assert(batch * seq * heads * head_dim == batch * heads * seq * head_dim) by (nonlinear_arith);
    }
    let mut out: Vec<T> = Vec::new();
    let mut p: usize = 0;
    while p < total
        invariant
            total == data@.len(),
            total == batch * seq * heads * head_dim,
            total == batch * heads * seq * head_dim,
            p <= total,
            out@.len() == p,
            forall|q: int| 0 <= q < p ==> #[trigger] out@[q] == joined_heads(data@, batch as int, heads as int, seq as int, head_dim as int)[q],
        decreases total - p,
    {
        proof {
            assert(batch > 0 && heads > 0 && seq > 0 && head_dim > 0) by (nonlinear_arith)
                requires
                    0 <= p < batch * seq * heads * head_dim,
            ;
            lemma_split4(p as int, batch as int, seq as int, heads as int, head_dim as int);
        }
        let q3 = p / head_dim;
        let d = p % head_dim;
        let q2 = q3 / heads;
        let h = q3 % heads;
        let b = q2 / seq;
        let s = q2 % seq;
        proof {
            lemma_flat4_bound(b as int, h as int, s as int, d as int, batch as int, heads as int, seq as int, head_dim as int);
        }
        let src = ((b * heads + h) * seq + s) * head_dim + d;
        out.push(data[src]);
        p = p + 1;
    }
    assert(out@ =~= joined_heads(data@, batch as int, heads as int, seq as int, head_dim as int));
    out
}

/// Repeat KV heads for grouped-query attention: with `H` query heads and
/// `H_kv` KV heads, query head `h` reads KV head `h / (H / H_kv)`; with
/// `H == H_kv` the data is copied unchanged.
pub fn expand_kv<T: Copy>(kv: &[T], batch: usize, seq: usize, num_heads: usize, num_kv: usize, head_dim: usize) -> (res: Vec<T>)
    requires
        kv@.len() == batch * num_kv * seq * head_dim,
        num_kv > 0,
        num_heads >= num_kv,
        num_heads % num_kv == 0,
        batch * num_heads <= usize::MAX,
        batch * num_heads * seq <= usize::MAX,
        batch * num_heads * seq * head_dim <= usize::MAX,
    ensures
        res@ == repeated_kv(kv@, batch as int, seq as int, num_heads as int, num_kv as int, head_dim as int),
{
    if num_heads == num_kv {
        let mut same: Vec<T> = Vec::new();
        let mut i: usize = 0;
        while i < kv.len()
            invariant
                i <= kv@.len(),
                same@ == kv@.take(i as int),
            decreases kv@.len() - i,
        {
            proof {
                assert(kv@.take(i + 1) =~= kv@.take(i as int).push(kv@[i as int]));
            }
            same.push(kv[i]);
            i = i + 1;
        }
        assert(kv@.take(i as int) =~= kv@);
        return same;
    }
    let groups = num_heads / num_kv;
    proof {
        assert(groups >= 1) by (nonlinear_arith)
            requires
                num_heads >= num_kv,
                num_kv > 0,
                groups == num_heads / num_kv,
        ;
    }
    let total: usize = batch * num_heads * seq * head_dim;
    let kv_len = kv.len();
    assert(kv_len == batch * num_kv * seq * head_dim);
    let ghost expected = repeated_kv(kv@, batch as int, seq as int, num_heads as int, num_kv as int, head_dim as int);
    let mut out: Vec<T> = Vec::new();
    let mut p: usize = 0;
    while p < total
        invariant
            total == batch * num_heads * seq * head_dim,
            kv@.len() == batch * num_kv * seq * head_dim,
            batch * num_kv * seq * head_dim <= usize::MAX,
            groups == num_heads / num_kv,
            groups >= 1,
            num_kv > 0,
            num_heads % num_kv == 0,
            num_heads != num_kv,
            expected == repeated_kv(kv@, batch as int, seq as int, num_heads as int, num_kv as int, head_dim as int),
            p <= total,
            out@.len() == p,
            forall|q: int| 0 <= q < p ==> #[trigger] out@[q] == expected[q],
        decreases total - p,
    {
        proof {
            assert(batch > 0 && num_heads > 0 && seq > 0 && head_dim > 0) by (nonlinear_arith)
                requires
                    0 <= p < batch * num_heads * seq * head_dim,
            ;
            lemma_split4(p as int, batch as int, num_heads as int, seq as int, head_dim as int);
        }
        let q3 = p / head_dim;
        let d = p % head_dim;
        let q2 = q3 / seq;
        let s = q3 % seq;
        let b = q2 / num_heads;
        let h = q2 % num_heads;
        let kv_h = h / groups;
        proof {
            assert(groups * num_kv == num_heads) by (nonlinear_arith)
                requires
                    groups == num_heads / num_kv,
                    num_heads % num_kv == 0,
                    num_kv > 0,
            ;
            assert(kv_h < num_kv) by (nonlinear_arith)
                requires
                    h < num_heads,
                    groups * num_kv == num_heads,
                    groups >= 1,
                    num_kv > 0,
                    kv_h == h / groups,
            ;
            lemma_flat4_bound(b as int, kv_h as int, s as int, d as int, batch as int, num_kv as int, seq as int, head_dim as int);
        }
        let src = ((b * num_kv + kv_h) * seq + s) * head_dim + d;
        out.push(kv[src]);
        p = p + 1;
    }
    assert(out@ =~= expected);
    out
}

/// Merging undoes splitting: the per-head layout, merged, is the original
/// projection.
pub proof fn lemma_merge_split_heads<T>(data: Seq<T>, batch: int, seq: int, heads: int, head_dim: int)
    requires
        batch >= 0 && seq >= 0 && heads >= 0 && head_dim >= 0,
        data.len() == batch * seq * heads * head_dim,
    ensures
        joined_heads(split_heads(data, batch, seq, heads, head_dim), batch, heads, seq, head_dim) == data,
{
    let sp = split_heads(data, batch, seq, heads, head_dim);
    let jn = joined_heads(sp, batch, heads, seq, head_dim);
    assert(batch * seq * heads * head_dim == batch * heads * seq * head_dim) by (nonlinear_arith);
    assert forall|p: int| 0 <= p < data.len() implies #[trigger] jn[p] == data[p] by {
        assert(batch > 0 && heads > 0 && seq > 0 && head_dim > 0) by (nonlinear_arith)
            requires
                0 <= p < batch * seq * heads * head_dim,
                batch >= 0 && seq >= 0 && heads >= 0 && head_dim >= 0,
        ;
        lemma_split4(p, batch, seq, heads, head_dim);
        let (b, s, h, d) = split4(p, seq, heads, head_dim);
        let q = flat4(b, h, s, d, heads, seq, head_dim);
        lemma_flat4_bound(b, h, s, d, batch, heads, seq, head_dim);
        lemma_split_flat4(b, h, s, d, heads, seq, head_dim);
        assert(jn[p] == sp[q]);
        assert(sp[q] == data[flat4(b, s, h, d, seq, heads, head_dim)]);
    }
    assert(jn =~= data);
}

} // verus!
