use phalanx::layers::heads::{expand_kv, merge_heads, reshape_heads};
use phalanx::tensor::{DType, Shape, Tensor, TensorError};
use phalanx::PhalanxError;

#[test]
fn f32_size_matches_rust() {
    assert_eq!(DType::F32.size_of(), std::mem::size_of::<f32>());
}

#[test]
fn dtype_name_is_f32() {
    assert_eq!(DType::F32.name(), "f32");
}

#[test]
fn rejects_empty_dims() {
    let err = Shape::new(vec![]).unwrap_err();
    assert!(matches!(err, PhalanxError::Tensor(_)));
}

#[test]
fn numel_and_strides_for_matrix() {
    let shape = Shape::new(vec![2, 3]).unwrap();
    assert_eq!(shape.numel(), 6);
    assert_eq!(shape.row_major_strides().unwrap(), vec![3, 1]);
}

#[test]
fn numel_and_strides_for_3d() {
    let shape = Shape::new(vec![2, 3, 4]).unwrap();
    assert_eq!(shape.numel(), 24);
    assert_eq!(shape.row_major_strides().unwrap(), vec![12, 4, 1]);
}

#[test]
fn offset_matches_row_major_formula() {
    let shape = Shape::new(vec![2, 3]).unwrap();
    // index (1, 2) → 1*3 + 2 = 5
    assert_eq!(shape.offset(&[1, 2]).unwrap(), 5);
}

#[test]
fn zero_dim_yields_zero_numel() {
    let shape = Shape::new(vec![4, 0, 3]).unwrap();
    assert_eq!(shape.numel(), 0);
}

#[test]
fn offset_rank_mismatch_is_typed() {
    let shape = Shape::new(vec![2, 3]).unwrap();
    let err = shape.offset(&[1]).unwrap_err();
    assert!(matches!(
        err,
        PhalanxError::Tensor(TensorError::RankMismatch { expected: 2, got: 1 })
    ));
}

#[test]
fn offset_out_of_bounds_names_first_bad_axis() {
    let shape = Shape::new(vec![2, 3]).unwrap();
    let err = shape.offset(&[1, 3]).unwrap_err();
    assert!(matches!(
        err,
        PhalanxError::Tensor(TensorError::IndexOutOfBounds { axis: 1, index: 3, dim: 3 })
    ));
}

#[test]
fn last_offset_is_numel_minus_one() {
    let shape = Shape::new(vec![2, 3, 4]).unwrap();
    assert_eq!(shape.offset(&[1, 2, 3]).unwrap(), 23);
    assert_eq!(shape.offset(&[0, 0, 0]).unwrap(), 0);
}

#[test]
fn stride_overflow_is_invalid_shape() {
    let shape = Shape::new(vec![1, usize::MAX, 2]).unwrap();
    let err = shape.row_major_strides().unwrap_err();
    assert!(matches!(err, PhalanxError::Tensor(TensorError::InvalidShape { .. })));
}

#[test]
fn shape_display_text() {
    let shape = Shape::new(vec![2, 3, 4]).unwrap();
    assert_eq!(shape.display_text(), "[2, 3, 4]");
    assert_eq!(shape.as_slice(), &[2, 3, 4]);
    assert_eq!(shape.rank(), 3);
    assert_eq!(shape.checked_numel(), Some(24));
}

#[test]
fn zeros_has_correct_numel_and_values() {
    let t = Tensor::full(vec![2, 3], 0.0f32).unwrap();
    assert_eq!(t.numel(), 6);
    assert!(t.as_slice().iter().all(|&x| x == 0.0));
    assert_eq!(t.dtype(), DType::F32);
}

#[test]
fn from_vec_rejects_length_mismatch() {
    let shape = Shape::new(vec![2, 2]).unwrap();
    let err = Tensor::from_vec(vec![1.0f32, 2.0], shape).unwrap_err();
    assert!(matches!(
        err,
        PhalanxError::Tensor(TensorError::DataLengthMismatch { expected: 4, got: 2, .. })
    ));
}

#[test]
fn get_set_round_trip() {
    let mut t = Tensor::full(vec![2, 2], 0.0f32).unwrap();
    t.set(&[1, 0], 3.5).unwrap();
    assert!((t.get(&[1, 0]).unwrap() - 3.5).abs() < f32::EPSILON);
    assert_eq!(t.as_slice(), &[0.0, 0.0, 3.5, 0.0]);
}

#[test]
fn set_out_of_range_leaves_tensor_unchanged() {
    let mut t = Tensor::full(vec![2, 2], 1u32).unwrap();
    assert!(t.set(&[2, 0], 9).is_err());
    assert_eq!(t.as_slice(), &[1, 1, 1, 1]);
}

#[test]
fn reshape_preserves_elements() {
    let t = Tensor::from_vec(
        vec![1.0f32, 2.0, 3.0, 4.0, 5.0, 6.0],
        Shape::new(vec![2, 3]).unwrap(),
    )
    .unwrap();
    let r = t.reshape(vec![3, 2]).unwrap();
    assert_eq!(r.shape().as_slice(), &[3, 2]);
    assert_eq!(r.as_slice(), &[1.0, 2.0, 3.0, 4.0, 5.0, 6.0]);
}

#[test]
fn into_shape_avoids_needless_semantics_break() {
    let t = Tensor::full(vec![4], 1.0f32).unwrap();
    let t = t.into_shape(vec![2, 2]).unwrap();
    assert_eq!(t.shape().as_slice(), &[2, 2]);
    assert_eq!(t.numel(), 4);
}

#[test]
fn reshape_rejects_other_element_count() {
    let t = Tensor::full(vec![2, 2], 0u8).unwrap();
    let err = t.reshape(vec![3]).unwrap_err();
    assert!(matches!(
        err,
        PhalanxError::Tensor(TensorError::DataLengthMismatch { expected: 3, got: 4, .. })
    ));
}

#[test]
fn transpose_swaps_axes_and_values() {
    let t = Tensor::from_vec(vec![1, 2, 3, 4, 5, 6], Shape::new(vec![2, 3]).unwrap()).unwrap();
    let tt = t.transpose().unwrap();
    assert_eq!(tt.shape().as_slice(), &[3, 2]);
    assert_eq!(tt.as_slice(), &[1, 4, 2, 5, 3, 6]);
    let back = tt.transpose().unwrap();
    assert_eq!(back.as_slice(), t.as_slice());
}

#[test]
fn transpose_rejects_rank_three() {
    let t = Tensor::full(vec![1, 2, 3], 0i32).unwrap();
    let err = t.transpose().unwrap_err();
    assert!(matches!(
        err,
        PhalanxError::Tensor(TensorError::RankMismatch { expected: 2, got: 3 })
    ));
}

#[test]
fn strides_of_tensor() {
    let t = Tensor::full(vec![2, 3, 4], 0u16).unwrap();
    assert_eq!(t.strides().unwrap(), vec![12, 4, 1]);
    assert_eq!(t.rank(), 3);
}

#[test]
fn heads_split_and_merge_round_trip() {
    // batch 1, seq 2, heads 2, head_dim 2: rows are [s0h0 s0h1], [s1h0 s1h1].
    let data: Vec<u32> = (0..8).collect();
    let split = reshape_heads(&data, 1, 2, 2, 2);
    // [B, H, S, d]: head 0 = s0h0, s1h0; head 1 = s0h1, s1h1.
    assert_eq!(split, vec![0, 1, 4, 5, 2, 3, 6, 7]);
    let merged = merge_heads(&split, 1, 2, 2, 2);
    assert_eq!(merged, data);
}

#[test]
fn expand_kv_repeats_groups() {
    // batch 1, seq 1, 4 query heads sharing 2 KV heads, head_dim 1.
    let kv = vec![10u32, 20];
    assert_eq!(expand_kv(&kv, 1, 1, 4, 2, 1), vec![10, 10, 20, 20]);
    assert_eq!(expand_kv(&kv, 1, 1, 2, 2, 1), vec![10, 20]);
}

#[test]
fn write_then_read_touches_one_element() {
    let mut t = Tensor::full(vec![2, 3, 4], 0u32).unwrap();
    t.set(&[1, 2, 3], 7).unwrap();
    assert_eq!(t.get(&[1, 2, 3]).unwrap(), 7);
    for i in 0..2 {
        for j in 0..3 {
            for k in 0..4 {
                if (i, j, k) != (1, 2, 3) {
                    assert_eq!(t.get(&[i, j, k]).unwrap(), 0);
                }
            }
        }
    }
}

#[test]
fn every_in_range_index_has_its_own_offset() {
    let shape = Shape::new(vec![2, 3, 4]).unwrap();
    let mut seen = Vec::new();
    for i in 0..2 {
        for j in 0..3 {
            for k in 0..4 {
                let off = shape.offset(&[i, j, k]).unwrap();
                assert!(off < 24);
                assert!(!seen.contains(&off));
                seen.push(off);
            }
        }
    }
    assert_eq!(seen.len(), 24);
}

#[test]
fn mutable_view_writes_through() {
    let mut t = Tensor::full(vec![2, 2], 1.0f32).unwrap();
    for x in t.as_mut_slice() {
        *x *= 3.0;
    }
    assert_eq!(t.as_slice(), &[3.0, 3.0, 3.0, 3.0]);
    assert_eq!(t.shape().as_slice(), &[2, 2]);
}
