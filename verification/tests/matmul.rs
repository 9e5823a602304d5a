use tensor::Tensor;

#[test]
fn matmul_of_two_squares() {
    let a = Tensor::from(vec![vec![1, 2], vec![3, 4]]).unwrap();
    let b = Tensor::from(vec![vec![5, 6], vec![7, 8]]).unwrap();
    let p = a.matmul(&b).unwrap();
    assert_eq!(p.nrows, 2);
    assert_eq!(p.ncols, 2);
    assert_eq!(p.data, vec![vec![19, 22], vec![43, 50]]);
    let q = b.matmul(&a).unwrap();
    assert_eq!(q.data, vec![vec![23, 34], vec![31, 46]]);
}

#[test]
fn matmul_has_the_rows_of_the_left_and_the_columns_of_the_right() {
    let a = Tensor::from(vec![vec![1, 2, 3], vec![4, 5, 6]]).unwrap();
    let b = Tensor::from(vec![vec![1, 0, 2, 0], vec![0, 1, 0, 2], vec![1, 1, 1, 1]]).unwrap();
    let p = a.matmul(&b).unwrap();
    assert_eq!(p.nrows, 2);
    assert_eq!(p.ncols, 4);
    assert_eq!(p.data, vec![vec![4, 5, 5, 7], vec![10, 11, 14, 16]]);
    assert_eq!(p.get(1, 3), Some(&16));
    assert_eq!(p.get(2, 0), None);
}

#[test]
fn matmul_refuses_mismatched_shapes() {
    let a: Tensor<i32> = Tensor::new(2, 3, 1);
    let b: Tensor<i32> = Tensor::new(2, 3, 1);
    assert!(a.matmul(&b).is_none());
    let c: Tensor<i32> = Tensor::new(3, 2, 1);
    assert!(a.matmul(&c).is_some());
    assert!(c.matmul(&c).is_none());
}

#[test]
fn matmul_by_the_identity_changes_nothing() {
    let a = Tensor::from(vec![vec![2.5, -1.0], vec![0.0, 4.0], vec![7.0, 8.0]]).unwrap();
    let id = Tensor::from(vec![vec![1.0, 0.0], vec![0.0, 1.0]]).unwrap();
    let p = a.matmul(&id).unwrap();
    assert_eq!(p.nrows, 3);
    assert_eq!(p.ncols, 2);
    assert_eq!(p.data, a.data);
}

#[test]
fn matmul_of_filled_floats() {
    let a: Tensor<f32> = Tensor::new(3, 3, 1.0);
    let b: Tensor<f32> = Tensor::new(3, 3, 2.0);
    let p = a.matmul(&b).unwrap();
    for i in 0..3 {
        for j in 0..3 {
            assert_eq!(p.get(i, j), Some(&6.0));
        }
    }
}

#[test]
fn matmul_over_no_inner_index_is_all_zero() {
    let a: Tensor<i32> = Tensor::new(2, 0, 9);
    let b: Tensor<i32> = Tensor::new(0, 3, 9);
    let p = a.matmul(&b).unwrap();
    assert_eq!(p.nrows, 2);
    assert_eq!(p.ncols, 3);
    assert_eq!(p.data, vec![vec![0, 0, 0], vec![0, 0, 0]]);
}

#[test]
fn matmul_with_no_rows_or_no_columns_is_empty() {
    let a: Tensor<i32> = Tensor::new(0, 2, 1);
    let b: Tensor<i32> = Tensor::new(2, 3, 1);
    let p = a.matmul(&b).unwrap();
    assert_eq!(p.nrows, 0);
    assert_eq!(p.ncols, 3);
    assert!(p.data.is_empty());
    let c: Tensor<i32> = Tensor::new(2, 2, 1);
    let d: Tensor<i32> = Tensor::new(2, 0, 1);
    let q = c.matmul(&d).unwrap();
    assert_eq!(q.nrows, 2);
    assert_eq!(q.ncols, 0);
    assert_eq!(q.data, vec![Vec::<i32>::new(), Vec::<i32>::new()]);
}

#[test]
fn matmul_leaves_its_operands_alone() {
    let a = Tensor::from(vec![vec![1, 2], vec![3, 4]]).unwrap();
    let b = Tensor::from(vec![vec![0, 1], vec![1, 0]]).unwrap();
    let p = a.matmul(&b).unwrap();
    assert_eq!(p.data, vec![vec![2, 1], vec![4, 3]]);
    assert_eq!(a.data, vec![vec![1, 2], vec![3, 4]]);
    assert_eq!(b.data, vec![vec![0, 1], vec![1, 0]]);
}
