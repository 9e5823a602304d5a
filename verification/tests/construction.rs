use tensor::{Tensor, TensorError};

#[test]
fn test_get() {
    let t1: Tensor<f32> = Tensor::new(3, 3, 1.0);
    let n1 = t1.get(0, 0);
    assert_eq!(n1, Some(&1.0));
}

#[test]
fn test_from() {
    let v = vec![vec![1.0, 2.0, 3.0], vec![4.0, 5.0, 6.0]];
    let t1 = Tensor::from(v).unwrap();
    assert_eq!(t1.data[0][0], 1.0);
}

#[test]
fn new_fills_every_cell_of_the_shape() {
    let t: Tensor<i64> = Tensor::new(4, 5, -7);
    assert_eq!(t.nrows, 4);
    assert_eq!(t.ncols, 5);
    assert_eq!(t.data.len(), 4);
    for i in 0..4 {
        assert_eq!(t.data[i].len(), 5);
        for j in 0..5 {
            assert_eq!(t.get(i, j), Some(&-7));
        }
    }
}

#[test]
fn get_is_absent_outside_the_shape() {
    let t: Tensor<u8> = Tensor::new(2, 3, 9);
    assert_eq!(t.get(1, 2), Some(&9));
    assert_eq!(t.get(2, 0), None);
    assert_eq!(t.get(0, 3), None);
    assert_eq!(t.get(2, 3), None);
    assert_eq!(t.get(usize::MAX, 0), None);
    assert_eq!(t.get(0, usize::MAX), None);
}

#[test]
fn new_with_no_rows_is_empty() {
    let t: Tensor<f64> = Tensor::new(0, 3, 1.5);
    assert_eq!(t.nrows, 0);
    assert_eq!(t.ncols, 3);
    assert!(t.data.is_empty());
    assert_eq!(t.get(0, 0), None);
}

#[test]
fn new_with_no_columns_has_empty_rows() {
    let t: Tensor<f64> = Tensor::new(2, 0, 1.5);
    assert_eq!(t.nrows, 2);
    assert_eq!(t.ncols, 0);
    assert_eq!(t.data, vec![Vec::<f64>::new(), Vec::<f64>::new()]);
    assert_eq!(t.get(0, 0), None);
    assert_eq!(t.get(1, 0), None);
}

#[test]
fn from_reads_the_shape_off_the_data() {
    let t = Tensor::from(vec![vec![1, 2, 3], vec![4, 5, 6]]).unwrap();
    assert_eq!(t.nrows, 2);
    assert_eq!(t.ncols, 3);
    assert_eq!(t.data, vec![vec![1, 2, 3], vec![4, 5, 6]]);
}

#[test]
fn from_then_get() {
    let t = Tensor::from(vec![vec![1, 2, 3], vec![4, 5, 6]]).unwrap();
    assert_eq!(t.get(0, 0), Some(&1));
    assert_eq!(t.get(1, 2), Some(&6));
    assert_eq!(t.get(0, 2), Some(&3));
    assert_eq!(t.get(1, 0), Some(&4));
    assert_eq!(t.get(10, 0), None);
    assert_eq!(t.get(0, 3), None);
    assert_eq!(t.get(2, 0), None);
}

#[test]
fn from_without_rows_is_invalid_shape() {
    let r = Tensor::<f32>::from(vec![]);
    assert!(matches!(r, Err(TensorError::InvalidShape)));
    let r = Tensor::<i32>::from(Vec::new());
    assert_eq!(r.err(), Some(TensorError::InvalidShape));
}

#[test]
fn from_with_one_empty_row() {
    let t = Tensor::<i32>::from(vec![vec![]]).unwrap();
    assert_eq!(t.nrows, 1);
    assert_eq!(t.ncols, 0);
    assert_eq!(t.get(0, 0), None);
}

#[test]
fn from_takes_the_column_count_from_the_first_row() {
    let t = Tensor::from(vec![vec![1, 2], vec![3, 4, 5], vec![6, 7, 8, 9]]).unwrap();
    assert_eq!(t.nrows, 3);
    assert_eq!(t.ncols, 2);
    assert_eq!(t.data[1], vec![3, 4, 5]);
    assert_eq!(t.data[2], vec![6, 7, 8, 9]);
    assert_eq!(t.get(2, 1), Some(&7));
    assert_eq!(t.get(2, 2), None);
}

#[test]
fn invalid_shape_is_a_plain_value() {
    let e = TensorError::InvalidShape;
    let f = e;
    assert_eq!(e, f);
    assert_eq!(format!("{:?}", e), "InvalidShape");
}

#[test]
fn clone_keeps_shape_and_cells() {
    let t = Tensor::from(vec![vec![1.5, 2.5], vec![3.5, 4.5]]).unwrap();
    let u = t.clone();
    assert_eq!(u.nrows, 2);
    assert_eq!(u.ncols, 2);
    assert_eq!(u.data, vec![vec![1.5, 2.5], vec![3.5, 4.5]]);
    assert_eq!(t.data, u.data);
}

#[test]
fn clone_is_independent_of_the_source() {
    let t: Tensor<i32> = Tensor::new(2, 2, 4);
    let mut u = t.clone();
    u.data[0][0] = 5;
    assert_eq!(t.get(0, 0), Some(&4));
    assert_eq!(u.get(0, 0), Some(&5));
}

#[test]
fn debug_shows_the_fields() {
    let t: Tensor<i32> = Tensor::new(1, 2, 3);
    assert_eq!(format!("{:?}", t), "Tensor { data: [[3, 3]], nrows: 1, ncols: 2 }");
}

#[test]
fn covers_holds_of_the_declared_shape_of_built_tensors() {
    let t: Tensor<i32> = Tensor::new(2, 3, 0);
    assert!(t.covers(2, 3));
    assert!(t.covers(1, 2));
    assert!(t.covers(0, 0));
    assert!(!t.covers(3, 3));
    assert!(!t.covers(2, 4));
    assert!(!t.covers(3, 1));
    assert!(!t.covers(1, 4));
}

#[test]
fn covers_is_vacuous_without_rows_or_columns() {
    let t: Tensor<i32> = Tensor::new(2, 3, 0);
    assert!(t.covers(0, 100));
    assert!(t.covers(100, 0));
    let e: Tensor<i32> = Tensor::new(0, 0, 0);
    assert!(e.covers(0, 5));
    assert!(e.covers(5, 0));
    assert!(!e.covers(1, 1));
}

#[test]
fn covers_looks_at_every_row_below_the_bound() {
    let t = Tensor::from(vec![vec![1, 2, 3], vec![4], vec![5, 6, 7]]).unwrap();
    assert_eq!(t.ncols, 3);
    assert!(!t.covers(t.nrows, t.ncols));
    assert!(t.covers(1, 3));
    assert!(!t.covers(2, 2));
    assert!(t.covers(3, 1));
    assert!(!t.covers(3, 2));
}
