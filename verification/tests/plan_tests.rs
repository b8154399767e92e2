use rocm_rs::error::Error;
use rocm_rs::hip::memory::{
    allocation_bytes, copy_size, download_bytes, element_count, upload_bytes,
};
use rocm_rs::rocarray::plan::{
    broadcast_plan, check_copy_capacity, check_vec_len, col_plan, matmul_plan, reshape_plan,
    row_plan, slice_plan, squeeze_plan, sum_axis_plan,
};
use rocm_rs::rocarray::Shape;

fn message(r: Result<Shape, Error>) -> String {
    match r {
        Err(Error::Custom(m)) => m,
        _ => panic!("expected a custom error"),
    }
}

#[test]
fn reshape_keeps_the_element_count() {
    let s = Shape::new_2d(3, 4);
    assert_eq!(reshape_plan(&s, vec![2, 6]).unwrap().dims(), &[2, 6]);
    assert_eq!(reshape_plan(&s, vec![12]).unwrap().dims(), &[12]);
    assert_eq!(message(reshape_plan(&s, vec![5, 2])), "New shape must have the same total size");
}

#[test]
fn squeeze_drops_unit_axes() {
    assert_eq!(squeeze_plan(&Shape::new(vec![1, 3, 1, 4])).dims(), &[3, 4]);
    assert_eq!(squeeze_plan(&Shape::new(vec![1, 1])).dims(), &[1]);
    assert_eq!(squeeze_plan(&Shape::new(vec![])).dims(), &[1]);
    assert_eq!(squeeze_plan(&Shape::new(vec![2, 0, 1])).dims(), &[2, 0]);
}

#[test]
fn slices_rows_and_columns() {
    let s = Shape::new_2d(5, 3);
    assert_eq!(slice_plan(&s, 1, 4).unwrap().dims(), &[3, 3]);
    assert_eq!(message(slice_plan(&s, 4, 4)), "Invalid slice indices");
    assert_eq!(message(slice_plan(&s, 0, 6)), "Invalid slice indices");
    assert_eq!(message(slice_plan(&Shape::new(vec![]), 0, 1)), "Cannot slice 0-dimensional array");
    assert_eq!(row_plan(&s, 2).unwrap().dims(), &[3]);
    assert_eq!(message(row_plan(&s, 5)), "Invalid slice indices");
    assert_eq!(message(row_plan(&Shape::new_1d(4), 0)), "Row access requires 2D array");
    assert_eq!(col_plan(&s).unwrap().dims(), &[5]);
    assert_eq!(message(col_plan(&Shape::new_3d(1, 2, 3))), "Column access requires 2D array");
}

#[test]
fn matmul_and_reductions() {
    let a = Shape::new_2d(2, 3);
    let b = Shape::new_2d(3, 5);
    assert_eq!(matmul_plan(&a, &b).unwrap().dims(), &[2, 5]);
    assert_eq!(
        message(matmul_plan(&a, &a)),
        "Inner dimensions must match for matrix multiplication"
    );
    assert_eq!(message(matmul_plan(&a, &Shape::new_1d(3))), "Matrix multiplication requires 2D arrays");
    let c = Shape::new_3d(2, 3, 4);
    assert_eq!(sum_axis_plan(&c, 1).unwrap().dims(), &[2, 4]);
    assert_eq!(sum_axis_plan(&Shape::new_1d(7), 0).unwrap().dims(), &[1]);
    assert_eq!(message(sum_axis_plan(&c, 3)), "Axis out of bounds");
    assert_eq!(broadcast_plan(&Shape::new_2d(4, 1), &Shape::new_1d(3)).unwrap().dims(), &[4, 3]);
    assert_eq!(
        message(broadcast_plan(&Shape::new_1d(2), &Shape::new_1d(3))),
        "Shapes are not compatible for broadcasting"
    );
}

#[test]
fn host_checks() {
    let s = Shape::new_2d(2, 3);
    assert!(check_vec_len(6, &s).is_ok());
    match check_vec_len(5, &s) {
        Err(Error::Custom(m)) => assert_eq!(m, "Vector length 5 doesn't match shape size 6"),
        _ => panic!("expected a custom error"),
    }
    assert!(check_copy_capacity(4, 4).is_ok());
    match check_copy_capacity(5, 4) {
        Err(Error::Custom(m)) => assert_eq!(m, "Source array is larger than destination capacity"),
        _ => panic!("expected a custom error"),
    }
}

#[test]
fn transfer_sizes() {
    assert_eq!(allocation_bytes(10, 4), 40);
    assert_eq!(element_count(41, 4), 10);
    assert_eq!(copy_size(40, 3, 4), 12);
    assert_eq!(copy_size(8, 3, 4), 8);
    assert_eq!(upload_bytes(40, 0, 4), Ok(0));
    assert_eq!(upload_bytes(40, 10, 4), Ok(40));
    assert!(upload_bytes(40, 11, 4).unwrap_err().is_invalid_value());
    assert!(upload_bytes(40, usize::MAX, 4).unwrap_err().is_invalid_value());
    assert_eq!(download_bytes(40, 5, 8), Ok(40));
    assert!(download_bytes(40, 6, 8).unwrap_err().is_out_of_memory());
}
