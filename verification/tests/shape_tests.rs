use rocm_rs::rocarray::Shape;

#[test]
fn test_broadcasting_compatibility() {
    let shape1 = Shape::new(vec![3, 1, 4]);
    let shape2 = Shape::new(vec![1, 2, 4]);
    assert!(shape1.can_broadcast_with(&shape2));

    let result = shape1.broadcast_with(&shape2).unwrap();
    assert_eq!(result.dims(), &[3, 2, 4]);
}

#[test]
fn strides_are_row_major() {
    let s = Shape::new_3d(2, 3, 4);
    assert_eq!(s.dims(), &[2, 3, 4]);
    assert_eq!(s.strides(), &[12, 4, 1]);
    assert_eq!(s.ndim(), 3);
    assert_eq!(s.size(), 24);
    assert_eq!(Shape::new_1d(5).strides(), &[1]);
    assert_eq!(Shape::new_2d(3, 4).strides(), &[4, 1]);
    assert_eq!(Shape::new(vec![]).size(), 1);
    assert_eq!(Shape::new(vec![4, 0, 2]).size(), 0);
}

#[test]
fn ravel_and_unravel_round_trip() {
    let s = Shape::new_3d(2, 3, 4);
    for i in 0..24 {
        let idx = s.unravel_index(i);
        assert_eq!(s.ravel_index(&idx), Some(i));
    }
    assert_eq!(s.unravel_index(17), vec![1, 1, 1]);
    assert_eq!(s.ravel_index(&[1, 2, 3]), Some(23));
    assert_eq!(s.unravel_index(s.ravel_index(&[1, 0, 2]).unwrap()), vec![1, 0, 2]);
}

#[test]
fn ravel_rejects_bad_indices() {
    let s = Shape::new_2d(3, 4);
    assert_eq!(s.ravel_index(&[3, 0]), None);
    assert_eq!(s.ravel_index(&[0, 4]), None);
    assert_eq!(s.ravel_index(&[0]), None);
    assert_eq!(s.ravel_index(&[0, 0, 0]), None);
}

#[test]
fn broadcasting_is_symmetric_and_right_aligned() {
    let a = Shape::new(vec![3]);
    let b = Shape::new(vec![2, 3]);
    assert!(a.can_broadcast_with(&b));
    assert!(b.can_broadcast_with(&a));
    assert_eq!(a.broadcast_with(&b).unwrap().dims(), &[2, 3]);
    assert_eq!(b.broadcast_with(&a).unwrap().dims(), &[2, 3]);

    let c = Shape::new(vec![4]);
    let d = Shape::new(vec![1, 4]);
    assert_eq!(c.broadcast_with(&d).unwrap().dims(), &[1, 4]);

    let e = Shape::new(vec![2, 3]);
    let f = Shape::new(vec![3, 3]);
    assert!(!e.can_broadcast_with(&f));
    assert!(e.broadcast_with(&f).is_none());

    let g = Shape::new_2d(5, 6);
    assert_eq!(g.broadcast_with(&g.clone()).unwrap().dims(), &[5, 6]);
}
