use rocm_rs::rocarray::display::format_array;

fn texts(values: &[i32]) -> Vec<String> {
    values.iter().map(|v| format!("{:?}", v)).collect()
}

#[test]
fn short_vectors_are_listed() {
    assert_eq!(format_array(&[3], Some(texts(&[1, 2, 3]))), "ROCArray[1, 2, 3]");
    assert_eq!(format_array(&[0], Some(texts(&[]))), "ROCArray[]");
}

#[test]
fn long_vectors_are_abbreviated() {
    let values: Vec<i32> = (1..=11).collect();
    assert_eq!(
        format_array(&[11], Some(texts(&values))),
        "ROCArray[[1, 2, 3], \u{2026}, [9, 10, 11]] (len=11)"
    );
}

#[test]
fn matrices_show_five_by_five() {
    assert_eq!(
        format_array(&[2, 3], Some(texts(&[1, 2, 3, 4, 5, 6]))),
        "ROCArray2D(2x3)[\n  [1, 2, 3]\n  [4, 5, 6]\n]"
    );
    let values: Vec<i32> = (0..42).collect();
    let text = format_array(&[6, 7], Some(texts(&values)));
    let expected = [
        "ROCArray2D(6x7)[\n",
        "  [0, 1, 2, 3, 4, ...]\n",
        "  [7, 8, 9, 10, 11, ...]\n",
        "  [14, 15, 16, 17, 18, ...]\n",
        "  [21, 22, 23, 24, 25, ...]\n",
        "  [28, 29, 30, 31, 32, ...]\n",
        "  ...\n",
        "]",
    ]
    .concat();
    assert_eq!(text, expected);
}

#[test]
fn other_shapes_show_dimensions() {
    assert_eq!(format_array(&[2, 3, 4], Some(texts(&[0; 24]))), "ROCArray3D[2, 3, 4]");
    assert_eq!(format_array(&[2, 3], None), "ROCArray2D[2, 3]");
    assert_eq!(format_array(&[], Some(texts(&[7]))), "ROCArray0D[]");
}
