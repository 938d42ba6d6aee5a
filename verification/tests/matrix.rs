use convolve2d::{DynamicMatrix, FlippedMatrix, Matrix, MatrixMut, StaticMatrix, SubPixels};

#[test]
fn flipped_matrix() {
    let mat = StaticMatrix::new(3, 3, [1, 2, 3, 4, 5, 6, 7, 8, 9]).unwrap();
    let flipped = FlippedMatrix(&mat);
    assert_eq!(flipped.get_value(0, 0), Some(&9));
    assert_eq!(flipped.get_value(2, 1), Some(&2));
    assert_eq!(flipped.get_value(0, 2), Some(&7));
    assert_eq!(flipped.get_value(1, 1), Some(&5));
}

#[test]
fn flipped_matrix_keeps_shape_and_data() {
    let mat = StaticMatrix::new(3, 2, [1, 2, 3, 4, 5, 6]).unwrap();
    let flipped = FlippedMatrix(&mat);
    assert_eq!(flipped.get_width(), 3);
    assert_eq!(flipped.get_height(), 2);
    assert_eq!(flipped.get_data(), &[1, 2, 3, 4, 5, 6]);
    assert_eq!(flipped.get_value(0, 0), Some(&6));
    assert_eq!(flipped.get_value(1, 2), Some(&1));
    assert_eq!(flipped.get_value(2, 0), None);
    assert_eq!(flipped.get_value(0, 3), None);
}

#[test]
fn flipping_twice_returns_the_values_of_the_grid() {
    let mat = DynamicMatrix::new(4, 3, (0..12).collect::<Vec<i32>>()).unwrap();
    let once = FlippedMatrix(&mat);
    let twice = FlippedMatrix(&once);
    for row in 0..3 {
        for col in 0..4 {
            assert_eq!(twice.get_value(row, col), mat.get_value(row, col));
            assert_eq!(once.get_value(row, col), mat.get_value(2 - row, 3 - col));
        }
    }
}

#[test]
fn static_matrix_new_checks_the_length() {
    assert!(StaticMatrix::new(2, 2, [1, 2, 3, 4]).is_some());
    assert!(StaticMatrix::new(2, 3, [1, 2, 3, 4, 5]).is_none());
    assert!(StaticMatrix::new(4, 1, [1, 2, 3, 4]).is_some());
    assert!(StaticMatrix::new(1, 4, [1, 2, 3, 4]).is_some());
    assert!(StaticMatrix::new(0, 0, [1, 2, 3, 4]).is_none());
    assert!(StaticMatrix::new(0, 0, [0u8; 0]).is_some());
    assert!(StaticMatrix::new(0, 7, [0u8; 0]).is_some());
    assert!(StaticMatrix::new(7, 0, [0u8; 0]).is_some());
    assert!(StaticMatrix::new(1, 1, [0u8; 0]).is_none());
    // A product that does not fit in a `usize` is no length.
    assert!(StaticMatrix::new(usize::MAX, 2, [0u8; 0]).is_none());
    assert!(StaticMatrix::new(usize::MAX, usize::MAX, [0u8; 1]).is_none());
}

#[test]
fn dynamic_matrix_new_checks_the_length() {
    assert!(DynamicMatrix::new(2, 3, vec![0u8; 6]).is_some());
    assert!(DynamicMatrix::new(2, 3, vec![0u8; 5]).is_none());
    assert!(DynamicMatrix::new(2, 3, vec![0u8; 7]).is_none());
    assert!(DynamicMatrix::new(0, 0, Vec::<u8>::new()).is_some());
    assert!(DynamicMatrix::new(0, 3, Vec::<u8>::new()).is_some());
    assert!(DynamicMatrix::new(0, 0, vec![0u8; 1]).is_none());
    assert!(DynamicMatrix::new(usize::MAX, 2, vec![0u8; 2]).is_none());
    for width in 0..5usize {
        for height in 0..5usize {
            for len in 0..20usize {
                let made = DynamicMatrix::new(width, height, vec![0u8; len]);
                assert_eq!(made.is_some(), len == width * height);
            }
        }
    }
}

#[test]
fn get_value_is_bounds_checked() {
    let mat = StaticMatrix::new(3, 2, [1, 2, 3, 4, 5, 6]).unwrap();
    assert_eq!(mat.get_value(0, 0), Some(&1));
    assert_eq!(mat.get_value(0, 2), Some(&3));
    assert_eq!(mat.get_value(1, 0), Some(&4));
    assert_eq!(mat.get_value(1, 2), Some(&6));
    assert_eq!(mat.get_value(2, 0), None);
    // No wrap into the next row.
    assert_eq!(mat.get_value(0, 3), None);
    assert_eq!(mat.get_value(usize::MAX, usize::MAX), None);

    let mat = DynamicMatrix::new(2, 2, vec![1, 2, 3, 4]).unwrap();
    assert_eq!(mat.get_value(1, 1), Some(&4));
    assert_eq!(mat.get_value(0, 2), None);
    assert_eq!(mat.get_value(2, 0), None);
}

#[test]
fn accessors_give_the_parts() {
    let mut mat = StaticMatrix::new(3, 2, [1, 2, 3, 4, 5, 6]).unwrap();
    assert_eq!(mat.get_width(), 3);
    assert_eq!(mat.get_height(), 2);
    assert_eq!(mat.get_data(), &[1, 2, 3, 4, 5, 6]);
    mat.get_data_mut()[4] = 50;
    assert_eq!(mat.get_value(1, 1), Some(&50));
    assert_eq!(mat.into_parts(), (3, 2, [1, 2, 3, 4, 50, 6]));

    let mut mat = DynamicMatrix::new(1, 3, vec![7, 8, 9]).unwrap();
    assert_eq!(mat.get_width(), 1);
    assert_eq!(mat.get_height(), 3);
    mat.get_data_mut()[0] = 70;
    assert_eq!(mat.get_data(), &[70, 8, 9]);
    assert_eq!(mat.into_parts(), (1, 3, vec![70, 8, 9]));
}

#[test]
fn static_matrix_map() {
    let mat: StaticMatrix<u32, 4> = StaticMatrix::new(2, 2, [1, 2, 3, 4]).unwrap();
    assert_eq!(mat.map(|x| x as f64), StaticMatrix::new(2, 2, [1.0, 2.0, 3.0, 4.0]).unwrap());

    let words = StaticMatrix::new(3, 1, [String::from("a"), String::from("bc"), String::new()])
        .unwrap();
    assert_eq!(words.map(|word| word.len()), StaticMatrix::new(3, 1, [1, 2, 0]).unwrap());
}

#[test]
fn dynamic_matrix_map() {
    let mat: DynamicMatrix<u32> = DynamicMatrix::new(2, 2, vec![1, 2, 3, 4]).unwrap();
    assert_eq!(
        mat.map(|x| x as f64),
        DynamicMatrix::new(2, 2, vec![1.0, 2.0, 3.0, 4.0]).unwrap()
    );
}

#[test]
fn static_matrix_map_subpixels() {
    let mat = StaticMatrix::new(
        2,
        2,
        [SubPixels([1, 2, 3]), SubPixels([4, 5, 6]), SubPixels([7, 8, 9]), SubPixels([10, 11, 12])],
    )
    .unwrap();
    let expected = StaticMatrix::new(
        2,
        2,
        [
            SubPixels([2, 4, 6]),
            SubPixels([8, 10, 12]),
            SubPixels([14, 16, 18]),
            SubPixels([20, 22, 24]),
        ],
    )
    .unwrap();
    assert_eq!(mat.map_subpixels(|x| x * 2), expected);
}

#[test]
fn dynamic_matrix_map_subpixels() {
    let mat = DynamicMatrix::new(
        2,
        2,
        vec![
            SubPixels([1, 2, 3]),
            SubPixels([4, 5, 6]),
            SubPixels([7, 8, 9]),
            SubPixels([10, 11, 12]),
        ],
    )
    .unwrap();
    let expected = DynamicMatrix::new(
        2,
        2,
        vec![
            SubPixels([2, 4, 6]),
            SubPixels([8, 10, 12]),
            SubPixels([14, 16, 18]),
            SubPixels([20, 22, 24]),
        ],
    )
    .unwrap();
    assert_eq!(mat.map_subpixels(|x| x * 2), expected);
}

#[test]
fn cloned_grids_are_equal() {
    let mat = StaticMatrix::new(2, 1, [String::from("a"), String::from("b")]).unwrap();
    assert_eq!(mat.clone(), mat);
    let mat = DynamicMatrix::new(1, 2, vec![vec![1u8], vec![2u8, 3]]).unwrap();
    let copy = mat.clone();
    assert_eq!(copy, mat);
    assert_eq!(copy.into_parts(), (1, 2, vec![vec![1u8], vec![2u8, 3]]));
}
