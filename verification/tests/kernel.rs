use convolve2d::kernel::{laplacian, sobel};
use convolve2d::{convolve2d, DynamicMatrix, Matrix, StaticMatrix};

#[test]
fn sobel_x_coefficients() {
    let mat = sobel::x::<i8>();
    assert_eq!(mat.get_width(), 3);
    assert_eq!(mat.get_height(), 3);
    assert_eq!(mat.into_parts().2, [-1, 0, 1, -2, 0, 2, -1, 0, 1]);
}

#[test]
fn sobel_y_coefficients() {
    let mat = sobel::y::<i8>();
    assert_eq!(mat.into_parts(), (3, 3, [1, 2, 1, 0, 0, 0, -1, -2, -1]));
}

#[test]
fn laplacian_cross_coefficients() {
    let mat = laplacian::cross::<i32>();
    assert_eq!(mat.into_parts(), (3, 3, [0, -1, 0, -1, 4, -1, 0, -1, 0]));
}

#[test]
fn laplacian_full_coefficients() {
    let mat = laplacian::full::<i64>();
    assert_eq!(mat.into_parts(), (3, 3, [-1, -1, -1, -1, 8, -1, -1, -1, -1]));
    let floats = laplacian::full::<f64>();
    assert_eq!(floats.into_parts().2[4], 8.0);
}

#[test]
fn sobel_x_finds_a_vertical_edge() {
    let img = DynamicMatrix::new(4, 3, vec![0, 0, 9, 9, 0, 0, 9, 9, 0, 0, 9, 9]).unwrap();
    let kernel: StaticMatrix<i32, 9> = sobel::x();
    let output = convolve2d(&img, &kernel);
    assert_eq!(output.get_value(1, 1), Some(&36));
    assert_eq!(output.get_value(1, 2), Some(&36));
}
