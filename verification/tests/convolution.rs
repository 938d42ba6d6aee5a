use convolve2d::{
    accumulated_cell, alignment_of_tap, alignment_to_choke_padding, alignments_fit_in, convolve2d,
    convolve2d_saturating, saturating_accumulated_cell, saturating_scaled_element, scaled_element,
    update_buffer, update_buffer_saturating, write_convolution, write_convolution_saturating,
    DynamicMatrix, Matrix, StaticMatrix, SubPixels,
};

#[test]
fn convolve2d_smoke_test() {
    let img = StaticMatrix::new(3, 3, [0, 0, 0, 0, 1, 0, 0, 0, 0]).unwrap();
    let kernel = StaticMatrix::new(3, 3, [1, 2, 3, 4, 5, 6, 7, 8, 9]).unwrap();

    let output = convolve2d(&img, &kernel);

    let expected = DynamicMatrix::new(3, 3, vec![9, 8, 7, 6, 5, 4, 3, 2, 1]).unwrap();
    assert_eq!(output, expected);
}

#[test]
fn number_grid() {
    let img = StaticMatrix::new(3, 3, [0, 0, 0, 0, 1, 0, 0, 0, 0]).unwrap();
    let kernel = StaticMatrix::new(3, 3, [1, 2, 3, 4, 5, 6, 7, 8, 9]).unwrap();
    let mut output = StaticMatrix::new(3, 3, [0; 9]).unwrap();

    write_convolution(&img, &kernel, &mut output);

    let expected = StaticMatrix::new(3, 3, [9, 8, 7, 6, 5, 4, 3, 2, 1]).unwrap();
    assert_eq!(output, expected);
}

#[test]
fn test_saturating() {
    let img: StaticMatrix<u8, 9> = StaticMatrix::new(3, 3, [1, 2, 3, 4, 5, 6, 7, 8, 9]).unwrap();
    let kernel = StaticMatrix::new(1, 1, [128]).unwrap();
    let mut output = StaticMatrix::new(3, 3, [0; 9]).unwrap();

    write_convolution_saturating(&img, &kernel, &mut output);

    let expected =
        StaticMatrix::new(3, 3, [128, 255, 255, 255, 255, 255, 255, 255, 255]).unwrap();
    assert_eq!(output, expected);
}

fn shifted(alignment: isize) -> [u32; 9] {
    let image = [1, 2, 3, 4, 5, 6, 7, 8, 9];
    let mut output = [0; 9];
    update_buffer(&image, 2u32, alignment, &mut output);
    output
}

#[test]
fn update_buffer_alignment_n5() {
    assert_eq!(shifted(-5), [12, 14, 16, 18, 0, 0, 0, 0, 0]);
}

#[test]
fn update_buffer_alignment_n1() {
    assert_eq!(shifted(-1), [4, 6, 8, 10, 12, 14, 16, 18, 0]);
}

#[test]
fn update_buffer_alignment_0() {
    assert_eq!(shifted(0), [2, 4, 6, 8, 10, 12, 14, 16, 18]);
}

#[test]
fn update_buffer_alignment_1() {
    assert_eq!(shifted(1), [0, 2, 4, 6, 8, 10, 12, 14, 16]);
}

#[test]
fn update_buffer_alignment_5() {
    assert_eq!(shifted(5), [0, 0, 0, 0, 0, 2, 4, 6, 8]);
}

#[test]
fn update_buffer_alignment_past_either_end() {
    assert_eq!(shifted(9), [0; 9]);
    assert_eq!(shifted(-9), [0; 9]);
    assert_eq!(shifted(isize::MAX), [0; 9]);
    assert_eq!(shifted(isize::MIN), [0; 9]);
}

#[test]
fn update_buffer_adds_to_what_the_buffer_holds() {
    let image = [1i32, 2, 3];
    let mut output = [10i32, 20, 30, 40];
    update_buffer(&image, -3, 1, &mut output);
    assert_eq!(output, [10, 17, 24, 31]);
}

#[test]
fn update_buffer_saturating_clamps_each_cell() {
    let image = [1u8, 2, 3, 100];
    let mut output = [0u8, 250, 0];
    update_buffer_saturating(&image, 100u8, -1, &mut output);
    assert_eq!(output, [200, 255, 255]);

    let image = [-100i8, 100];
    let mut output = [-100i8, 100];
    update_buffer_saturating(&image, 2i8, 0, &mut output);
    assert_eq!(output, [-128, 127]);
}

#[test]
fn identity_kernel_returns_the_image() {
    let kernel = StaticMatrix::new(3, 3, [0, 0, 0, 0, 1, 0, 0, 0, 0]).unwrap();
    let img = DynamicMatrix::new(4, 3, vec![3, -1, 4, 1, -5, 9, 2, -6, 5, 3, -5, 8]).unwrap();
    assert_eq!(convolve2d(&img, &kernel), img);
    assert_eq!(convolve2d_saturating(&img, &kernel), img);

    let mut output = StaticMatrix::new(4, 3, [0; 12]).unwrap();
    write_convolution(&img, &kernel, &mut output);
    assert_eq!(output.get_data(), img.get_data());
}

#[test]
fn zero_image_gives_zero_result() {
    let kernel = StaticMatrix::new(3, 3, [1, -2, 3, -4, 5, -6, 7, -8, 9]).unwrap();
    for (width, height) in [(0usize, 0usize), (1, 1), (5, 1), (1, 5), (4, 3), (2, 7)] {
        let img = DynamicMatrix::new(width, height, vec![0; width * height]).unwrap();
        let output = convolve2d(&img, &kernel);
        assert_eq!(output, img);
        assert_eq!(output.get_width(), width);
        assert_eq!(output.get_height(), height);
    }
}

#[test]
fn border_is_padded_with_zeros() {
    // Every cell is one: each output cell counts the taps that reach an image cell.
    let img = StaticMatrix::new(3, 3, [1; 9]).unwrap();
    let kernel = StaticMatrix::new(3, 3, [1; 9]).unwrap();
    let output = convolve2d(&img, &kernel);
    // The linear shift lets the end of one row run into the start of the next.
    let expected = DynamicMatrix::new(3, 3, vec![5, 6, 7, 8, 9, 8, 7, 6, 5]).unwrap();
    assert_eq!(output, expected);
}

#[test]
fn kernel_is_flipped_before_it_is_applied() {
    let img = StaticMatrix::new(3, 1, [0, 1, 0]).unwrap();
    let kernel = StaticMatrix::new(3, 1, [1, 2, 3]).unwrap();
    let output = convolve2d(&img, &kernel);
    assert_eq!(output.get_data(), &[3, 2, 1]);
}

#[test]
fn even_kernel_is_centred_on_its_upper_half() {
    let img = StaticMatrix::new(4, 1, [0, 0, 1, 0]).unwrap();
    let kernel = StaticMatrix::new(2, 1, [1, 2]).unwrap();
    // Flipped: [2, 1], with alignments -1 and 0.
    let output = convolve2d(&img, &kernel);
    assert_eq!(output.get_data(), &[0, 2, 1, 0]);
}

#[test]
fn write_convolution_accumulates_onto_the_buffer() {
    let img = StaticMatrix::new(2, 2, [1, 2, 3, 4]).unwrap();
    let kernel = StaticMatrix::new(1, 1, [10]).unwrap();
    let mut output = StaticMatrix::new(2, 2, [1, 1, 1, 1]).unwrap();
    write_convolution(&img, &kernel, &mut output);
    assert_eq!(output.get_data(), &[11, 21, 31, 41]);
    write_convolution(&img, &kernel, &mut output);
    assert_eq!(output.get_data(), &[21, 41, 61, 81]);
}

#[test]
fn empty_kernel_leaves_the_buffer() {
    let img = StaticMatrix::new(2, 2, [1, 2, 3, 4]).unwrap();
    let kernel: StaticMatrix<i32, 0> = StaticMatrix::new(0, 0, []).unwrap();
    let mut output = StaticMatrix::new(2, 2, [5, 6, 7, 8]).unwrap();
    write_convolution(&img, &kernel, &mut output);
    assert_eq!(output.get_data(), &[5, 6, 7, 8]);
    let output: DynamicMatrix<i32> = convolve2d(&img, &kernel);
    assert_eq!(output.get_data(), &[0, 0, 0, 0]);
}

#[test]
fn convolve2d_saturating_clamps() {
    let img: StaticMatrix<u8, 9> = StaticMatrix::new(3, 3, [1, 2, 3, 4, 5, 6, 7, 8, 9]).unwrap();
    let kernel = StaticMatrix::new(1, 1, [128u8]).unwrap();
    let output = convolve2d_saturating(&img, &kernel);
    assert_eq!(output.get_data(), &[128, 255, 255, 255, 255, 255, 255, 255, 255]);
    assert_eq!(output.get_width(), 3);
    assert_eq!(output.get_height(), 3);
}

#[test]
fn multi_channel_image_is_convolved_per_channel() {
    let img = DynamicMatrix::new(
        2,
        1,
        vec![SubPixels([1, 10, 100]), SubPixels([2, 20, 200])],
    )
    .unwrap();
    let kernel = StaticMatrix::new(3, 1, [1, 0, -1]).unwrap();
    // Flipped: [-1, 0, 1] with alignments -1, 0 and 1.
    let output: DynamicMatrix<SubPixels<i32, 3>> = convolve2d(&img, &kernel);
    assert_eq!(output.get_data(), &[SubPixels([-2, -20, -200]), SubPixels([1, 10, 100])]);
}

#[test]
fn multi_channel_image_saturates_per_channel() {
    let img = StaticMatrix::new(1, 1, [SubPixels([1u8, 2, 200])]).unwrap();
    let kernel = StaticMatrix::new(1, 1, [100u8]).unwrap();
    let mut output = StaticMatrix::new(1, 1, [SubPixels([0u8, 100, 0])]).unwrap();
    write_convolution_saturating(&img, &kernel, &mut output);
    assert_eq!(output.get_data(), &[SubPixels([100, 255, 255])]);
}

#[test]
fn alignment_splits_into_choke_and_padding() {
    assert_eq!(alignment_to_choke_padding(0), (0, 0));
    assert_eq!(alignment_to_choke_padding(7), (0, 7));
    assert_eq!(alignment_to_choke_padding(-7), (7, 0));
    assert_eq!(alignment_to_choke_padding(isize::MAX), (0, isize::MAX as usize));
    assert_eq!(alignment_to_choke_padding(isize::MIN), (isize::MAX as usize + 1, 0));
}

#[test]
fn tap_alignment_counts_from_the_centre() {
    // A kernel of three by three on an image ten wide.
    assert_eq!(alignment_of_tap(10, 3, 3, 0, 0), -11);
    assert_eq!(alignment_of_tap(10, 3, 3, 0, 2), -9);
    assert_eq!(alignment_of_tap(10, 3, 3, 1, 1), 0);
    assert_eq!(alignment_of_tap(10, 3, 3, 1, 2), 1);
    assert_eq!(alignment_of_tap(10, 3, 3, 2, 0), 9);
    assert_eq!(alignment_of_tap(10, 3, 3, 2, 2), 11);
    // The centre of an even side is the upper of its two middle positions.
    assert_eq!(alignment_of_tap(10, 4, 2, 0, 0), -12);
    assert_eq!(alignment_of_tap(10, 4, 2, 1, 3), 1);
    assert_eq!(alignment_of_tap(0, 1, 5, 4, 0), 0);
}

#[test]
fn alignments_fit_within_isize() {
    let most = isize::MAX as usize;
    assert!(alignments_fit_in(10, 3, 3));
    // A kernel without taps has no alignment.
    assert!(alignments_fit_in(0, 0, 0));
    assert!(alignments_fit_in(usize::MAX, 5, 0));
    assert!(alignments_fit_in(usize::MAX, 0, usize::MAX));
    // A single row of taps does not shift by rows.
    assert!(alignments_fit_in(usize::MAX, 1, 1));
    assert!(alignments_fit_in(0, usize::MAX, 1));
    // Three rows shift by one image width up and down.
    assert!(alignments_fit_in(most, 1, 3));
    assert!(!alignments_fit_in(most + 1, 1, 3));
    assert!(!alignments_fit_in(usize::MAX, 1, 3));
    assert!(!alignments_fit_in(1, usize::MAX, 3));
    // Two rows shift by one image width up only, down to the least `isize`.
    assert!(alignments_fit_in(most + 1, 1, 2));
    assert!(!alignments_fit_in(most + 2, 1, 2));
    assert_eq!(alignment_of_tap(most + 1, 1, 2, 0, 0), isize::MIN);
    assert_eq!(alignment_of_tap(most, 1, 3, 2, 0), isize::MAX);
}

#[test]
fn one_element_is_scaled_and_added() {
    assert_eq!(scaled_element(&7i32, &-3i32), -21);
    assert_eq!(accumulated_cell(&10i32, -21i32), -11);
    assert_eq!(scaled_element(&SubPixels([1u16, 2]), &300u16), SubPixels([300, 600]));
    assert_eq!(saturating_scaled_element(&7u8, &40u8), 255);
    assert_eq!(saturating_scaled_element(&7u8, &4u8), 28);
    assert_eq!(saturating_accumulated_cell(&250u8, 28u8), 255);
    assert_eq!(saturating_accumulated_cell(&-100i8, -100i8), -128);
}
