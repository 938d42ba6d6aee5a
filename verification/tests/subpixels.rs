use convolve2d::{SaturatingAdd, SaturatingMul, SubPixels};

#[test]
fn subpixels_scale_and_add_per_channel() {
    let sp1 = SubPixels([1, 2, 3]);
    let sp2 = SubPixels([4, 5, 6]);

    assert_eq!(sp1 * 2, SubPixels([2, 4, 6]));
    assert_eq!(sp1 + sp2, SubPixels([5, 7, 9]));
}

#[test]
fn subpixels_scale_by_another_type() {
    let pixel = SubPixels([1.5f64, -2.0]);
    assert_eq!(pixel * 2.0f64, SubPixels([3.0, -4.0]));
    let none: SubPixels<i32, 0> = SubPixels([]);
    assert_eq!(none * 7, SubPixels([]));
    assert_eq!(none + none, SubPixels([]));
}

#[test]
fn subpixels_saturate_per_channel() {
    let pixel = SubPixels([1u8, 100, 255]);
    assert_eq!(SaturatingMul::saturating_mul(pixel, 3u8), SubPixels([3, 255, 255]));
    assert_eq!(
        SaturatingAdd::saturating_add(pixel, SubPixels([1u8, 155, 1])),
        SubPixels([2, 255, 255])
    );
    let signed = SubPixels([-100i8, 100, 5]);
    assert_eq!(SaturatingMul::saturating_mul(signed, 2i8), SubPixels([-128, 127, 10]));
    assert_eq!(SaturatingMul::saturating_mul(signed, -2i8), SubPixels([127, -128, -10]));
    assert_eq!(
        SaturatingAdd::saturating_add(signed, SubPixels([-100i8, 100, -5])),
        SubPixels([-128, 127, 0])
    );
}

#[test]
fn subpixels_convert() {
    let pixel: SubPixels<u8, 3> = SubPixels([1, 2, 3]);
    assert_eq!(pixel.convert::<f64>(), SubPixels([1.0, 2.0, 3.0]));
    assert_eq!(pixel.convert::<u32>(), SubPixels([1u32, 2, 3]));
}

#[test]
fn subpixels_try_convert() {
    let pixel: SubPixels<u32, 3> = SubPixels([1, 2, 3]);
    assert_eq!(pixel.try_convert::<u8>(), Ok(SubPixels([1, 2, 3])));

    let wide: SubPixels<u32, 3> = SubPixels([1, 256, 3]);
    assert!(wide.try_convert::<u8>().is_err());
    let negative: SubPixels<i32, 2> = SubPixels([5, -1]);
    assert!(negative.try_convert::<u16>().is_err());
    assert_eq!(negative.try_convert::<i8>(), Ok(SubPixels([5, -1])));
}

#[test]
fn subpixels_map() {
    let pixel = SubPixels([1, 2, 3]);
    assert_eq!(pixel.map(|x| x + 1), SubPixels([2, 3, 4]));
}

#[test]
fn subpixels_from_array_and_default() {
    let pixel: SubPixels<u8, 3> = [7, 8, 9].into();
    assert_eq!(pixel, SubPixels([7, 8, 9]));
    assert_eq!(SubPixels::from([1i64]), SubPixels([1i64]));
    assert_eq!(SubPixels::<u16, 4>::default(), SubPixels([0; 4]));
    let copy = pixel.clone();
    assert_eq!(copy, pixel);
}

#[test]
fn integers_saturate_at_both_ends() {
    assert_eq!(SaturatingAdd::saturating_add(200u8, 55u8), 255);
    assert_eq!(SaturatingAdd::saturating_add(200u8, 56u8), 255);
    assert_eq!(SaturatingAdd::saturating_add(1u8, 2u8), 3);
    assert_eq!(SaturatingMul::saturating_mul(16u8, 16u8), 255);
    assert_eq!(SaturatingMul::saturating_mul(15u8, 17u8), 255);
    assert_eq!(SaturatingMul::saturating_mul(0u8, 255u8), 0);
    assert_eq!(SaturatingAdd::saturating_add(u16::MAX, 1u16), u16::MAX);
    assert_eq!(SaturatingAdd::saturating_add(u32::MAX, u32::MAX), u32::MAX);
    assert_eq!(SaturatingMul::saturating_mul(u64::MAX, 2u64), u64::MAX);
    assert_eq!(SaturatingMul::saturating_mul(u128::MAX, u128::MAX), u128::MAX);
    assert_eq!(SaturatingAdd::saturating_add(usize::MAX, 1usize), usize::MAX);

    assert_eq!(SaturatingAdd::saturating_add(100i8, 27i8), 127);
    assert_eq!(SaturatingAdd::saturating_add(100i8, 28i8), 127);
    assert_eq!(SaturatingAdd::saturating_add(-100i8, -28i8), -128);
    assert_eq!(SaturatingAdd::saturating_add(-100i8, -29i8), -128);
    assert_eq!(SaturatingAdd::saturating_add(-100i8, 100i8), 0);
    assert_eq!(SaturatingMul::saturating_mul(-128i8, -1i8), 127);
    assert_eq!(SaturatingMul::saturating_mul(-128i8, 1i8), -128);
    assert_eq!(SaturatingMul::saturating_mul(64i8, 2i8), 127);
    assert_eq!(SaturatingMul::saturating_mul(64i8, -2i8), -128);
    assert_eq!(SaturatingMul::saturating_mul(-64i8, -3i8), 127);
    assert_eq!(SaturatingMul::saturating_mul(7i8, -6i8), -42);
    assert_eq!(SaturatingAdd::saturating_add(i16::MIN, -1i16), i16::MIN);
    assert_eq!(SaturatingMul::saturating_mul(i32::MAX, i32::MIN), i32::MIN);
    assert_eq!(SaturatingMul::saturating_mul(i64::MIN, i64::MIN), i64::MAX);
    assert_eq!(SaturatingAdd::saturating_add(i128::MAX, i128::MAX), i128::MAX);
    assert_eq!(SaturatingMul::saturating_mul(isize::MIN, 2isize), isize::MIN);
}
