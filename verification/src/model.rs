//! What a convolution yields, stated cell by cell.
//!
//! The cell at position `at` of the output starts from what the buffer holds
//! there. Each tap of the flipped kernel, in reading order, then adds to it
//! the image element that the tap's alignment puts under the cell, scaled by
//! the tap's coefficient; a tap that puts no element under the cell adds
//! nothing, so the image counts as zero outside its extent.
use vstd::prelude::*;
use vstd::std_specs::ops::{AddSpec, MulSpec};
use core::ops::{Add, Mul};
use crate::matrix::{FlippedMatrix, Matrix};
use crate::saturating::{SaturatingAdd, SaturatingMul};

verus! {

/// Cloning a `T` yields an equal value.
pub open spec fn clone_is_exact<T: Clone>() -> bool {
    forall|a: T, b: T| #[trigger] call_ensures(T::clone, (&a,), b) ==> a == b
}

/// How a pass scales an image element by a kernel coefficient.
pub type Scale<T, K, O> = spec_fn(T, K) -> O;

/// How a pass adds a scaled element to a cell of the output.
pub type Accumulate<O> = spec_fn(O, O) -> O;

/// Scaling by `*`.
pub open spec fn product<T, K, O>() -> Scale<T, K, O> where T: Mul<K, Output = O> {
    |x: T, k: K| x.mul_spec(k)
}

/// Adding by `+`.
pub open spec fn sum<O>() -> Accumulate<O> where O: Add<Output = O> {
    |a: O, b: O| a.add_spec(b)
}

/// Scaling by the saturating product.
pub open spec fn saturating_product<T, K, O>() -> Scale<T, K, O> where
    T: SaturatingMul<K, Output = O>,
 {
    |x: T, k: K| x.saturating_mul_spec(k)
}

/// Adding by the saturating sum.
pub open spec fn saturating_sum<O>() -> Accumulate<O> where O: SaturatingAdd<Output = O> {
    |a: O, b: O| a.saturating_add_spec(b)
}

/// One cell of the output after one tap: the cell at `at` takes the image
/// element that lies `alignment` positions before it, scaled by `coefficient`.
/// A cell with no such element is left as it was.
pub open spec fn tap_cell<T, K, O>(
    image: Seq<T>,
    coefficient: K,
    alignment: int,
    held: O,
    at: int,
    scale: Scale<T, K, O>,
    combine: Accumulate<O>,
) -> O {
    if 0 <= at - alignment < image.len() {
        combine(held, scale(image[at - alignment], coefficient))
    } else {
        held
    }
}

/// The output buffer after one tap.
pub open spec fn accumulate_tap<T, K, O>(
    image: Seq<T>,
    coefficient: K,
    alignment: int,
    buf: Seq<O>,
    scale: Scale<T, K, O>,
    combine: Accumulate<O>,
) -> Seq<O> {
    Seq::new(
        buf.len(),
        |at: int| tap_cell(image, coefficient, alignment, buf[at], at, scale, combine),
    )
}

/// The product and the sum that one tap computes for the cell at `at`, with
/// `*` and `+`, are defined.
pub open spec fn tap_cell_permitted<T, K, O>(
    image: Seq<T>,
    coefficient: K,
    alignment: int,
    held: O,
    at: int,
) -> bool where T: Mul<K, Output = O>, O: Add<Output = O> {
    0 <= at - alignment < image.len() ==> {
        &&& image[at - alignment].mul_req(coefficient)
        &&& held.add_req(image[at - alignment].mul_spec(coefficient))
    }
}

/// Every product and every sum that one tap computes with `*` and `+` is
/// defined.
pub open spec fn tap_permitted<T, K, O>(
    image: Seq<T>,
    coefficient: K,
    alignment: int,
    buf: Seq<O>,
) -> bool where T: Mul<K, Output = O>, O: Add<Output = O> {
    forall|at: int|
        0 <= at < buf.len() ==> #[trigger] tap_cell_permitted(
            image,
            coefficient,
            alignment,
            buf[at],
            at,
        )
}

/// The number of cells by which the tap at `row` and `col` of the flipped
/// kernel shifts the image against the output: its distance from the kernel's
/// centre, counted along the row-major order of an image `image_width` wide.
pub open spec fn tap_alignment(
    image_width: nat,
    kernel_width: nat,
    kernel_height: nat,
    row: int,
    col: int,
) -> int {
    (row - kernel_height / 2) * image_width + (col - kernel_width / 2)
}

/// Every alignment that a kernel of this shape induces on an image of this
/// width can be held in an `isize`.
pub open spec fn alignments_fit(image_width: nat, kernel_width: nat, kernel_height: nat) -> bool {
    forall|row: int, col: int|
        0 <= row < kernel_height && 0 <= col < kernel_width ==> isize::MIN <= #[trigger] tap_alignment(
            image_width,
            kernel_width,
            kernel_height,
            row,
            col,
        ) <= isize::MAX
}

/// The cell at `at` after the first `cols` taps of row `row` of the flipped
/// kernel, taken from left to right, where it held `held` before them.
pub open spec fn cell_after_taps<T, K, O, M: Matrix<K>>(
    image: Seq<T>,
    image_width: nat,
    kernel: &M,
    row: int,
    cols: nat,
    held: O,
    at: int,
    scale: Scale<T, K, O>,
    combine: Accumulate<O>,
) -> O
    decreases cols,
{
    if cols == 0 {
        held
    } else {
        let col = cols - 1;
        tap_cell(
            image,
            FlippedMatrix(kernel).entry(row, col),
            tap_alignment(image_width, kernel.width(), kernel.height(), row, col),
            cell_after_taps(image, image_width, kernel, row, col as nat, held, at, scale, combine),
            at,
            scale,
            combine,
        )
    }
}

/// The cell at `at` after the first `rows` rows of the flipped kernel, taken
/// from top to bottom, where it held `held` before them.
pub open spec fn cell_after_rows<T, K, O, M: Matrix<K>>(
    image: Seq<T>,
    image_width: nat,
    kernel: &M,
    rows: nat,
    held: O,
    at: int,
    scale: Scale<T, K, O>,
    combine: Accumulate<O>,
) -> O
    decreases rows,
{
    if rows == 0 {
        held
    } else {
        let row = rows - 1;
        cell_after_taps(
            image,
            image_width,
            kernel,
            row,
            kernel.width(),
            cell_after_rows(image, image_width, kernel, row as nat, held, at, scale, combine),
            at,
            scale,
            combine,
        )
    }
}

/// The cell at `at` of the convolution of an image with a kernel, where the
/// output held `held` there: every tap of the flipped kernel, in reading
/// order, has added the image element that it puts under the cell, scaled by
/// its coefficient. A tap that puts no element under the cell adds nothing,
/// so the image counts as zero outside its extent.
pub open spec fn convolved_cell<T, K, O, M: Matrix<K>>(
    image: Seq<T>,
    image_width: nat,
    kernel: &M,
    held: O,
    at: int,
    scale: Scale<T, K, O>,
    combine: Accumulate<O>,
) -> O {
    cell_after_rows(image, image_width, kernel, kernel.height(), held, at, scale, combine)
}

/// The convolution of an image with a kernel, accumulated onto `buf` with
/// `*` and `+`.
pub open spec fn convolution<T, K, O, M>(
    image: Seq<T>,
    image_width: nat,
    kernel: &M,
    buf: Seq<O>,
) -> Seq<O> where T: Mul<K, Output = O>, O: Add<Output = O>, M: Matrix<K> {
    Seq::new(
        buf.len(),
        |at: int|
            convolved_cell(
                image,
                image_width,
                kernel,
                buf[at],
                at,
                product::<T, K, O>(),
                sum::<O>(),
            ),
    )
}

/// The convolution of an image with a kernel, accumulated onto `buf` with
/// the saturating product and sum.
pub open spec fn saturating_convolution<T, K, O, M>(
    image: Seq<T>,
    image_width: nat,
    kernel: &M,
    buf: Seq<O>,
) -> Seq<O> where T: SaturatingMul<K, Output = O>, O: SaturatingAdd<Output = O>, M: Matrix<K> {
    Seq::new(
        buf.len(),
        |at: int|
            convolved_cell(
                image,
                image_width,
                kernel,
                buf[at],
                at,
                saturating_product::<T, K, O>(),
                saturating_sum::<O>(),
            ),
    )
}

/// A buffer of `len` cells that all hold `zero`.
pub open spec fn blank<O>(len: nat, zero: O) -> Seq<O> {
    Seq::new(len, |at: int| zero)
}

/// Every product and every sum that the first `cols` taps of a row compute
/// for the cell at `at` is defined.
pub open spec fn taps_permitted_at<T, K, O, M>(
    image: Seq<T>,
    image_width: nat,
    kernel: &M,
    row: int,
    cols: nat,
    held: O,
    at: int,
) -> bool where T: Mul<K, Output = O>, O: Add<Output = O>, M: Matrix<K>
    decreases cols,
{
    cols == 0 || {
        let col = cols - 1;
        &&& taps_permitted_at(image, image_width, kernel, row, col as nat, held, at)
        &&& tap_cell_permitted(
            image,
            FlippedMatrix(kernel).entry(row, col),
            tap_alignment(image_width, kernel.width(), kernel.height(), row, col),
            cell_after_taps(
                image,
                image_width,
                kernel,
                row,
                col as nat,
                held,
                at,
                product::<T, K, O>(),
                sum::<O>(),
            ),
            at,
        )
    }
}

/// Every product and every sum that the first `rows` rows of taps compute for
/// the cell at `at` is defined.
pub open spec fn rows_permitted_at<T, K, O, M>(
    image: Seq<T>,
    image_width: nat,
    kernel: &M,
    rows: nat,
    held: O,
    at: int,
) -> bool where T: Mul<K, Output = O>, O: Add<Output = O>, M: Matrix<K>
    decreases rows,
{
    rows == 0 || {
        let row = rows - 1;
        &&& rows_permitted_at(image, image_width, kernel, row as nat, held, at)
        &&& taps_permitted_at(
            image,
            image_width,
            kernel,
            row,
            kernel.width(),
            cell_after_rows(
                image,
                image_width,
                kernel,
                row as nat,
                held,
                at,
                product::<T, K, O>(),
                sum::<O>(),
            ),
            at,
        )
    }
}

/// Every product and every sum of the convolution is defined: for the
/// integers, none overflows.
pub open spec fn convolution_permitted<T, K, O, M>(
    image: Seq<T>,
    image_width: nat,
    kernel: &M,
    buf: Seq<O>,
) -> bool where T: Mul<K, Output = O>, O: Add<Output = O>, M: Matrix<K> {
    forall|at: int|
        0 <= at < buf.len() ==> rows_permitted_at(
            image,
            image_width,
            kernel,
            kernel.height(),
            #[trigger] buf[at],
            at,
        )
}

} // verus!
