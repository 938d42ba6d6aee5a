//! What holds of every convolution: a tap's alignment is its displacement
//! from the kernel's centre, a zero image gives a zero result, and the kernel
//! that holds one at its centre gives the image back.
use vstd::prelude::*;
use vstd::std_specs::ops::{AddSpec, MulSpec};
use core::ops::{Add, Mul};
use crate::matrix::{cell_index, FlippedMatrix, Matrix};
use crate::model::{
    blank, cell_after_rows, cell_after_taps, convolution, convolution_permitted, convolved_cell,
    product, rows_permitted_at, saturating_convolution, saturating_product, saturating_sum, sum,
    tap_alignment, taps_permitted_at, Accumulate, Scale,
};
use crate::saturating::{SaturatingAdd, SaturatingMul};

verus! {

/// A shift by a tap's alignment along the row-major order is a shift by the
/// tap's rows and columns off the kernel's centre: the element that the tap
/// puts under the cell at `row` and `col` of the output lies as many rows and
/// columns before that cell as the tap lies after the centre.
///
/// Where that column lies outside the image, the position is one of a
/// neighbouring row.
pub proof fn lemma_alignment_is_displacement(
    image_width: nat,
    kernel_width: nat,
    kernel_height: nat,
    tap_row: int,
    tap_col: int,
    row: int,
    col: int,
)
    ensures
        cell_index(image_width, row, col) - tap_alignment(
            image_width,
            kernel_width,
            kernel_height,
            tap_row,
            tap_col,
        ) == cell_index(
            image_width,
            row - (tap_row - kernel_height / 2),
            col - (tap_col - kernel_width / 2),
        ),
{
    let rows_off = tap_row - kernel_height / 2;
    assert(row * image_width - rows_off * image_width == (row - rows_off) * image_width)
        by (nonlinear_arith);
}

/// On an image whose cells all hold `dark`, the first `cols` taps of a row
/// leave a cell that holds `nothing` as it was.
proof fn lemma_dark_taps<T, K, O, M: Matrix<K>>(
    image: Seq<T>,
    image_width: nat,
    kernel: &M,
    row: int,
    cols: nat,
    at: int,
    dark: T,
    nothing: O,
    scale: Scale<T, K, O>,
    combine: Accumulate<O>,
)
    requires
        forall|from: int| 0 <= from < image.len() ==> image[from] == dark,
        forall|k: K| #[trigger] scale(dark, k) == nothing,
        combine(nothing, nothing) == nothing,
    ensures
        cell_after_taps(image, image_width, kernel, row, cols, nothing, at, scale, combine)
            == nothing,
    decreases cols,
{
    if cols > 0 {
        lemma_dark_taps(
            image,
            image_width,
            kernel,
            row,
            (cols - 1) as nat,
            at,
            dark,
            nothing,
            scale,
            combine,
        );
    }
}

/// On an image whose cells all hold `dark`, the first `rows` rows of taps
/// leave a cell that holds `nothing` as it was.
proof fn lemma_dark_rows<T, K, O, M: Matrix<K>>(
    image: Seq<T>,
    image_width: nat,
    kernel: &M,
    rows: nat,
    at: int,
    dark: T,
    nothing: O,
    scale: Scale<T, K, O>,
    combine: Accumulate<O>,
)
    requires
        forall|from: int| 0 <= from < image.len() ==> image[from] == dark,
        forall|k: K| #[trigger] scale(dark, k) == nothing,
        combine(nothing, nothing) == nothing,
    ensures
        cell_after_rows(image, image_width, kernel, rows, nothing, at, scale, combine) == nothing,
    decreases rows,
{
    if rows > 0 {
        let row = rows - 1;
        lemma_dark_rows(image, image_width, kernel, row as nat, at, dark, nothing, scale, combine);
        lemma_dark_taps(
            image,
            image_width,
            kernel,
            row,
            kernel.width(),
            at,
            dark,
            nothing,
            scale,
            combine,
        );
    }
}

/// Convolving an image that is zero everywhere gives a result that is zero
/// everywhere, whatever the image's size and whatever the kernel.
///
/// Zero is a value `dark` of the image's elements and a value `nothing` of
/// the output's cells such that `dark`, scaled by any coefficient, is
/// `nothing`, and `nothing` added to itself is `nothing`.
pub proof fn lemma_zero_image<T, K, O, M>(
    image: Seq<T>,
    image_width: nat,
    kernel: &M,
    len: nat,
    dark: T,
    nothing: O,
) where T: Mul<K, Output = O>, O: Add<Output = O>, M: Matrix<K>
    requires
        forall|from: int| 0 <= from < image.len() ==> image[from] == dark,
        forall|k: K| #[trigger] dark.mul_spec(k) == nothing,
        nothing.add_spec(nothing) == nothing,
    ensures
        convolution(image, image_width, kernel, blank(len, nothing)) == blank(len, nothing),
{
    assert forall|at: int| 0 <= at < len implies convolved_cell(
        image,
        image_width,
        kernel,
        nothing,
        at,
        product::<T, K, O>(),
        sum::<O>(),
    ) == nothing by {
        lemma_dark_rows(
            image,
            image_width,
            kernel,
            kernel.height(),
            at,
            dark,
            nothing,
            product::<T, K, O>(),
            sum::<O>(),
        );
    }
    assert(convolution(image, image_width, kernel, blank(len, nothing)) =~= blank(len, nothing));
}

/// The saturating convolution of an image that is zero everywhere is zero
/// everywhere, whatever the image's size and whatever the kernel.
pub proof fn lemma_zero_image_saturating<T, K, O, M>(
    image: Seq<T>,
    image_width: nat,
    kernel: &M,
    len: nat,
    dark: T,
    nothing: O,
) where T: SaturatingMul<K, Output = O>, O: SaturatingAdd<Output = O>, M: Matrix<K>
    requires
        forall|from: int| 0 <= from < image.len() ==> image[from] == dark,
        forall|k: K| #[trigger] dark.saturating_mul_spec(k) == nothing,
        nothing.saturating_add_spec(nothing) == nothing,
    ensures
        saturating_convolution(image, image_width, kernel, blank(len, nothing)) == blank(
            len,
            nothing,
        ),
{
    assert forall|at: int| 0 <= at < len implies convolved_cell(
        image,
        image_width,
        kernel,
        nothing,
        at,
        saturating_product::<T, K, O>(),
        saturating_sum::<O>(),
    ) == nothing by {
        lemma_dark_rows(
            image,
            image_width,
            kernel,
            kernel.height(),
            at,
            dark,
            nothing,
            saturating_product::<T, K, O>(),
            saturating_sum::<O>(),
        );
    }
    assert(saturating_convolution(image, image_width, kernel, blank(len, nothing)) =~= blank(
        len,
        nothing,
    ));
}

/// A kernel of three rows of three whose centre holds `one` and whose other
/// entries hold `none`.
pub open spec fn centre_kernel<K, M: Matrix<K>>(kernel: &M, none: K, one: K) -> bool {
    &&& kernel.width() == 3
    &&& kernel.height() == 3
    &&& forall|row: int, col: int|
        0 <= row < 3 && 0 <= col < 3 ==> #[trigger] kernel.entry(row, col) == (if row == 1 && col
            == 1 {
            one
        } else {
            none
        })
}

/// Under a centre kernel, a row of taps other than the middle one leaves a
/// cell as it was, and the middle one adds the image's element at the cell's
/// own position to it.
proof fn lemma_centre_row<T, K, M: Matrix<K>>(
    image: Seq<T>,
    image_width: nat,
    kernel: &M,
    none: K,
    one: K,
    row: int,
    held: T,
    at: int,
    nothing: T,
    scale: Scale<T, K, T>,
    combine: Accumulate<T>,
)
    requires
        centre_kernel(kernel, none, one),
        0 <= row < 3,
        0 <= at < image.len(),
        forall|x: T| #[trigger] scale(x, none) == nothing,
        forall|x: T| #[trigger] scale(x, one) == x,
        forall|y: T| #[trigger] combine(y, nothing) == y,
    ensures
        row != 1 ==> cell_after_taps(image, image_width, kernel, row, 3, held, at, scale, combine)
            == held,
        row == 1 ==> cell_after_taps(image, image_width, kernel, row, 3, held, at, scale, combine)
            == combine(held, image[at]),
{
    let flipped = FlippedMatrix(kernel);
    let first = cell_after_taps(image, image_width, kernel, row, 1, held, at, scale, combine);
    let second = cell_after_taps(image, image_width, kernel, row, 2, held, at, scale, combine);
    let third = cell_after_taps(image, image_width, kernel, row, 3, held, at, scale, combine);
    assert(cell_after_taps(image, image_width, kernel, row, 0, held, at, scale, combine) == held);
    assert(flipped.entry(row, 0) == kernel.entry(2 - row, 2));
    assert(flipped.entry(row, 1) == kernel.entry(2 - row, 1));
    assert(flipped.entry(row, 2) == kernel.entry(2 - row, 0));
    assert(first == held);
    if row == 1 {
        assert(tap_alignment(image_width, 3, 3, 1, 1) == 0) by (nonlinear_arith);
        assert(second == combine(held, image[at]));
    } else {
        assert(second == first);
    }
    assert(third == second);
}

/// Under a centre kernel, the taps of all three rows turn a cell that holds
/// `nothing` into the image's element at the cell's position.
proof fn lemma_centre_rows<T, K, M: Matrix<K>>(
    image: Seq<T>,
    image_width: nat,
    kernel: &M,
    none: K,
    one: K,
    at: int,
    nothing: T,
    scale: Scale<T, K, T>,
    combine: Accumulate<T>,
)
    requires
        centre_kernel(kernel, none, one),
        0 <= at < image.len(),
        forall|x: T| #[trigger] scale(x, none) == nothing,
        forall|x: T| #[trigger] scale(x, one) == x,
        forall|y: T| #[trigger] combine(y, nothing) == y,
        forall|x: T| #[trigger] combine(nothing, x) == x,
    ensures
        convolved_cell(image, image_width, kernel, nothing, at, scale, combine) == image[at],
{
    let top = cell_after_rows(image, image_width, kernel, 1, nothing, at, scale, combine);
    let middle = cell_after_rows(image, image_width, kernel, 2, nothing, at, scale, combine);
    assert(cell_after_rows(image, image_width, kernel, 0, nothing, at, scale, combine) == nothing);
    lemma_centre_row(image, image_width, kernel, none, one, 0, nothing, at, nothing, scale, combine);
    assert(top == nothing);
    lemma_centre_row(image, image_width, kernel, none, one, 1, top, at, nothing, scale, combine);
    assert(middle == image[at]);
    lemma_centre_row(image, image_width, kernel, none, one, 2, middle, at, nothing, scale, combine);
}

/// Convolving any image with the kernel that holds one at its centre and
/// zero around it, onto a buffer that is zero everywhere, gives the image.
///
/// Zero is a coefficient `none` and a cell value `nothing` such that every
/// element scaled by `none` is `nothing`, and `nothing` added to a value, on
/// either side, is that value. One is a coefficient `one` that scales every
/// element to itself.
pub proof fn lemma_identity_kernel<T, K, M>(
    image: Seq<T>,
    image_width: nat,
    kernel: &M,
    none: K,
    one: K,
    nothing: T,
) where T: Mul<K, Output = T> + Add<Output = T>, M: Matrix<K>
    requires
        centre_kernel(kernel, none, one),
        forall|x: T| #[trigger] x.mul_spec(none) == nothing,
        forall|x: T| #[trigger] x.mul_spec(one) == x,
        forall|y: T| #[trigger] y.add_spec(nothing) == y,
        forall|x: T| #[trigger] nothing.add_spec(x) == x,
    ensures
        convolution(image, image_width, kernel, blank(image.len(), nothing)) == image,
{
    assert forall|at: int| 0 <= at < image.len() implies convolved_cell(
        image,
        image_width,
        kernel,
        nothing,
        at,
        product::<T, K, T>(),
        sum::<T>(),
    ) == image[at] by {
        lemma_centre_rows(
            image,
            image_width,
            kernel,
            none,
            one,
            at,
            nothing,
            product::<T, K, T>(),
            sum::<T>(),
        );
    }
    assert(convolution(image, image_width, kernel, blank(image.len(), nothing)) =~= image);
}

/// The saturating convolution of any image with the kernel that holds one at
/// its centre and zero around it, onto a buffer that is zero everywhere,
/// gives the image.
pub proof fn lemma_identity_kernel_saturating<T, K, M>(
    image: Seq<T>,
    image_width: nat,
    kernel: &M,
    none: K,
    one: K,
    nothing: T,
) where T: SaturatingMul<K, Output = T> + SaturatingAdd<Output = T>, M: Matrix<K>
    requires
        centre_kernel(kernel, none, one),
        forall|x: T| #[trigger] x.saturating_mul_spec(none) == nothing,
        forall|x: T| #[trigger] x.saturating_mul_spec(one) == x,
        forall|y: T| #[trigger] y.saturating_add_spec(nothing) == y,
        forall|x: T| #[trigger] nothing.saturating_add_spec(x) == x,
    ensures
        saturating_convolution(image, image_width, kernel, blank(image.len(), nothing)) == image,
{
    assert forall|at: int| 0 <= at < image.len() implies convolved_cell(
        image,
        image_width,
        kernel,
        nothing,
        at,
        saturating_product::<T, K, T>(),
        saturating_sum::<T>(),
    ) == image[at] by {
        lemma_centre_rows(
            image,
            image_width,
            kernel,
            none,
            one,
            at,
            nothing,
            saturating_product::<T, K, T>(),
            saturating_sum::<T>(),
        );
    }
    assert(saturating_convolution(image, image_width, kernel, blank(image.len(), nothing))
        =~= image);
}

/// On an image that is zero everywhere, and a buffer that is zero
/// everywhere, every product and every sum of the convolution is defined,
/// where scaling zero and adding zero to zero are.
pub proof fn lemma_zero_image_permitted<T, K, O, M>(
    image: Seq<T>,
    image_width: nat,
    kernel: &M,
    len: nat,
    dark: T,
    nothing: O,
) where T: Mul<K, Output = O>, O: Add<Output = O>, M: Matrix<K>
    requires
        forall|from: int| 0 <= from < image.len() ==> image[from] == dark,
        forall|k: K| #[trigger] dark.mul_spec(k) == nothing,
        nothing.add_spec(nothing) == nothing,
        forall|k: K| #[trigger] dark.mul_req(k),
        nothing.add_req(nothing),
    ensures
        convolution_permitted(image, image_width, kernel, blank(len, nothing)),
{
    assert forall|at: int| 0 <= at < len implies rows_permitted_at(
        image,
        image_width,
        kernel,
        kernel.height(),
        nothing,
        at,
    ) by {
        lemma_dark_rows_permitted(image, image_width, kernel, kernel.height(), at, dark, nothing);
    }
}

/// On an image whose cells all hold `dark`, every product and every sum that
/// the first `cols` taps of a row compute for a cell that holds `nothing` is
/// defined.
proof fn lemma_dark_taps_permitted<T, K, O, M>(
    image: Seq<T>,
    image_width: nat,
    kernel: &M,
    row: int,
    cols: nat,
    at: int,
    dark: T,
    nothing: O,
) where T: Mul<K, Output = O>, O: Add<Output = O>, M: Matrix<K>
    requires
        forall|from: int| 0 <= from < image.len() ==> image[from] == dark,
        forall|k: K| #[trigger] dark.mul_spec(k) == nothing,
        nothing.add_spec(nothing) == nothing,
        forall|k: K| #[trigger] dark.mul_req(k),
        nothing.add_req(nothing),
    ensures
        taps_permitted_at(image, image_width, kernel, row, cols, nothing, at),
    decreases cols,
{
    if cols > 0 {
        let col = (cols - 1) as nat;
        lemma_dark_taps_permitted(image, image_width, kernel, row, col, at, dark, nothing);
        lemma_dark_taps(
            image,
            image_width,
            kernel,
            row,
            col,
            at,
            dark,
            nothing,
            product::<T, K, O>(),
            sum::<O>(),
        );
    }
}

/// On an image whose cells all hold `dark`, every product and every sum that
/// the first `rows` rows of taps compute for a cell that holds `nothing` is
/// defined.
proof fn lemma_dark_rows_permitted<T, K, O, M>(
    image: Seq<T>,
    image_width: nat,
    kernel: &M,
    rows: nat,
    at: int,
    dark: T,
    nothing: O,
) where T: Mul<K, Output = O>, O: Add<Output = O>, M: Matrix<K>
    requires
        forall|from: int| 0 <= from < image.len() ==> image[from] == dark,
        forall|k: K| #[trigger] dark.mul_spec(k) == nothing,
        nothing.add_spec(nothing) == nothing,
        forall|k: K| #[trigger] dark.mul_req(k),
        nothing.add_req(nothing),
    ensures
        rows_permitted_at(image, image_width, kernel, rows, nothing, at),
    decreases rows,
{
    if rows > 0 {
        let row = (rows - 1) as nat;
        lemma_dark_rows_permitted(image, image_width, kernel, row, at, dark, nothing);
        lemma_dark_rows(
            image,
            image_width,
            kernel,
            row,
            at,
            dark,
            nothing,
            product::<T, K, O>(),
            sum::<O>(),
        );
        lemma_dark_taps_permitted(
            image,
            image_width,
            kernel,
            row as int,
            kernel.width(),
            at,
            dark,
            nothing,
        );
    }
}

/// Under a centre kernel, every product and every sum of one row of taps is
/// defined: of the middle row for a cell that holds `nothing`, of another row
/// for a cell that holds anything.
proof fn lemma_centre_row_permitted<T, K, M>(
    image: Seq<T>,
    image_width: nat,
    kernel: &M,
    none: K,
    one: K,
    row: int,
    held: T,
    at: int,
    nothing: T,
) where T: Mul<K, Output = T> + Add<Output = T>, M: Matrix<K>
    requires
        centre_kernel(kernel, none, one),
        0 <= row < 3,
        0 <= at < image.len(),
        row == 1 ==> held == nothing,
        forall|x: T| #[trigger] x.mul_spec(none) == nothing,
        forall|x: T| #[trigger] x.mul_spec(one) == x,
        forall|y: T| #[trigger] y.add_spec(nothing) == y,
        forall|x: T| #[trigger] x.mul_req(none),
        forall|x: T| #[trigger] x.mul_req(one),
        forall|y: T| #[trigger] y.add_req(nothing),
        forall|x: T| #[trigger] nothing.add_req(x),
    ensures
        taps_permitted_at(image, image_width, kernel, row, 3, held, at),
{
    let flipped = FlippedMatrix(kernel);
    let scale = product::<T, K, T>();
    let combine = sum::<T>();
    let first = cell_after_taps(image, image_width, kernel, row, 1, held, at, scale, combine);
    let second = cell_after_taps(image, image_width, kernel, row, 2, held, at, scale, combine);
    assert(cell_after_taps(image, image_width, kernel, row, 0, held, at, scale, combine) == held);
    assert(flipped.entry(row, 0) == kernel.entry(2 - row, 2));
    assert(flipped.entry(row, 1) == kernel.entry(2 - row, 1));
    assert(flipped.entry(row, 2) == kernel.entry(2 - row, 0));
    assert(first == held);
    assert(taps_permitted_at(image, image_width, kernel, row, 0, held, at));
    assert(taps_permitted_at(image, image_width, kernel, row, 1, held, at));
    if row == 1 {
        assert(tap_alignment(image_width, 3, 3, 1, 1) == 0) by (nonlinear_arith);
    } else {
        assert(second == first);
    }
    assert(taps_permitted_at(image, image_width, kernel, row, 2, held, at));
}

/// Convolving any image with the kernel that holds one at its centre and
/// zero around it, onto a buffer that is zero everywhere, computes only
/// products and sums that are defined, where scaling by zero and by one and
/// adding zero on either side are.
pub proof fn lemma_identity_kernel_permitted<T, K, M>(
    image: Seq<T>,
    image_width: nat,
    kernel: &M,
    none: K,
    one: K,
    nothing: T,
) where T: Mul<K, Output = T> + Add<Output = T>, M: Matrix<K>
    requires
        centre_kernel(kernel, none, one),
        forall|x: T| #[trigger] x.mul_spec(none) == nothing,
        forall|x: T| #[trigger] x.mul_spec(one) == x,
        forall|y: T| #[trigger] y.add_spec(nothing) == y,
        forall|x: T| #[trigger] nothing.add_spec(x) == x,
        forall|x: T| #[trigger] x.mul_req(none),
        forall|x: T| #[trigger] x.mul_req(one),
        forall|y: T| #[trigger] y.add_req(nothing),
        forall|x: T| #[trigger] nothing.add_req(x),
    ensures
        convolution_permitted(image, image_width, kernel, blank(image.len(), nothing)),
{
    let scale = product::<T, K, T>();
    let combine = sum::<T>();
    assert forall|at: int| 0 <= at < image.len() implies rows_permitted_at(
        image,
        image_width,
        kernel,
        kernel.height(),
        nothing,
        at,
    ) by {
        let top = cell_after_rows(image, image_width, kernel, 1, nothing, at, scale, combine);
        let middle = cell_after_rows(image, image_width, kernel, 2, nothing, at, scale, combine);
        assert(cell_after_rows(image, image_width, kernel, 0, nothing, at, scale, combine)
            == nothing);
        assert(rows_permitted_at(image, image_width, kernel, 0, nothing, at));
        lemma_centre_row(
            image,
            image_width,
            kernel,
            none,
            one,
            0,
            nothing,
            at,
            nothing,
            scale,
            combine,
        );
        lemma_centre_row_permitted(image, image_width, kernel, none, one, 0, nothing, at, nothing);
        assert(rows_permitted_at(image, image_width, kernel, 1, nothing, at));
        lemma_centre_row_permitted(image, image_width, kernel, none, one, 1, top, at, nothing);
        assert(rows_permitted_at(image, image_width, kernel, 2, nothing, at));
        lemma_centre_row_permitted(image, image_width, kernel, none, one, 2, middle, at, nothing);
    }
}

} // verus!
