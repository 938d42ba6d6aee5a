//! The convolution engine: one pass over the image per kernel tap.
//!
//! For each tap of the flipped kernel the engine computes the tap's
//! alignment, the number of cells by which the whole image is shifted
//! against the output, and adds the shifted image, scaled by the tap's
//! coefficient, to the output. What the shift moves past either end of the
//! output is dropped.
use vstd::prelude::*;
use vstd::std_specs::ops::{AddSpec, MulSpec};
use core::ops::{Add, Mul};
use crate::matrix::{well_formed, DynamicMatrix, FlippedMatrix, Matrix, MatrixMut};
use crate::model::{
    accumulate_tap, alignments_fit, blank, cell_after_rows, cell_after_taps, clone_is_exact,
    convolution, convolution_permitted, product, rows_permitted_at, saturating_convolution,
    saturating_product, saturating_sum, sum, tap_alignment, tap_cell, tap_cell_permitted,
    tap_permitted, taps_permitted_at,
};
use crate::saturating::{SaturatingAdd, SaturatingMul};

verus! {

/// What is permitted of the first `rows` rows is permitted of fewer.
proof fn lemma_fewer_rows_permitted<T, K, O, M>(
    image: Seq<T>,
    image_width: nat,
    kernel: &M,
    rows: nat,
    fewer: nat,
    held: O,
    at: int,
) where T: Mul<K, Output = O>, O: Add<Output = O>, M: Matrix<K>
    requires
        fewer <= rows,
        rows_permitted_at(image, image_width, kernel, rows, held, at),
    ensures
        rows_permitted_at(image, image_width, kernel, fewer, held, at),
    decreases rows,
{
    if fewer < rows {
        lemma_fewer_rows_permitted(image, image_width, kernel, (rows - 1) as nat, fewer, held, at);
    }
}

/// What is permitted of the first `cols` taps of a row is permitted of fewer.
proof fn lemma_fewer_taps_permitted<T, K, O, M>(
    image: Seq<T>,
    image_width: nat,
    kernel: &M,
    row: int,
    cols: nat,
    fewer: nat,
    held: O,
    at: int,
) where T: Mul<K, Output = O>, O: Add<Output = O>, M: Matrix<K>
    requires
        fewer <= cols,
        taps_permitted_at(image, image_width, kernel, row, cols, held, at),
    ensures
        taps_permitted_at(image, image_width, kernel, row, fewer, held, at),
    decreases cols,
{
    if fewer < cols {
        lemma_fewer_taps_permitted(
            image,
            image_width,
            kernel,
            row,
            (cols - 1) as nat,
            fewer,
            held,
            at,
        );
    }
}

/// Where the whole convolution is permitted, so is the tap at `row` and
/// `col`, on the buffer that the taps before it have left.
proof fn lemma_tap_permitted<T, K, O, M>(
    image: Seq<T>,
    image_width: nat,
    kernel: &M,
    row: int,
    col: int,
    start: Seq<O>,
    current: Seq<O>,
) where T: Mul<K, Output = O>, O: Add<Output = O>, M: Matrix<K>
    requires
        0 <= row < kernel.height(),
        0 <= col < kernel.width(),
        convolution_permitted(image, image_width, kernel, start),
        current.len() == start.len(),
        forall|at: int|
            0 <= at < start.len() ==> #[trigger] current[at] == cell_after_taps(
                image,
                image_width,
                kernel,
                row,
                col as nat,
                cell_after_rows(
                    image,
                    image_width,
                    kernel,
                    row as nat,
                    start[at],
                    at,
                    product::<T, K, O>(),
                    sum::<O>(),
                ),
                at,
                product::<T, K, O>(),
                sum::<O>(),
            ),
    ensures
        tap_permitted(
            image,
            FlippedMatrix(kernel).entry(row, col),
            tap_alignment(image_width, kernel.width(), kernel.height(), row, col),
            current,
        ),
{
    assert forall|at: int| 0 <= at < current.len() implies #[trigger] tap_cell_permitted(
        image,
        FlippedMatrix(kernel).entry(row, col),
        tap_alignment(image_width, kernel.width(), kernel.height(), row, col),
        current[at],
        at,
    ) by {
        let held = start[at];
        assert(rows_permitted_at(image, image_width, kernel, kernel.height(), held, at));
        lemma_fewer_rows_permitted(
            image,
            image_width,
            kernel,
            kernel.height(),
            (row + 1) as nat,
            held,
            at,
        );
        let before = cell_after_rows(
            image,
            image_width,
            kernel,
            row as nat,
            held,
            at,
            product::<T, K, O>(),
            sum::<O>(),
        );
        lemma_fewer_taps_permitted(
            image,
            image_width,
            kernel,
            row,
            kernel.width(),
            (col + 1) as nat,
            before,
            at,
        );
    }
}

/// The alignments of a row of taps grow from left to right, and those of a
/// column from top to bottom: all lie between the one of the first tap and
/// the one of the last.
proof fn lemma_alignment_between(
    image_width: nat,
    kernel_width: nat,
    kernel_height: nat,
    row: int,
    col: int,
)
    requires
        0 <= row < kernel_height,
        0 <= col < kernel_width,
    ensures
        tap_alignment(image_width, kernel_width, kernel_height, 0, 0) <= tap_alignment(
            image_width,
            kernel_width,
            kernel_height,
            row,
            col,
        ) <= tap_alignment(
            image_width,
            kernel_width,
            kernel_height,
            kernel_height - 1,
            kernel_width - 1,
        ),
{
    let centre = (kernel_height / 2) as int;
    assert((0 - centre) * image_width <= (row - centre) * image_width <= (kernel_height - 1
        - centre) * image_width) by (nonlinear_arith)
        requires
            0 <= row < kernel_height,
            0 <= image_width,
    ;
}

/// Where the alignments fit, the part of an alignment that a tap's row
/// gives is an `isize` too.
proof fn lemma_row_shift_fits(
    image_width: nat,
    kernel_width: nat,
    kernel_height: nat,
    row: int,
    col: int,
)
    requires
        alignments_fit(image_width, kernel_width, kernel_height),
        0 <= row < kernel_height,
        0 <= col < kernel_width,
    ensures
        isize::MIN <= (row - kernel_height / 2) * image_width <= isize::MAX,
        isize::MIN <= tap_alignment(image_width, kernel_width, kernel_height, row, col)
            <= isize::MAX,
{
    let left = tap_alignment(image_width, kernel_width, kernel_height, row, 0);
    let right = tap_alignment(image_width, kernel_width, kernel_height, row, kernel_width - 1);
    assert(isize::MIN <= left);
    assert(right <= isize::MAX);
}

/// Convert the provided alignment to padding and choke values.
///
/// A positive alignment pads the output stream: its first cells are passed
/// over. A negative one chokes the input stream: its first elements are
/// thrown away.
pub fn alignment_to_choke_padding(alignment: isize) -> (r: (usize, usize))
    ensures
        r.0 == (if alignment < 0 { -alignment } else { 0 }),
        r.1 == (if alignment < 0 { 0 } else { alignment as int }),
{
    if alignment < 0 {
        // `-alignment` itself does not fit where `alignment` is the least `isize`.
        let short: isize = -(alignment + 1);
        (short as usize + 1, 0)
    } else {
        (0, alignment as usize)
    }
}

/// Tests whether every alignment that a kernel of this shape induces on an
/// image of this width can be held in an `isize`.
pub fn alignments_fit_in(image_width: usize, kernel_width: usize, kernel_height: usize) -> (fits:
    bool)
    ensures
        fits == alignments_fit(image_width as nat, kernel_width as nat, kernel_height as nat),
{
    if kernel_width == 0 || kernel_height == 0 {
        return true;
    }
    // The first tap has the least alignment and the last tap the greatest.
    let above = (kernel_height / 2) as u128;
    let below = (kernel_height - 1 - kernel_height / 2) as u128;
    let left = (kernel_width / 2) as u128;
    let right = (kernel_width - 1 - kernel_width / 2) as u128;
    let width = image_width as u128;
    assert(above * width <= 0xffff_ffff_ffff_ffff * 0xffff_ffff_ffff_ffff) by (nonlinear_arith)
        requires
            0 <= above <= 0xffff_ffff_ffff_ffff,
            0 <= width <= 0xffff_ffff_ffff_ffff,
    ;
    assert(below * width <= 0xffff_ffff_ffff_ffff * 0xffff_ffff_ffff_ffff) by (nonlinear_arith)
        requires
            0 <= below <= 0xffff_ffff_ffff_ffff,
            0 <= width <= 0xffff_ffff_ffff_ffff,
    ;
    let least = above * width + left;
    let greatest = below * width + right;
    let fits = least <= isize::MAX as u128 + 1 && greatest <= isize::MAX as u128;
    proof {
        let first = tap_alignment(image_width as nat, kernel_width as nat, kernel_height as nat, 0, 0);
        let last = tap_alignment(
            image_width as nat,
            kernel_width as nat,
            kernel_height as nat,
            kernel_height - 1,
            kernel_width - 1,
        );
        assert(first == -least) by (nonlinear_arith)
            requires
                first == (0 - kernel_height as nat / 2) * image_width as nat + (0
                    - kernel_width as nat / 2),
                least == above * width + left,
                above == kernel_height as nat / 2,
                left == kernel_width as nat / 2,
                width == image_width as nat,
        ;
        assert(last == greatest);
        if fits {
            assert forall|row: int, col: int|
                0 <= row < kernel_height && 0 <= col < kernel_width implies isize::MIN
                <= #[trigger] tap_alignment(
                image_width as nat,
                kernel_width as nat,
                kernel_height as nat,
                row,
                col,
            ) <= isize::MAX by {
                lemma_alignment_between(
                    image_width as nat,
                    kernel_width as nat,
                    kernel_height as nat,
                    row,
                    col,
                );
            }
        }
    }
    fits
}

/// The alignment of the tap at `row` and `col` of the flipped kernel: the
/// number of elements that the image needs to be shifted for this tap.
pub fn alignment_of_tap(
    image_width: usize,
    kernel_width: usize,
    kernel_height: usize,
    row: usize,
    col: usize,
) -> (alignment: isize)
    requires
        alignments_fit(image_width as nat, kernel_width as nat, kernel_height as nat),
        row < kernel_height,
        col < kernel_width,
    ensures
        alignment == tap_alignment(
            image_width as nat,
            kernel_width as nat,
            kernel_height as nat,
            row as int,
            col as int,
        ),
{
    proof {
        lemma_row_shift_fits(
            image_width as nat,
            kernel_width as nat,
            kernel_height as nat,
            row as int,
            col as int,
        );
    }
    let kernel_stride_x = (kernel_width / 2) as i128;
    let kernel_stride_y = (kernel_height / 2) as i128;

    // How many rows and columns there are between the centre of the kernel and the tap.
    let rows_off_center = row as i128 - kernel_stride_y;
    let cols_off_center = col as i128 - kernel_stride_x;

    // The alignment is an `isize`; the image's width alone need not be one.
    let alignment = rows_off_center * (image_width as i128) + cols_off_center;
    alignment as isize
}

/// One element of the image, scaled by the kernel value.
pub fn scaled_element<T, K, O>(element: &T, kernel_value: &K) -> (scaled: O) where
    T: Mul<K, Output = O> + Clone,
    K: Clone,

    requires
        T::obeys_mul_spec(),
        clone_is_exact::<T>(),
        clone_is_exact::<K>(),
        element.mul_req(*kernel_value),
    ensures
        scaled == element.mul_spec(*kernel_value),
{
    element.clone() * kernel_value.clone()
}

/// What a cell of the output holds once a scaled element is added to it.
pub fn accumulated_cell<O>(cell: &O, scaled: O) -> (total: O) where O: Add<Output = O> + Clone
    requires
        O::obeys_add_spec(),
        clone_is_exact::<O>(),
        cell.add_req(scaled),
    ensures
        total == cell.add_spec(scaled),
{
    cell.clone() + scaled
}

/// One element of the image, scaled by the kernel value without overflow.
pub fn saturating_scaled_element<T, K, O>(element: &T, kernel_value: &K) -> (scaled: O) where
    T: SaturatingMul<K, Output = O> + Clone,
    K: Clone,

    requires
        clone_is_exact::<T>(),
        clone_is_exact::<K>(),
    ensures
        scaled == element.saturating_mul_spec(*kernel_value),
{
    element.clone().saturating_mul(kernel_value.clone())
}

/// What a cell of the output holds once a scaled element is added to it
/// without overflow.
pub fn saturating_accumulated_cell<O>(cell: &O, scaled: O) -> (total: O) where
    O: SaturatingAdd<Output = O> + Clone,

    requires
        clone_is_exact::<O>(),
    ensures
        total == cell.saturating_add_spec(scaled),
{
    cell.clone().saturating_add(scaled)
}

/// Update the output buffer, multiplying the image by the kernel value and adding it to the
/// buffer at the specified alignment.
///
/// The cell at `at` takes the image element at `at - alignment`. Only the
/// products that are added are computed.
pub fn update_buffer<T, K, O>(image: &[T], kernel_value: K, alignment: isize, buf: &mut [O]) where
    T: Mul<K, Output = O> + Clone,
    K: Clone,
    O: Add<Output = O> + Clone,

    requires
        T::obeys_mul_spec(),
        O::obeys_add_spec(),
        clone_is_exact::<T>(),
        clone_is_exact::<K>(),
        clone_is_exact::<O>(),
        tap_permitted(image@, kernel_value, alignment as int, old(buf)@),
    ensures
        final(buf)@ == accumulate_tap(
            image@,
            kernel_value,
            alignment as int,
            old(buf)@,
            product::<T, K, O>(),
            sum::<O>(),
        ),
{
    let (choke, padding) = alignment_to_choke_padding(alignment);
    let mut from: usize = choke;
    let mut to: usize = padding;
    while from < image.len() && to < buf.len()
        invariant
            T::obeys_mul_spec(),
            O::obeys_add_spec(),
            clone_is_exact::<T>(),
            clone_is_exact::<K>(),
            clone_is_exact::<O>(),
            tap_permitted(image@, kernel_value, alignment as int, old(buf)@),
            to - from == alignment,
            buf@.len() == old(buf)@.len(),
            forall|at: int|
                0 <= at < to ==> buf@[at] == tap_cell(
                    image@,
                    kernel_value,
                    alignment as int,
                    old(buf)@[at],
                    at,
                    product::<T, K, O>(),
                    sum::<O>(),
                ),
            forall|at: int| to <= at < buf@.len() ==> buf@[at] == old(buf)@[at],
        decreases image.len() - from,
    {
        proof {
            let at = to as int;
            assert(buf@[at] == old(buf)@[at]);
            assert(tap_cell_permitted(
                image@,
                kernel_value,
                alignment as int,
                old(buf)@[at],
                at,
            ));
        }
        let scaled = scaled_element(&image[from], &kernel_value);
        let sum = accumulated_cell(&buf[to], scaled);
        buf[to] = sum;
        from += 1;
        to += 1;
    }
    assert(buf@ =~= accumulate_tap(
        image@,
        kernel_value,
        alignment as int,
        old(buf)@,
        product::<T, K, O>(),
        sum::<O>(),
    ));
}

/// Update the output buffer, multiplying the image by the kernel value and adding it to the
/// buffer at the specified alignment, both without overflow.
pub fn update_buffer_saturating<T, K, O>(image: &[T], kernel_value: K, alignment: isize, buf: &mut [O]) where
    T: SaturatingMul<K, Output = O> + Clone,
    K: Clone,
    O: SaturatingAdd<Output = O> + Clone,

    requires
        clone_is_exact::<T>(),
        clone_is_exact::<K>(),
        clone_is_exact::<O>(),
    ensures
        final(buf)@ == accumulate_tap(
            image@,
            kernel_value,
            alignment as int,
            old(buf)@,
            saturating_product::<T, K, O>(),
            saturating_sum::<O>(),
        ),
{
    let (choke, padding) = alignment_to_choke_padding(alignment);
    let mut from: usize = choke;
    let mut to: usize = padding;
    while from < image.len() && to < buf.len()
        invariant
            clone_is_exact::<T>(),
            clone_is_exact::<K>(),
            clone_is_exact::<O>(),
            to - from == alignment,
            buf@.len() == old(buf)@.len(),
            forall|at: int|
                0 <= at < to ==> buf@[at] == tap_cell(
                    image@,
                    kernel_value,
                    alignment as int,
                    old(buf)@[at],
                    at,
                    saturating_product::<T, K, O>(),
                    saturating_sum::<O>(),
                ),
            forall|at: int| to <= at < buf@.len() ==> buf@[at] == old(buf)@[at],
        decreases image.len() - from,
    {
        proof {
            assert(buf@[to as int] == old(buf)@[to as int]);
        }
        let scaled = saturating_scaled_element(&image[from], &kernel_value);
        let sum = saturating_accumulated_cell(&buf[to], scaled);
        buf[to] = sum;
        from += 1;
        to += 1;
    }
    assert(buf@ =~= accumulate_tap(
        image@,
        kernel_value,
        alignment as int,
        old(buf)@,
        saturating_product::<T, K, O>(),
        saturating_sum::<O>(),
    ));
}

/// Write the convolution of the provided image and kernel into the specified buffer.
///
/// The kernel is flipped, as is the custom for convolutions, and each of its
/// taps is accumulated onto what `out` holds on entry. The kernel must be
/// well formed: one that has no value at a position inside its shape is
/// broken. No product or sum may leave the range of its type.
pub fn write_convolution<T, K, O>(
    image: &impl Matrix<T>,
    kernel: &impl Matrix<K>,
    out: &mut impl MatrixMut<O>,
) where T: Mul<K, Output = O> + Clone, K: Clone, O: Add<Output = O> + Clone
    requires
        T::obeys_mul_spec(),
        O::obeys_add_spec(),
        convolution_permitted(image.cells(), image.width(), kernel, old(out).cells()),
        clone_is_exact::<T>(),
        clone_is_exact::<K>(),
        clone_is_exact::<O>(),
        well_formed(kernel),
        alignments_fit(image.width(), kernel.width(), kernel.height()),
    ensures
        final(out).cells() == convolution(image.cells(), image.width(), kernel, old(out).cells()),
        final(out).width() == old(out).width(),
        final(out).height() == old(out).height(),
        well_formed(old(out)) ==> well_formed(final(out)),
{
    // Flip the kernel, as is the custom for convolutions
    let flipped = FlippedMatrix(kernel);
    let kernel_width = flipped.get_width();
    let kernel_height = flipped.get_height();
    let image_width = image.get_width();

    let ghost start = out.cells();
    let ghost pixels = image.cells();

    let mut row: usize = 0;
    while row < kernel_height
        invariant
            T::obeys_mul_spec(),
            O::obeys_add_spec(),
            convolution_permitted(pixels, image.width(), kernel, start),
            clone_is_exact::<T>(),
            clone_is_exact::<K>(),
            clone_is_exact::<O>(),
            well_formed(kernel),
            flipped.0 == kernel,
            kernel_width == kernel.width(),
            kernel_height == kernel.height(),
            image_width == image.width(),
            pixels == image.cells(),
            alignments_fit(image.width(), kernel.width(), kernel.height()),
            row <= kernel_height,
            out.cells().len() == start.len(),
            forall|at: int|
                0 <= at < start.len() ==> #[trigger] out.cells()[at] == cell_after_rows(
                    pixels,
                    image.width(),
                    kernel,
                    row as nat,
                    start[at],
                    at,
                    product::<T, K, O>(),
                    sum::<O>(),
                ),
            out.width() == old(out).width(),
            out.height() == old(out).height(),
        decreases kernel_height - row,
    {
        let mut col: usize = 0;
        while col < kernel_width
            invariant
                T::obeys_mul_spec(),
                O::obeys_add_spec(),
                convolution_permitted(pixels, image.width(), kernel, start),
                clone_is_exact::<T>(),
                clone_is_exact::<K>(),
                clone_is_exact::<O>(),
                well_formed(kernel),
                flipped.0 == kernel,
                kernel_width == kernel.width(),
                kernel_height == kernel.height(),
                image_width == image.width(),
                pixels == image.cells(),
                alignments_fit(image.width(), kernel.width(), kernel.height()),
                row < kernel_height,
                col <= kernel_width,
                out.cells().len() == start.len(),
                forall|at: int|
                    0 <= at < start.len() ==> #[trigger] out.cells()[at] == cell_after_taps(
                        pixels,
                        image.width(),
                        kernel,
                        row as int,
                        col as nat,
                        cell_after_rows(
                            pixels,
                            image.width(),
                            kernel,
                            row as nat,
                            start[at],
                            at,
                            product::<T, K, O>(),
                            sum::<O>(),
                        ),
                        at,
                        product::<T, K, O>(),
                        sum::<O>(),
                    ),
                out.width() == old(out).width(),
                out.height() == old(out).height(),
            decreases kernel_width - col,
        {
            proof {
                lemma_tap_permitted(
                    pixels,
                    image.width(),
                    kernel,
                    row as int,
                    col as int,
                    start,
                    out.cells(),
                );
            }

            // The number of elements that the image needs to be shifted
            let alignment = alignment_of_tap(image_width, kernel_width, kernel_height, row, col);

            // A well-formed kernel has a value at every position inside it.
            let coefficient = flipped.get_value(row, col).unwrap().clone();

            // Apply this kernel value and add to the buffer
            update_buffer(image.get_data(), coefficient, alignment, out.get_data_mut());
            col += 1;
        }
        row += 1;
    }
    assert(out.cells() =~= convolution(pixels, image.width(), kernel, start));
}

/// Write the convolution of the provided image and kernel into the specified buffer, without
/// integer overflow.
///
/// As [`write_convolution`], with the saturating product and sum: a result
/// that would leave the range of its type stops at the end of the range.
pub fn write_convolution_saturating<T, K, O>(
    image: &impl Matrix<T>,
    kernel: &impl Matrix<K>,
    out: &mut impl MatrixMut<O>,
) where T: SaturatingMul<K, Output = O> + Clone, K: Clone, O: SaturatingAdd<Output = O> + Clone
    requires
        clone_is_exact::<T>(),
        clone_is_exact::<K>(),
        clone_is_exact::<O>(),
        well_formed(kernel),
        alignments_fit(image.width(), kernel.width(), kernel.height()),
    ensures
        final(out).cells() == saturating_convolution(image.cells(), image.width(), kernel, old(out).cells()),
        final(out).width() == old(out).width(),
        final(out).height() == old(out).height(),
        well_formed(old(out)) ==> well_formed(final(out)),
{
    // Flip the kernel, as is the custom for convolutions
    let flipped = FlippedMatrix(kernel);
    let kernel_width = flipped.get_width();
    let kernel_height = flipped.get_height();
    let image_width = image.get_width();

    let ghost start = out.cells();
    let ghost pixels = image.cells();

    let mut row: usize = 0;
    while row < kernel_height
        invariant
            clone_is_exact::<T>(),
            clone_is_exact::<K>(),
            clone_is_exact::<O>(),
            well_formed(kernel),
            flipped.0 == kernel,
            kernel_width == kernel.width(),
            kernel_height == kernel.height(),
            image_width == image.width(),
            pixels == image.cells(),
            alignments_fit(image.width(), kernel.width(), kernel.height()),
            row <= kernel_height,
            out.cells().len() == start.len(),
            forall|at: int|
                0 <= at < start.len() ==> #[trigger] out.cells()[at] == cell_after_rows(
                    pixels,
                    image.width(),
                    kernel,
                    row as nat,
                    start[at],
                    at,
                    saturating_product::<T, K, O>(),
                    saturating_sum::<O>(),
                ),
            out.width() == old(out).width(),
            out.height() == old(out).height(),
        decreases kernel_height - row,
    {
        let mut col: usize = 0;
        while col < kernel_width
            invariant
                clone_is_exact::<T>(),
                clone_is_exact::<K>(),
                clone_is_exact::<O>(),
                well_formed(kernel),
                flipped.0 == kernel,
                kernel_width == kernel.width(),
                kernel_height == kernel.height(),
                image_width == image.width(),
                pixels == image.cells(),
                alignments_fit(image.width(), kernel.width(), kernel.height()),
                row < kernel_height,
                col <= kernel_width,
                out.cells().len() == start.len(),
                forall|at: int|
                    0 <= at < start.len() ==> #[trigger] out.cells()[at] == cell_after_taps(
                        pixels,
                        image.width(),
                        kernel,
                        row as int,
                        col as nat,
                        cell_after_rows(
                            pixels,
                            image.width(),
                            kernel,
                            row as nat,
                            start[at],
                            at,
                            saturating_product::<T, K, O>(),
                            saturating_sum::<O>(),
                        ),
                        at,
                        saturating_product::<T, K, O>(),
                        saturating_sum::<O>(),
                    ),
                out.width() == old(out).width(),
                out.height() == old(out).height(),
            decreases kernel_width - col,
        {
            // The number of elements that the image needs to be shifted
            let alignment = alignment_of_tap(image_width, kernel_width, kernel_height, row, col);

            // A well-formed kernel has a value at every position inside it.
            let coefficient = flipped.get_value(row, col).unwrap().clone();

            // Apply this kernel value and add to the buffer
            update_buffer_saturating(image.get_data(), coefficient, alignment, out.get_data_mut());
            col += 1;
        }
        row += 1;
    }
    assert(out.cells() =~= saturating_convolution(pixels, image.width(), kernel, start));
}

/// Perform a 2D convolution on the specified image with the provided kernel.
///
/// Allocates an output grid of the image's shape, filled with the default
/// value of its element type, and has [`write_convolution`] accumulate onto
/// it.
pub fn convolve2d<T, K, O>(image: &impl Matrix<T>, kernel: &impl Matrix<K>) -> (out: DynamicMatrix<O>) where
    T: Mul<K, Output = O> + Clone,
    K: Clone,
    O: Add<Output = O> + Default + Clone,

    requires
        T::obeys_mul_spec(),
        O::obeys_add_spec(),
        forall|zero: O| #[trigger]
            call_ensures(O::default, (), zero) ==> convolution_permitted(
                image.cells(),
                image.width(),
                kernel,
                blank(image.width() * image.height(), zero),
            ),
        clone_is_exact::<T>(),
        clone_is_exact::<K>(),
        clone_is_exact::<O>(),
        well_formed(kernel),
        well_formed(image),
        alignments_fit(image.width(), kernel.width(), kernel.height()),
    ensures
        out.width() == image.width(),
        out.height() == image.height(),
        well_formed(&out),
        exists|zero: O|
            #![trigger blank(image.width() * image.height(), zero)]
            call_ensures(O::default, (), zero) && out.cells() == convolution(
                image.cells(),
                image.width(),
                kernel,
                blank(image.width() * image.height(), zero),
            ),
{
    let width = image.get_width();
    let height = image.get_height();
    // A well-formed image holds `width * height` elements, so their number is a `usize`.
    let held = image.get_data().len();
    assert(width * height == held);
    let allocation = width * height;
    let zero = O::default();
    let cells = vec![zero; allocation];
    assert(cells@ =~= blank(image.width() * image.height(), zero));
    let mut out = DynamicMatrix::new(width, height, cells).unwrap();
    write_convolution(image, kernel, &mut out);
    out
}

/// Perform a 2D convolution on the specified image with the provided kernel, without integer
/// overflow.
///
/// Allocates an output grid of the image's shape, filled with the default
/// value of its element type, and has [`write_convolution_saturating`]
/// accumulate onto it.
pub fn convolve2d_saturating<T, K, O>(image: &impl Matrix<T>, kernel: &impl Matrix<K>) -> (out: DynamicMatrix<O>) where
    T: SaturatingMul<K, Output = O> + Clone,
    K: Clone,
    O: SaturatingAdd<Output = O> + Default + Clone,

    requires
        clone_is_exact::<T>(),
        clone_is_exact::<K>(),
        clone_is_exact::<O>(),
        well_formed(kernel),
        well_formed(image),
        alignments_fit(image.width(), kernel.width(), kernel.height()),
    ensures
        out.width() == image.width(),
        out.height() == image.height(),
        well_formed(&out),
        exists|zero: O|
            #![trigger blank(image.width() * image.height(), zero)]
            call_ensures(O::default, (), zero) && out.cells() == saturating_convolution(
                image.cells(),
                image.width(),
                kernel,
                blank(image.width() * image.height(), zero),
            ),
{
    let width = image.get_width();
    let height = image.get_height();
    // A well-formed image holds `width * height` elements, so their number is a `usize`.
    let held = image.get_data().len();
    assert(width * height == held);
    let allocation = width * height;
    let zero = O::default();
    let cells = vec![zero; allocation];
    assert(cells@ =~= blank(image.width() * image.height(), zero));
    let mut out = DynamicMatrix::new(width, height, cells).unwrap();
    write_convolution_saturating(image, kernel, &mut out);
    out
}

} // verus!
