//! Sobel filters, commonly used for edge detection
use vstd::prelude::*;
use vstd::std_specs::convert::FromSpec;
use crate::matrix::{well_formed, Matrix, StaticMatrix};

verus! {

/// A sobel filter that works in the X direction
///
/// The coefficients, row by row:
/// ```text
///     -1,  0,  1,
///     -2,  0,  2,
///     -1,  0,  1,
/// ```
pub fn x<T: From<i8>>() -> (kernel: StaticMatrix<T, 9>)
    ensures
        kernel.width() == 3,
        kernel.height() == 3,
        kernel.cells().len() == 9,
        well_formed(&kernel),
        forall|at: int|
            0 <= at < 9 ==> call_ensures(
                T::from,
                (x_coefficients()[at],),
                #[trigger] kernel.cells()[at],
            ),
        T::obeys_from_spec() ==> forall|at: int|
            0 <= at < 9 ==> #[trigger] kernel.cells()[at] == T::from_spec(
                x_coefficients()[at],
            ),
{
    let kernel = StaticMatrix::new(
        3,
        3,
        [
            T::from(-1), T::from(0), T::from(1),
            T::from(-2), T::from(0), T::from(2),
            T::from(-1), T::from(0), T::from(1),
        ],
    ).unwrap();
    kernel
}

/// The coefficients of [`x`], row by row.
pub open spec fn x_coefficients() -> Seq<i8> {
    seq![(-1i8), 0i8, 1i8, (-2i8), 0i8, 2i8, (-1i8), 0i8, 1i8]
}

/// A sobel filter that works in the Y direction
///
/// The coefficients, row by row:
/// ```text
///      1,  2,  1,
///      0,  0,  0,
///     -1, -2, -1,
/// ```
pub fn y<T: From<i8>>() -> (kernel: StaticMatrix<T, 9>)
    ensures
        kernel.width() == 3,
        kernel.height() == 3,
        kernel.cells().len() == 9,
        well_formed(&kernel),
        forall|at: int|
            0 <= at < 9 ==> call_ensures(
                T::from,
                (y_coefficients()[at],),
                #[trigger] kernel.cells()[at],
            ),
        T::obeys_from_spec() ==> forall|at: int|
            0 <= at < 9 ==> #[trigger] kernel.cells()[at] == T::from_spec(
                y_coefficients()[at],
            ),
{
    let kernel = StaticMatrix::new(
        3,
        3,
        [
            T::from(1), T::from(2), T::from(1),
            T::from(0), T::from(0), T::from(0),
            T::from(-1), T::from(-2), T::from(-1),
        ],
    ).unwrap();
    kernel
}

/// The coefficients of [`y`], row by row.
pub open spec fn y_coefficients() -> Seq<i8> {
    seq![1i8, 2i8, 1i8, 0i8, 0i8, 0i8, (-1i8), (-2i8), (-1i8)]
}

} // verus!
