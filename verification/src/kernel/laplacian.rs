//! Laplacian filters, used for edge detection
use vstd::prelude::*;
use vstd::std_specs::convert::FromSpec;
use crate::matrix::{well_formed, Matrix, StaticMatrix};

verus! {

/// A laplacian filter that works in a cross, ignoring data from the diagonals
///
/// The coefficients, row by row:
/// ```text
///      0, -1,  0,
///     -1,  4, -1,
///      0, -1,  0,
/// ```
pub fn cross<T: From<i8>>() -> (kernel: StaticMatrix<T, 9>)
    ensures
        kernel.width() == 3,
        kernel.height() == 3,
        kernel.cells().len() == 9,
        well_formed(&kernel),
        forall|at: int|
            0 <= at < 9 ==> call_ensures(
                T::from,
                (cross_coefficients()[at],),
                #[trigger] kernel.cells()[at],
            ),
        T::obeys_from_spec() ==> forall|at: int|
            0 <= at < 9 ==> #[trigger] kernel.cells()[at] == T::from_spec(
                cross_coefficients()[at],
            ),
{
    let kernel = StaticMatrix::new(
        3,
        3,
        [
            T::from(0), T::from(-1), T::from(0),
            T::from(-1), T::from(4), T::from(-1),
            T::from(0), T::from(-1), T::from(0),
        ],
    ).unwrap();
    kernel
}

/// The coefficients of [`cross`], row by row.
pub open spec fn cross_coefficients() -> Seq<i8> {
    seq![0i8, (-1i8), 0i8, (-1i8), 4i8, (-1i8), 0i8, (-1i8), 0i8]
}

/// A laplacian filter that works in all directions, taking pixel data from the diagonals as
/// well as the xy cross.
///
/// The coefficients, row by row:
/// ```text
///     -1, -1, -1,
///     -1,  8, -1,
///     -1, -1, -1,
/// ```
pub fn full<T: From<i8>>() -> (kernel: StaticMatrix<T, 9>)
    ensures
        kernel.width() == 3,
        kernel.height() == 3,
        kernel.cells().len() == 9,
        well_formed(&kernel),
        forall|at: int|
            0 <= at < 9 ==> call_ensures(
                T::from,
                (full_coefficients()[at],),
                #[trigger] kernel.cells()[at],
            ),
        T::obeys_from_spec() ==> forall|at: int|
            0 <= at < 9 ==> #[trigger] kernel.cells()[at] == T::from_spec(
                full_coefficients()[at],
            ),
{
    let kernel = StaticMatrix::new(
        3,
        3,
        [
            T::from(-1), T::from(-1), T::from(-1),
            T::from(-1), T::from(8), T::from(-1),
            T::from(-1), T::from(-1), T::from(-1),
        ],
    ).unwrap();
    kernel
}

/// The coefficients of [`full`], row by row.
pub open spec fn full_coefficients() -> Seq<i8> {
    seq![(-1i8), (-1i8), (-1i8), (-1i8), 8i8, (-1i8), (-1i8), (-1i8), (-1i8)]
}

} // verus!
