//! The grid interface, and the two grids that the library provides.
use vstd::prelude::*;
use crate::subpixels::SubPixels;

verus! {

/// A rectangular grid of elements, stored row by row.
///
/// The model of a grid is its `width()`, its `height()`, the sequence
/// `cells()` that backs it, and `entry(row, col)`, the element that an indexed
/// lookup yields. A grid is [`well_formed`] when it backs exactly
/// `width() * height()` cells.
pub trait Matrix<T> {
    /// The number of columns.
    spec fn width(&self) -> nat;

    /// The number of rows.
    spec fn height(&self) -> nat;

    /// The backing sequence, in row-major order.
    spec fn cells(&self) -> Seq<T>;

    /// The element that a lookup at `row` and `col` yields, for a position
    /// inside the grid.
    spec fn entry(&self, row: int, col: int) -> T;

    /// Get the width of the matrix
    fn get_width(&self) -> (w: usize)
        ensures
            w == self.width(),
    ;

    /// Get the height of the matrix
    fn get_height(&self) -> (h: usize)
        ensures
            h == self.height(),
    ;

    /// Retrieve the data stored in this matrix
    fn get_data(&self) -> (d: &[T])
        ensures
            d@ == self.cells(),
    ;

    /// Get the value stored at the given row and column of the matrix:
    /// `None` outside the grid, the entry inside it. A grid that is not
    /// well formed may lack the entry.
    fn get_value(&self, row: usize, col: usize) -> (v: Option<&T>)
        ensures
            v.is_some() ==> row < self.height() && col < self.width(),
            v.is_some() ==> *v.unwrap() == self.entry(row as int, col as int),
            self.cells().len() == self.width() * self.height() && row < self.height() && col
                < self.width() ==> v.is_some(),
    ;
}

/// A grid whose cells can be written. Writing keeps the shape.
pub trait MatrixMut<T>: Matrix<T> {
    /// Get a mutable slice to the underlying matrix data
    fn get_data_mut(&mut self) -> (d: &mut [T])
        ensures
            d@ == old(self).cells(),
            final(self).cells() == final(d)@,
            final(self).width() == old(self).width(),
            final(self).height() == old(self).height(),
    ;
}

/// A grid backs as many cells as its shape asks for.
pub open spec fn well_formed<T, M: Matrix<T> + ?Sized>(m: &M) -> bool {
    m.cells().len() == m.width() * m.height()
}

/// The position of the cell at `row` and `col` in a row-major sequence of
/// rows of `width` cells.
pub open spec fn cell_index(width: nat, row: int, col: int) -> int {
    row * width + col
}

/// Inside a grid of `width` by `height`, a cell's position lies inside the
/// backing sequence.
pub proof fn lemma_cell_index_in_range(width: nat, height: nat, row: int, col: int)
    requires
        0 <= row < height,
        0 <= col < width,
    ensures
        0 <= cell_index(width, row, col) < width * height,
{
    assert(row * width + col < width * height) by (nonlinear_arith)
        requires
            0 <= row < height,
            0 <= col < width,
    {
        assert((row + 1) * width <= height * width);
    }
    assert(0 <= row * width) by (nonlinear_arith)
        requires
            0 <= row,
            0 <= width,
    ;
}

/// A wrapper around a matrix that flips the values in `get_value`
///
/// The view shows the wrapped grid turned by half a turn: the entry at `row`
/// and `col` is the wrapped grid's entry at `height - 1 - row` and
/// `width - 1 - col`. The shape and the backing sequence are those of the
/// wrapped grid; nothing is copied.
pub struct FlippedMatrix<'a, M>(pub &'a M);

impl<'a, M, T> Matrix<T> for FlippedMatrix<'a, M> where M: Matrix<T> {
    open spec fn width(&self) -> nat {
        self.0.width()
    }

    open spec fn height(&self) -> nat {
        self.0.height()
    }

    open spec fn cells(&self) -> Seq<T> {
        self.0.cells()
    }

    open spec fn entry(&self, row: int, col: int) -> T {
        self.0.entry(self.0.height() - 1 - row, self.0.width() - 1 - col)
    }

    #[inline]
    fn get_width(&self) -> (w: usize) {
        self.0.get_width()
    }

    #[inline]
    fn get_height(&self) -> (h: usize) {
        self.0.get_height()
    }

    #[inline]
    fn get_data(&self) -> (d: &[T]) {
        self.0.get_data()
    }

    fn get_value(&self, row: usize, col: usize) -> (v: Option<&T>) {
        let height = self.get_height();
        let width = self.get_width();
        if row < height && col < width {
            let new_row = height - row - 1;
            let new_col = width - col - 1;
            self.0.get_value(new_row, new_col)
        } else {
            None
        }
    }
}

/// Flipping a grid twice shows the grid itself: at every position the view of
/// the view has the entry of the grid.
pub proof fn lemma_flipped_twice<T, M: Matrix<T>>(m: &M, row: int, col: int)
    ensures
        FlippedMatrix(&FlippedMatrix(m)).entry(row, col) == m.entry(row, col),
        FlippedMatrix(&FlippedMatrix(m)).width() == m.width(),
        FlippedMatrix(&FlippedMatrix(m)).height() == m.height(),
        FlippedMatrix(&FlippedMatrix(m)).cells() == m.cells(),
{
}

/// The view's first entry is the grid's last one, and the other way round.
pub proof fn lemma_flipped_corners<T, M: Matrix<T>>(m: &M)
    ensures
        FlippedMatrix(m).entry(0, 0) == m.entry(m.height() - 1, m.width() - 1),
        FlippedMatrix(m).entry(m.height() - 1, m.width() - 1) == m.entry(0, 0),
{
}

/// Computes [`cell_index`], or `None` where it does not fit in a `usize`.
fn position(width: usize, row: usize, col: usize) -> (at: Option<usize>)
    ensures
        cell_index(width as nat, row as int, col as int) <= usize::MAX ==> at == Some(
            cell_index(width as nat, row as int, col as int) as usize,
        ),
        cell_index(width as nat, row as int, col as int) > usize::MAX ==> at.is_none(),
{
    assert(0 <= row * width) by (nonlinear_arith);
    match row.checked_mul(width) {
        Some(start) => start.checked_add(col),
        None => None,
    }
}

/// Moves the elements of an array into a vector, in order: `Vec::from`, of
/// which the standard library says that it allocates a vector and moves the
/// array's items into it.
#[verifier::external_body]
fn elements<T, const N: usize>(array: [T; N]) -> (items: Vec<T>)
    ensures
        items@ == array@,
{
    Vec::from(array)
}

/// A [`Matrix`] with a size known at compile time.
#[derive(Debug, PartialEq, Eq)]
pub struct StaticMatrix<T, const N: usize> {
    /// The number of columns in the matrix
    width: usize,
    /// The number of rows in the matrix
    height: usize,
    /// The set of all values in this matrix
    data: [T; N],
}

impl<T: Clone, const N: usize> Clone for StaticMatrix<T, N> {
    /// A grid of the same shape whose cells are clones of this grid's cells.
    fn clone(&self) -> (copy: Self)
        ensures
            copy.width() == self.width(),
            copy.height() == self.height(),
            copy.cells().len() == self.cells().len(),
            well_formed(self) ==> well_formed(&copy),
            forall|at: int|
                0 <= at < self.cells().len() ==> cloned(self.cells()[at], #[trigger] copy.cells()[at]),
    {
        Self { width: self.width, height: self.height, data: self.data.clone() }
    }
}

impl<T, const N: usize> StaticMatrix<T, N> {
    /// Create a new `StaticMatrix` with the specified dimensions.
    ///
    /// Returns `None` if the length of the provided data is not `width * height`
    pub fn new(width: usize, height: usize, data: [T; N]) -> (r: Option<Self>)
        ensures
            r.is_some() <==> width * height == N,
            r.is_some() ==> r.unwrap().width() == width,
            r.is_some() ==> r.unwrap().height() == height,
            r.is_some() ==> r.unwrap().cells() == data@,
            r.is_some() ==> well_formed(&r.unwrap()),
    {
        match width.checked_mul(height) {
            Some(area) => {
                if area == N {
                    Some(Self { width, height, data })
                } else {
                    None
                }
            },
            None => None,
        }
    }

    /// Perform a map operation on this matrix.
    ///
    /// Each element in the matrix body is given to the provided function, in
    /// row-major order, and the results are aggregated into a new
    /// `StaticMatrix` of the same shape.
    pub fn map<F, O>(self, operation: F) -> (mapped: StaticMatrix<O, N>) where
        F: Fn(T) -> O,
        O: Default + Copy,

        requires
            forall|at: int| 0 <= at < N ==> call_requires(operation, (#[trigger] self.cells()[at],)),
        ensures
            mapped.width() == self.width(),
            mapped.height() == self.height(),
            mapped.cells().len() == self.cells().len(),
            well_formed(&self) ==> well_formed(&mapped),
            forall|at: int|
                0 <= at < N ==> call_ensures(
                    operation,
                    (self.cells()[at],),
                    #[trigger] mapped.cells()[at],
                ),
    {
        let mut arr = [O::default();N];
        let items = elements(self.data);
        let mut at: usize = 0;
        for item in it: items
            invariant
                at == it.index(),
                it.seq() == self.cells(),
                forall|i: int| 0 <= i < N ==> call_requires(operation, (#[trigger] self.cells()[i],)),
                forall|i: int|
                    0 <= i < at ==> call_ensures(operation, (self.cells()[i],), #[trigger] arr@[i]),
        {
            arr[at] = operation(item);
            at += 1;
        }
        StaticMatrix { width: self.width, height: self.height, data: arr }
    }

    /// Consume `self`, and return the width, height, and matrix data. (in that order).
    pub fn into_parts(self) -> (parts: (usize, usize, [T; N]))
        ensures
            parts.0 == self.width(),
            parts.1 == self.height(),
            parts.2@ == self.cells(),
    {
        (self.width, self.height, self.data)
    }
}

impl<T: Copy, const M: usize, const N: usize> StaticMatrix<SubPixels<T, N>, M> {
    /// Perform a map operation on each of the individual subpixel elements in the matrix.
    ///
    /// This function is a shortcut for calling [`StaticMatrix::map`], then calling
    /// [`SubPixels::map`] with the provided function.
    pub fn map_subpixels<F, O>(self, operation: F) -> (mapped: StaticMatrix<SubPixels<O, N>, M>) where
        F: Fn(T) -> O + Copy,
        O: Default + Copy,

        requires
            forall|at: int, channel: int|
                0 <= at < M && 0 <= channel < N ==> call_requires(
                    operation,
                    (#[trigger] self.cells()[at].0@[channel],),
                ),
        ensures
            mapped.width() == self.width(),
            mapped.height() == self.height(),
            mapped.cells().len() == self.cells().len(),
            well_formed(&self) ==> well_formed(&mapped),
            forall|at: int, channel: int|
                0 <= at < M && 0 <= channel < N ==> call_ensures(
                    operation,
                    (self.cells()[at].0@[channel],),
                    #[trigger] mapped.cells()[at].0@[channel],
                ),
    {
        let mut arr = [SubPixels::default();M];
        let mut at: usize = 0;
        while at < M
            invariant
                at <= M,
                forall|i: int, channel: int|
                    0 <= i < M && 0 <= channel < N ==> call_requires(
                        operation,
                        (#[trigger] self.cells()[i].0@[channel],),
                    ),
                forall|i: int, channel: int|
                    0 <= i < at && 0 <= channel < N ==> call_ensures(
                        operation,
                        (self.cells()[i].0@[channel],),
                        #[trigger] arr@[i].0@[channel],
                    ),
            decreases M - at,
        {
            let pixel = self.data[at];
            assert(pixel == self.cells()[at as int]);
            arr[at] = pixel.map(operation);
            at += 1;
        }
        StaticMatrix { width: self.width, height: self.height, data: arr }
    }
}

impl<T, const N: usize> Matrix<T> for StaticMatrix<T, N> {
    closed spec fn width(&self) -> nat {
        self.width as nat
    }

    closed spec fn height(&self) -> nat {
        self.height as nat
    }

    closed spec fn cells(&self) -> Seq<T> {
        self.data@
    }

    open spec fn entry(&self, row: int, col: int) -> T {
        self.cells()[cell_index(self.width(), row, col)]
    }

    fn get_width(&self) -> (w: usize) {
        self.width
    }

    fn get_height(&self) -> (h: usize) {
        self.height
    }

    fn get_data(&self) -> (d: &[T]) {
        &self.data
    }

    fn get_value(&self, row: usize, col: usize) -> (v: Option<&T>) {
        if row < self.height && col < self.width {
            proof {
                if self.cells().len() == self.width() * self.height() {
                    lemma_cell_index_in_range(self.width(), self.height(), row as int, col as int);
                }
            }
            match position(self.width, row, col) {
                Some(at) => if at < N {
                    Some(&self.data[at])
                } else {
                    None
                },
                None => None,
            }
        } else {
            None
        }
    }
}

impl<T, const N: usize> MatrixMut<T> for StaticMatrix<T, N> {
    fn get_data_mut(&mut self) -> (d: &mut [T]) {
        &mut self.data
    }
}

/// A concrete implementation of [`Matrix`] for which the size is not known at compile time.
#[derive(Debug, PartialEq, Eq)]
pub struct DynamicMatrix<T> {
    /// The number of columns in the matrix
    width: usize,
    /// The number of rows in the matrix
    height: usize,
    /// The set of all values in this matrix
    data: Vec<T>,
}

impl<T: Clone> Clone for DynamicMatrix<T> {
    /// A grid of the same shape whose cells are clones of this grid's cells.
    fn clone(&self) -> (copy: Self)
        ensures
            copy.width() == self.width(),
            copy.height() == self.height(),
            copy.cells().len() == self.cells().len(),
            well_formed(self) ==> well_formed(&copy),
            forall|at: int|
                0 <= at < self.cells().len() ==> cloned(self.cells()[at], #[trigger] copy.cells()[at]),
    {
        Self { width: self.width, height: self.height, data: self.data.clone() }
    }
}

impl<T> DynamicMatrix<T> {
    /// Create a new `DynamicMatrix` with the specified data
    ///
    /// Returns `None` if the length of the provided data is not `width * height`.
    pub fn new(width: usize, height: usize, data: Vec<T>) -> (r: Option<Self>)
        ensures
            r.is_some() <==> width * height == data@.len(),
            r.is_some() ==> r.unwrap().width() == width,
            r.is_some() ==> r.unwrap().height() == height,
            r.is_some() ==> r.unwrap().cells() == data@,
            r.is_some() ==> well_formed(&r.unwrap()),
    {
        let len = data.len();
        match width.checked_mul(height) {
            Some(area) => {
                if area == len {
                    Some(Self { width, height, data })
                } else {
                    None
                }
            },
            None => None,
        }
    }

    /// Perform a map operation on this matrix.
    ///
    /// Each element in the matrix body is given to the provided function, in
    /// row-major order, and the results are aggregated into a new
    /// `DynamicMatrix` of the same shape.
    pub fn map<F: Fn(T) -> O, O>(self, operation: F) -> (mapped: DynamicMatrix<O>)
        requires
            forall|at: int|
                0 <= at < self.cells().len() ==> call_requires(
                    operation,
                    (#[trigger] self.cells()[at],),
                ),
        ensures
            mapped.width() == self.width(),
            mapped.height() == self.height(),
            mapped.cells().len() == self.cells().len(),
            well_formed(&self) ==> well_formed(&mapped),
            forall|at: int|
                0 <= at < self.cells().len() ==> call_ensures(
                    operation,
                    (self.cells()[at],),
                    #[trigger] mapped.cells()[at],
                ),
    {
        let mut arr: Vec<O> = Vec::new();
        for item in it: self.data
            invariant
                arr@.len() == it.index(),
                it.seq() == self.cells(),
                forall|i: int|
                    0 <= i < self.cells().len() ==> call_requires(
                        operation,
                        (#[trigger] self.cells()[i],),
                    ),
                forall|i: int|
                    0 <= i < arr@.len() ==> call_ensures(
                        operation,
                        (self.cells()[i],),
                        #[trigger] arr@[i],
                    ),
        {
            arr.push(operation(item));
        }
        DynamicMatrix { width: self.width, height: self.height, data: arr }
    }

    /// Consume `self`, and return the width, height, and matrix data. (in that order).
    pub fn into_parts(self) -> (parts: (usize, usize, Vec<T>))
        ensures
            parts.0 == self.width(),
            parts.1 == self.height(),
            parts.2@ == self.cells(),
    {
        (self.width, self.height, self.data)
    }
}

impl<T: Copy, const N: usize> DynamicMatrix<SubPixels<T, N>> {
    /// Perform a map operation on each of the individual subpixel elements in the matrix.
    ///
    /// This function is a shortcut for calling [`DynamicMatrix::map`], then calling
    /// [`SubPixels::map`] with the provided function.
    pub fn map_subpixels<F, O>(self, operation: F) -> (mapped: DynamicMatrix<SubPixels<O, N>>) where
        F: Fn(T) -> O + Copy,
        O: Default + Copy,

        requires
            forall|at: int, channel: int|
                0 <= at < self.cells().len() && 0 <= channel < N ==> call_requires(
                    operation,
                    (#[trigger] self.cells()[at].0@[channel],),
                ),
        ensures
            mapped.width() == self.width(),
            mapped.height() == self.height(),
            mapped.cells().len() == self.cells().len(),
            well_formed(&self) ==> well_formed(&mapped),
            forall|at: int, channel: int|
                0 <= at < self.cells().len() && 0 <= channel < N ==> call_ensures(
                    operation,
                    (self.cells()[at].0@[channel],),
                    #[trigger] mapped.cells()[at].0@[channel],
                ),
    {
        let mut arr: Vec<SubPixels<O, N>> = Vec::new();
        let len = self.data.len();
        let mut at: usize = 0;
        while at < len
            invariant
                at <= len,
                len == self.cells().len(),
                arr@.len() == at,
                forall|i: int, channel: int|
                    0 <= i < self.cells().len() && 0 <= channel < N ==> call_requires(
                        operation,
                        (#[trigger] self.cells()[i].0@[channel],),
                    ),
                forall|i: int, channel: int|
                    0 <= i < at && 0 <= channel < N ==> call_ensures(
                        operation,
                        (self.cells()[i].0@[channel],),
                        #[trigger] arr@[i].0@[channel],
                    ),
            decreases len - at,
        {
            arr.push(self.data[at].map(operation));
            at += 1;
        }
        DynamicMatrix { width: self.width, height: self.height, data: arr }
    }
}

impl<T> Matrix<T> for DynamicMatrix<T> {
    closed spec fn width(&self) -> nat {
        self.width as nat
    }

    closed spec fn height(&self) -> nat {
        self.height as nat
    }

    closed spec fn cells(&self) -> Seq<T> {
        self.data@
    }

    open spec fn entry(&self, row: int, col: int) -> T {
        self.cells()[cell_index(self.width(), row, col)]
    }

    fn get_width(&self) -> (w: usize) {
        self.width
    }

    fn get_height(&self) -> (h: usize) {
        self.height
    }

    fn get_data(&self) -> (d: &[T]) {
        self.data.as_slice()
    }

    fn get_value(&self, row: usize, col: usize) -> (v: Option<&T>) {
        if row < self.height && col < self.width {
            proof {
                if self.cells().len() == self.width() * self.height() {
                    lemma_cell_index_in_range(self.width(), self.height(), row as int, col as int);
                }
            }
            let len = self.data.len();
            match position(self.width, row, col) {
                Some(at) => if at < len {
                    Some(&self.data[at])
                } else {
                    None
                },
                None => None,
            }
        } else {
            None
        }
    }
}

impl<T> MatrixMut<T> for DynamicMatrix<T> {
    fn get_data_mut(&mut self) -> (d: &mut [T]) {
        self.data.as_mut_slice()
    }
}

} // verus!
