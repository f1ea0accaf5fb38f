//! The dynamically sized matrix: a flat row-major buffer with its shape.

use crate::grid::{
    grid_of, grid_of_clones, grid_write, identity_grid, lemma_buffer_update,
    lemma_offset_in_buffer,
};
use crate::identities::{HasOne, HasZero};
use crate::text::{
    cells_text, grid_text, matrix_kind, push_cell, shape_tag, tag_text, DebugForm,
};
use std::ops::{Index, IndexMut};
use vstd::prelude::*;
use vstd::string::StringExecFns;

verus! {

/// A `rows` by `cols` grid of `T`, stored row by row in one buffer.
pub struct Matrix<T> {
    rows: usize,
    cols: usize,
    data: Vec<T>,
}

impl<T> View for Matrix<T> {
    type V = Seq<Seq<T>>;

    /// The rows of the matrix, top to bottom, each a sequence of its
    /// elements from left to right.
    closed spec fn view(&self) -> Seq<Seq<T>> {
        grid_of(self.data@, self.rows as nat, self.cols as nat)
    }
}

impl<T> Matrix<T> {
    #[verifier::type_invariant]
    spec fn inv(&self) -> bool {
        self.data@.len() == self.rows * self.cols
    }

    /// The number of rows.
    pub closed spec fn nrows(&self) -> nat {
        self.rows as nat
    }

    /// The number of columns.
    pub closed spec fn ncols(&self) -> nat {
        self.cols as nat
    }

    /// Whether `(i, j)` addresses an element of the matrix.
    pub open spec fn in_bounds(&self, i: int, j: int) -> bool {
        0 <= i < self.nrows() && 0 <= j < self.ncols()
    }

    /// The view has `nrows()` rows of `ncols()` elements each.
    pub proof fn lemma_view_shape(&self)
        ensures
            self@.len() == self.nrows(),
            forall|i: int| 0 <= i < self.nrows() ==> (#[trigger] self@[i]).len() == self.ncols(),
    {
    }

    /// The number of rows.
    pub fn rows(&self) -> (r: usize)
        ensures
            r == self.nrows(),
    {
        self.rows
    }

    /// The number of columns.
    pub fn cols(&self) -> (r: usize)
        ensures
            r == self.ncols(),
    {
        self.cols
    }

    /// A matrix of the given shape in which every element is a clone of
    /// `value`.
    pub fn filled(rows: usize, cols: usize, value: T) -> (r: Self) where T: Clone
        requires
            rows * cols <= usize::MAX,
        ensures
            r.nrows() == rows,
            r.ncols() == cols,
            grid_of_clones(r@, rows as nat, cols as nat, value),
    {
        let data = vec![value; rows * cols];
        let r = Matrix { rows, cols, data };
        assert forall|i: int, j: int| 0 <= i < rows && 0 <= j < cols implies cloned(
            value,
            #[trigger] r@[i][j],
        ) by {
            lemma_offset_in_buffer(i, j, rows as int, cols as int);
        }
        r
    }

    /// The short tag of the matrix: its kind, the name `element` of its
    /// element type, and its shape. The elements are not read.
    pub fn debug_tag(&self, element: &str) -> (s: String)
        ensures
            s@ == tag_text(matrix_kind(), element@, self.nrows(), self.ncols()),
    {
        proof {
            reveal_strlit("matrix");
            assert("matrix"@ =~= matrix_kind());
        }
        shape_tag("matrix", element, self.rows, self.cols)
    }

    /// Reads the element at `index`, a `(row, column)` pair.
    pub fn get(&self, index: (usize, usize)) -> (r: &T)
        requires
            self.in_bounds(index.0 as int, index.1 as int),
        ensures
            *r == self@[index.0 as int][index.1 as int],
    {
        proof {
            use_type_invariant(self);
            assert(self.data@.len() == self.data.len());
            lemma_offset_in_buffer(
                index.0 as int,
                index.1 as int,
                self.rows as int,
                self.cols as int,
            );
        }
        &self.data[index.0 * self.cols + index.1]
    }

    /// Reads the element at `index` where there is one: `None` exactly when
    /// the row or the column is out of range.
    pub fn try_get(&self, index: (usize, usize)) -> (r: Option<&T>)
        ensures
            r.is_some() <==> self.in_bounds(index.0 as int, index.1 as int),
            r.is_some() ==> *r.unwrap() == self@[index.0 as int][index.1 as int],
    {
        if index.0 < self.rows && index.1 < self.cols {
            Some(self.get(index))
        } else {
            None
        }
    }

    /// Replaces the element at `index`, a `(row, column)` pair, by `value`
    /// and leaves every other element as it was.
    pub fn set(&mut self, index: (usize, usize), value: T)
        requires
            old(self).in_bounds(index.0 as int, index.1 as int),
        ensures
            final(self).nrows() == old(self).nrows(),
            final(self).ncols() == old(self).ncols(),
            final(self)@ == grid_write(old(self)@, index.0 as int, index.1 as int, value),
    {
        proof {
            use_type_invariant(&*self);
            assert(self.data@.len() == self.data.len());
            lemma_buffer_update(
                self.data@,
                self.rows as nat,
                self.cols as nat,
                index.0 as int,
                index.1 as int,
                value,
            );
        }
        let k: usize = index.0 * self.cols + index.1;
        self.data[k] = value;
    }
}

impl<T: Default + Clone> Matrix<T> {
    /// A `rows` by `cols` matrix in which every element is a clone of the
    /// default value of `T`.
    pub fn new(rows: usize, cols: usize) -> (r: Self)
        requires
            rows * cols <= usize::MAX,
        ensures
            r.nrows() == rows,
            r.ncols() == cols,
            exists|d: T|
                call_ensures(T::default, (), d) && #[trigger] grid_of_clones(
                    r@,
                    rows as nat,
                    cols as nat,
                    d,
                ),
    {
        Self::filled(rows, cols, T::default())
    }
}

impl<T: HasZero + Clone> Matrix<T> {
    /// A `rows` by `cols` matrix in which every element is a clone of the
    /// zero value of `T`.
    pub fn zeros(rows: usize, cols: usize) -> (r: Self)
        requires
            rows * cols <= usize::MAX,
        ensures
            r.nrows() == rows,
            r.ncols() == cols,
            grid_of_clones(r@, rows as nat, cols as nat, T::zero_value()),
    {
        Self::filled(rows, cols, T::zero())
    }
}

impl<T: HasOne + Clone> Matrix<T> {
    /// A `rows` by `cols` matrix in which every element is a clone of the
    /// one value of `T`.
    pub fn ones(rows: usize, cols: usize) -> (r: Self)
        requires
            rows * cols <= usize::MAX,
        ensures
            r.nrows() == rows,
            r.ncols() == cols,
            grid_of_clones(r@, rows as nat, cols as nat, T::one_value()),
    {
        Self::filled(rows, cols, T::one())
    }
}

impl<T: HasZero + HasOne + Clone> Matrix<T> {
    /// The `dims` by `dims` matrix with the one value on the main diagonal
    /// and the zero value everywhere else.
    pub fn identity(dims: usize) -> (r: Self)
        requires
            dims * dims <= usize::MAX,
        ensures
            r.nrows() == dims,
            r.ncols() == dims,
            identity_grid(r@, dims as nat, T::zero_value(), T::one_value()),
    {
        let mut matrix = Self::zeros(dims, dims);
        let mut i: usize = 0;
        while i < dims
            invariant
                i <= dims,
                matrix.nrows() == dims,
                matrix.ncols() == dims,
                matrix@.len() == dims,
                forall|a: int| 0 <= a < dims ==> (#[trigger] matrix@[a]).len() == dims,
                forall|a: int, b: int|
                    0 <= a < dims && 0 <= b < dims ==> if a == b && a < i {
                        #[trigger] matrix@[a][b] == T::one_value()
                    } else {
                        cloned(T::zero_value(), matrix@[a][b])
                    },
            decreases dims - i,
        {
            matrix.set((i, i), T::one());
            i = i + 1;
        }
        matrix
    }
}

impl<T: DebugForm> Matrix<T> {
    /// The rendered grid: one line per row, each element as its debug form
    /// between two spaces.
    pub fn render(&self) -> (s: String)
        ensures
            s@ == grid_text(self@),
    {
        proof {
            self.lemma_view_shape();
        }
        let mut out = String::new();
        let mut i: usize = 0;
        while i < self.rows
            invariant
                i <= self.rows,
                self@.len() == self.rows,
                forall|a: int| 0 <= a < self.rows ==> (#[trigger] self@[a]).len() == self.cols,
                out@ == grid_text(self@.take(i as int)),
            decreases self.rows - i,
        {
            let ghost before = out@;
            let mut j: usize = 0;
            while j < self.cols
                invariant
                    i < self.rows,
                    j <= self.cols,
                    self@.len() == self.rows,
                    self@[i as int].len() == self.cols,
                    out@ == before + cells_text(self@[i as int].take(j as int)),
                decreases self.cols - j,
            {
                push_cell(
                    &mut out,
                    self.get((i, j)),
                    Ghost(self@[i as int].take(j as int)),
                    Ghost(before),
                );
                proof {
                    assert(self@[i as int].take(j as int).push(self@[i as int][j as int])
                        =~= self@[i as int].take(j + 1));
                }
                j = j + 1;
            }
            out.append("\n");
            proof {
                reveal_strlit("\n");
                assert(self@[i as int].take(self.cols as int) =~= self@[i as int]);
                assert(self@.take(i + 1).drop_last() =~= self@.take(i as int));
                assert(self@.take(i + 1).last() == self@[i as int]);
                assert(out@ =~= grid_text(self@.take(i + 1)));
            }
            i = i + 1;
        }
        proof {
            assert(self@.take(self.rows as int) =~= self@);
        }
        out
    }
}

impl<T> vstd::std_specs::core::IndexSpecImpl<(usize, usize)> for Matrix<T> {
    open spec fn index_req(&self, index: &(usize, usize)) -> bool {
        self.in_bounds(index.0 as int, index.1 as int)
    }
}

impl<T> Index<(usize, usize)> for Matrix<T> {
    type Output = T;

    /// Reads the element at `index`, as `get` does.
    fn index(&self, index: (usize, usize)) -> (r: &T)
        ensures
            *r == self@[index.0 as int][index.1 as int],
    {
        self.get(index)
    }
}

impl<T> IndexMut<(usize, usize)> for Matrix<T> {
    /// Lends the element at `index` for writing: what the borrower leaves
    /// there is the element afterwards, and no other element changes.
    fn index_mut(&mut self, index: (usize, usize)) -> (r: &mut T)
        requires
            old(self).in_bounds(index.0 as int, index.1 as int),
        ensures
            *r == old(self)@[index.0 as int][index.1 as int],
            final(self).nrows() == old(self).nrows(),
            final(self).ncols() == old(self).ncols(),
            final(self)@ == grid_write(old(self)@, index.0 as int, index.1 as int, *final(r)),
    {
        proof {
            use_type_invariant(&*self);
            assert(self.data@.len() == self.data.len());
            assert forall|v: T|
                #[trigger] grid_of(
                    self.data@.update(index.0 * self.cols + index.1, v),
                    self.rows as nat,
                    self.cols as nat,
                ) == grid_write(self@, index.0 as int, index.1 as int, v) by {
                lemma_buffer_update(
                    self.data@,
                    self.rows as nat,
                    self.cols as nat,
                    index.0 as int,
                    index.1 as int,
                    v,
                );
            }
            lemma_offset_in_buffer(
                index.0 as int,
                index.1 as int,
                self.rows as int,
                self.cols as int,
            );
        }
        let k: usize = index.0 * self.cols + index.1;
        &mut self.data[k]
    }
}

} // verus!
