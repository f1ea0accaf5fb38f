//! The fixed-size matrix: nested arrays whose extents are part of the type.

use crate::grid::{grid_write, uniform_grid, unit_grid};
use crate::identities::{HasOne, HasZero};
use crate::text::{
    cells_text, grid_text, push_cell, shape_tag, static_matrix_kind, tag_text, DebugForm,
};
use std::ops::{Index, IndexMut};
use vstd::prelude::*;
use vstd::string::StringExecFns;

verus! {

/// A `ROWS` by `COLS` grid of `T`, stored as an array of rows.
pub struct StaticMatrix<T, const ROWS: usize, const COLS: usize> {
    data: [[T; COLS]; ROWS],
}

impl<T, const ROWS: usize, const COLS: usize> View for StaticMatrix<T, ROWS, COLS> {
    type V = Seq<Seq<T>>;

    /// The rows of the matrix, top to bottom, each a sequence of its
    /// elements from left to right.
    closed spec fn view(&self) -> Seq<Seq<T>> {
        Seq::new(ROWS as nat, |i: int| self.data@[i]@)
    }
}

impl<T, const ROWS: usize, const COLS: usize> StaticMatrix<T, ROWS, COLS> {
    /// Whether `(i, j)` addresses an element of the matrix.
    pub open spec fn in_bounds(i: int, j: int) -> bool {
        0 <= i < ROWS && 0 <= j < COLS
    }

    /// The view has `ROWS` rows of `COLS` elements each.
    pub proof fn lemma_view_shape(&self)
        ensures
            self@.len() == ROWS,
            forall|i: int| 0 <= i < ROWS ==> (#[trigger] self@[i]).len() == COLS,
    {
    }

    /// The matrix in which every element is `value`.
    pub fn filled(value: T) -> (r: Self) where T: Copy
        ensures
            r@ == uniform_grid(ROWS as nat, COLS as nat, value),
    {
        let r = StaticMatrix { data: [[value; COLS]; ROWS] };
        assert(r@ =~~= uniform_grid(ROWS as nat, COLS as nat, value));
        r
    }

    /// The short tag of the matrix: its kind, the name `element` of its
    /// element type, and its shape. The elements are not read.
    pub fn debug_tag(&self, element: &str) -> (s: String)
        ensures
            s@ == tag_text(static_matrix_kind(), element@, ROWS as nat, COLS as nat),
    {
        proof {
            reveal_strlit("static_matrix");
            assert("static_matrix"@ =~= static_matrix_kind());
        }
        shape_tag("static_matrix", element, ROWS, COLS)
    }

    /// Reads the element at `index`, a `(row, column)` pair.
    pub fn get(&self, index: (usize, usize)) -> (r: &T)
        requires
            Self::in_bounds(index.0 as int, index.1 as int),
        ensures
            *r == self@[index.0 as int][index.1 as int],
    {
        &self.data[index.0][index.1]
    }

    /// Reads the element at `index` where there is one: `None` exactly when
    /// the row or the column is out of range.
    pub fn try_get(&self, index: (usize, usize)) -> (r: Option<&T>)
        ensures
            r.is_some() <==> Self::in_bounds(index.0 as int, index.1 as int),
            r.is_some() ==> *r.unwrap() == self@[index.0 as int][index.1 as int],
    {
        if index.0 < ROWS && index.1 < COLS {
            Some(self.get(index))
        } else {
            None
        }
    }

    /// Replaces the element at `index`, a `(row, column)` pair, by `value`
    /// and leaves every other element as it was.
    pub fn set(&mut self, index: (usize, usize), value: T) where T: Copy
        requires
            Self::in_bounds(index.0 as int, index.1 as int),
        ensures
            final(self)@ == grid_write(old(self)@, index.0 as int, index.1 as int, value),
    {
        self.data[index.0][index.1] = value;
        assert(self@ =~~= grid_write(old(self)@, index.0 as int, index.1 as int, value));
    }
}

impl<T: Default + Copy, const ROWS: usize, const COLS: usize> StaticMatrix<T, ROWS, COLS> {
    /// The matrix in which every element is the default value of `T`.
    pub fn new() -> (r: Self)
        ensures
            exists|d: T|
                call_ensures(T::default, (), d) && r@ == #[trigger] uniform_grid(
                    ROWS as nat,
                    COLS as nat,
                    d,
                ),
    {
        Self::filled(T::default())
    }
}

impl<T: HasZero + Copy, const ROWS: usize, const COLS: usize> StaticMatrix<T, ROWS, COLS> {
    /// The matrix in which every element is the zero value of `T`.
    pub fn zeros() -> (r: Self)
        ensures
            r@ == uniform_grid(ROWS as nat, COLS as nat, T::zero_value()),
    {
        Self::filled(T::zero())
    }
}

impl<T: HasOne + Copy, const ROWS: usize, const COLS: usize> StaticMatrix<T, ROWS, COLS> {
    /// The matrix in which every element is the one value of `T`.
    pub fn ones() -> (r: Self)
        ensures
            r@ == uniform_grid(ROWS as nat, COLS as nat, T::one_value()),
    {
        Self::filled(T::one())
    }
}

impl<T: HasZero + HasOne + Copy, const N: usize> StaticMatrix<T, N, N> {
    /// The square matrix with the one value on the main diagonal and the
    /// zero value everywhere else.
    pub fn identity() -> (r: Self)
        ensures
            r@ == unit_grid(N as nat, T::zero_value(), T::one_value()),
    {
        let mut matrix = Self::zeros();
        let mut i: usize = 0;
        while i < N
            invariant
                i <= N,
                matrix@.len() == N,
                forall|a: int| 0 <= a < N ==> (#[trigger] matrix@[a]).len() == N,
                forall|a: int, b: int|
                    0 <= a < N && 0 <= b < N ==> #[trigger] matrix@[a][b] == if a == b && a < i {
                        T::one_value()
                    } else {
                        T::zero_value()
                    },
            decreases N - i,
        {
            matrix.set((i, i), T::one());
            i = i + 1;
        }
        assert(matrix@ =~~= unit_grid(N as nat, T::zero_value(), T::one_value()));
        matrix
    }
}

impl<T: DebugForm, const ROWS: usize, const COLS: usize> StaticMatrix<T, ROWS, COLS> {
    /// The rendered grid: one line per row, each element as its debug form
    /// between two spaces.
    pub fn render(&self) -> (s: String)
        ensures
            s@ == grid_text(self@),
    {
        let mut out = String::new();
        let mut i: usize = 0;
        while i < ROWS
            invariant
                i <= ROWS,
                self@.len() == ROWS,
                forall|a: int| 0 <= a < ROWS ==> (#[trigger] self@[a]).len() == COLS,
                out@ == grid_text(self@.take(i as int)),
            decreases ROWS - i,
        {
            let ghost before = out@;
            let mut j: usize = 0;
            while j < COLS
                invariant
                    i < ROWS,
                    j <= COLS,
                    self@.len() == ROWS,
                    self@[i as int].len() == COLS,
                    out@ == before + cells_text(self@[i as int].take(j as int)),
                decreases COLS - j,
            {
                push_cell(
                    &mut out,
                    self.get((i, j)),
                    Ghost(self@[i as int].take(j as int)),
                    Ghost(before),
                );
                proof {
                    assert(self@[i as int].take(j as int).push(self@[i as int][j as int])
                        =~= self@[i as int].take(j + 1));
                }
                j = j + 1;
            }
            out.append("\n");
            proof {
                reveal_strlit("\n");
                assert(self@[i as int].take(COLS as int) =~= self@[i as int]);
                assert(self@.take(i + 1).drop_last() =~= self@.take(i as int));
                assert(self@.take(i + 1).last() == self@[i as int]);
                assert(out@ =~= grid_text(self@.take(i + 1)));
            }
            i = i + 1;
        }
        proof {
            assert(self@.take(ROWS as int) =~= self@);
        }
        out
    }
}

impl<T, const ROWS: usize, const COLS: usize> vstd::std_specs::core::IndexSpecImpl<(usize, usize)> for StaticMatrix<T, ROWS, COLS> {
    open spec fn index_req(&self, index: &(usize, usize)) -> bool {
        Self::in_bounds(index.0 as int, index.1 as int)
    }
}

impl<T, const ROWS: usize, const COLS: usize> Index<(usize, usize)> for StaticMatrix<T, ROWS, COLS> {
    type Output = T;

    /// Reads the element at `index`, as `get` does.
    fn index(&self, index: (usize, usize)) -> (r: &T)
        ensures
            *r == self@[index.0 as int][index.1 as int],
    {
        self.get(index)
    }
}

impl<T: Copy, const ROWS: usize, const COLS: usize> IndexMut<(usize, usize)> for StaticMatrix<T, ROWS, COLS> {
    /// Lends the element at `index` for writing: what the borrower leaves
    /// there is the element afterwards, and no other element changes.
    fn index_mut(&mut self, index: (usize, usize)) -> (r: &mut T)
        requires
            Self::in_bounds(index.0 as int, index.1 as int),
        ensures
            *r == old(self)@[index.0 as int][index.1 as int],
            final(self)@ == grid_write(old(self)@, index.0 as int, index.1 as int, *final(r)),
    {
        &mut self.data[index.0][index.1]
    }
}

} // verus!
