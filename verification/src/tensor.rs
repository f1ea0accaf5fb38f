//! The capability that both containers share: indexed access by an index
//! type of the container's choosing, a short tag and a rendered grid.

use crate::matrix::Matrix;
use crate::static_matrix::StaticMatrix;
use crate::text::{grid_text, matrix_kind, static_matrix_kind, tag_text, DebugForm};
use std::ops::{Index, IndexMut};
use vstd::prelude::*;

verus! {

/// A two-dimensional container that can be indexed, tagged and rendered.
pub trait Tensor: Index<Self::Index> + IndexMut<Self::Index> {
    /// The type that addresses one element.
    type Index;

    /// The type of the elements.
    type Element: DebugForm;

    /// The label of the container kind.
    spec fn kind(&self) -> Seq<char>;

    /// The number of rows and the number of columns.
    spec fn extent(&self) -> (nat, nat);

    /// The elements, row by row.
    spec fn grid(&self) -> Seq<Seq<Self::Element>>;

    /// The short tag: the kind, the name `element` of the element type, and
    /// the shape.
    fn tag(&self, element: &str) -> (s: String)
        ensures
            s@ == tag_text(self.kind(), element@, self.extent().0, self.extent().1),
    ;

    /// The rendered grid: one line per row.
    fn text(&self) -> (s: String)
        ensures
            s@ == grid_text(self.grid()),
    ;
}

impl<T: DebugForm> Tensor for Matrix<T> {
    type Index = (usize, usize);

    type Element = T;

    open spec fn kind(&self) -> Seq<char> {
        matrix_kind()
    }

    open spec fn extent(&self) -> (nat, nat) {
        (self.nrows(), self.ncols())
    }

    open spec fn grid(&self) -> Seq<Seq<T>> {
        self@
    }

    fn tag(&self, element: &str) -> (s: String) {
        self.debug_tag(element)
    }

    fn text(&self) -> (s: String) {
        self.render()
    }
}

impl<T: DebugForm + Copy, const ROWS: usize, const COLS: usize> Tensor for StaticMatrix<T, ROWS, COLS> {
    type Index = (usize, usize);

    type Element = T;

    open spec fn kind(&self) -> Seq<char> {
        static_matrix_kind()
    }

    open spec fn extent(&self) -> (nat, nat) {
        (ROWS as nat, COLS as nat)
    }

    open spec fn grid(&self) -> Seq<Seq<T>> {
        self@
    }

    fn tag(&self, element: &str) -> (s: String) {
        self.debug_tag(element)
    }

    fn text(&self) -> (s: String) {
        self.render()
    }
}

/// Two containers of equal shape that hold equal elements at every
/// position render to the same text, whatever their kinds.
pub proof fn lemma_equal_contents_render_alike<A: Tensor, B: Tensor<Element = A::Element>>(
    a: &A,
    b: &B,
)
    requires
        a.grid().len() == b.grid().len(),
        forall|i: int| 0 <= i < a.grid().len() ==> (#[trigger] a.grid()[i]).len() == b.grid()[i].len(),
        forall|i: int, j: int|
            0 <= i < a.grid().len() && 0 <= j < a.grid()[i].len() ==> #[trigger] a.grid()[i][j]
                == b.grid()[i][j],
    ensures
        grid_text(a.grid()) == grid_text(b.grid()),
{
    assert(a.grid() =~~= b.grid());
}

/// A dynamic and a fixed-size matrix of equal shape and equal contents
/// render to the same text.
pub proof fn lemma_static_renders_as_dynamic<T: DebugForm, const ROWS: usize, const COLS: usize>(
    m: &Matrix<T>,
    s: &StaticMatrix<T, ROWS, COLS>,
)
    requires
        m.nrows() == ROWS,
        m.ncols() == COLS,
        forall|i: int, j: int|
            0 <= i < ROWS && 0 <= j < COLS ==> #[trigger] m@[i][j] == s@[i][j],
    ensures
        grid_text(m@) == grid_text(s@),
{
    m.lemma_view_shape();
    s.lemma_view_shape();
    assert(m@ =~~= s@);
}

} // verus!
