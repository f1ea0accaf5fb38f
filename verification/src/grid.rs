//! The mathematical model of a two-dimensional container: a sequence of
//! rows, each a sequence of elements, and the facts about row-major
//! offsets that tie a flat buffer to it.

use vstd::prelude::*;

verus! {

/// Row-major offsets stay inside a buffer of `rows * cols` elements.
pub proof fn lemma_offset_in_buffer(i: int, j: int, rows: int, cols: int)
    requires
        0 <= i < rows,
        0 <= j < cols,
    ensures
        0 <= i * cols,
        i * cols + j < rows * cols,
{
    assert(0 <= i * cols) by (nonlinear_arith)
        requires
            0 <= i,
            0 <= cols,
    ;
    assert((i + 1) * cols <= rows * cols) by (nonlinear_arith)
        requires
            i + 1 <= rows,
            0 <= cols,
    ;
    assert((i + 1) * cols == i * cols + cols) by (nonlinear_arith);
}

/// Two in-range positions with the same row-major offset are the same
/// position.
pub proof fn lemma_offset_injective(a: int, b: int, i: int, j: int, cols: int)
    requires
        0 <= b < cols,
        0 <= j < cols,
        a * cols + b == i * cols + j,
    ensures
        a == i,
        b == j,
{
    if a < i {
        assert((a + 1) * cols <= i * cols) by (nonlinear_arith)
            requires
                a + 1 <= i,
                0 <= cols,
        ;
        assert((a + 1) * cols == a * cols + cols) by (nonlinear_arith);
    } else if i < a {
        assert((i + 1) * cols <= a * cols) by (nonlinear_arith)
            requires
                i + 1 <= a,
                0 <= cols,
        ;
        assert((i + 1) * cols == i * cols + cols) by (nonlinear_arith);
    }
}

/// The grid `g` with the element at row `i`, column `j` replaced by `v`.
pub open spec fn grid_write<T>(g: Seq<Seq<T>>, i: int, j: int, v: T) -> Seq<Seq<T>> {
    g.update(i, g[i].update(j, v))
}

/// The grid that a row-major buffer `data` of `rows * cols` elements stands
/// for: the element at row `i`, column `j` is `data[i * cols + j]`.
pub open spec fn grid_of<T>(data: Seq<T>, rows: nat, cols: nat) -> Seq<Seq<T>> {
    Seq::new(rows, |i: int| Seq::new(cols, |j: int| data[i * cols + j]))
}

/// Replacing the element of a buffer at the offset of `(i, j)` replaces the
/// element of its grid at `(i, j)` and no other.
pub proof fn lemma_buffer_update<T>(data: Seq<T>, rows: nat, cols: nat, i: int, j: int, v: T)
    requires
        data.len() == rows * cols,
        0 <= i < rows,
        0 <= j < cols,
    ensures
        0 <= i * cols + j < data.len(),
        grid_of(data.update(i * cols + j, v), rows, cols) == grid_write(
            grid_of(data, rows, cols),
            i,
            j,
            v,
        ),
{
    let k = i * cols + j;
    lemma_offset_in_buffer(i, j, rows as int, cols as int);
    let got = grid_of(data.update(k, v), rows, cols);
    let expect = grid_write(grid_of(data, rows, cols), i, j, v);
    assert forall|a: int, b: int| 0 <= a < rows && 0 <= b < cols implies #[trigger] got[a][b]
        == expect[a][b] by {
        lemma_offset_in_buffer(a, b, rows as int, cols as int);
        if a * cols + b == k {
            lemma_offset_injective(a, b, i, j, cols as int);
        }
    }
    assert(got =~~= expect);
}

/// Whether `g` has `rows` rows of `cols` elements, each element a clone of
/// `v`.
pub open spec fn grid_of_clones<T: Clone>(g: Seq<Seq<T>>, rows: nat, cols: nat, v: T) -> bool {
    &&& g.len() == rows
    &&& forall|i: int| 0 <= i < rows ==> (#[trigger] g[i]).len() == cols
    &&& forall|i: int, j: int| 0 <= i < rows && 0 <= j < cols ==> cloned(v, #[trigger] g[i][j])
}

/// Whether `g` is the `dims` by `dims` grid that holds `one` on its main
/// diagonal and a clone of `zero` everywhere else.
pub open spec fn identity_grid<T: Clone>(g: Seq<Seq<T>>, dims: nat, zero: T, one: T) -> bool {
    &&& g.len() == dims
    &&& forall|i: int| 0 <= i < dims ==> (#[trigger] g[i]).len() == dims
    &&& forall|i: int, j: int|
        0 <= i < dims && 0 <= j < dims ==> if i == j {
            #[trigger] g[i][j] == one
        } else {
            cloned(zero, g[i][j])
        }
}

/// The grid of `rows` rows of `cols` elements that holds `v` everywhere.
pub open spec fn uniform_grid<T>(rows: nat, cols: nat, v: T) -> Seq<Seq<T>> {
    Seq::new(rows, |i: int| Seq::new(cols, |j: int| v))
}

/// The `dims` by `dims` grid that holds `one` on its main diagonal and
/// `zero` everywhere else.
pub open spec fn unit_grid<T>(dims: nat, zero: T, one: T) -> Seq<Seq<T>> {
    Seq::new(dims, |i: int| Seq::new(dims, |j: int| if i == j { one } else { zero }))
}

/// Whether cloning a value of `T` can only give a value equal to it.
pub open spec fn clone_is_copy<T: Clone>() -> bool {
    forall|a: T, b: T| #[trigger] cloned(a, b) ==> a == b
}

/// A clone of a primitive integer equals its source.
pub proof fn lemma_integers_clone_exactly()
    ensures
        clone_is_copy::<u8>(),
        clone_is_copy::<u16>(),
        clone_is_copy::<u32>(),
        clone_is_copy::<u64>(),
        clone_is_copy::<u128>(),
        clone_is_copy::<usize>(),
        clone_is_copy::<i8>(),
        clone_is_copy::<i16>(),
        clone_is_copy::<i32>(),
        clone_is_copy::<i64>(),
        clone_is_copy::<i128>(),
        clone_is_copy::<isize>(),
{
}

/// For an element type whose clones equal their source, a grid of clones
/// of `v` is the uniform grid of `v`.
pub proof fn lemma_clones_uniform<T: Clone>(g: Seq<Seq<T>>, rows: nat, cols: nat, v: T)
    requires
        grid_of_clones(g, rows, cols, v),
        clone_is_copy::<T>(),
    ensures
        g == uniform_grid(rows, cols, v),
{
    assert(g =~~= uniform_grid(rows, cols, v));
}

/// For an element type whose clones equal their source, an identity grid
/// is the unit grid: `one` where the row equals the column, `zero`
/// elsewhere.
pub proof fn lemma_identity_unit<T: Clone>(g: Seq<Seq<T>>, dims: nat, zero: T, one: T)
    requires
        identity_grid(g, dims, zero, one),
        clone_is_copy::<T>(),
    ensures
        g == unit_grid(dims, zero, one),
{
    assert(g =~~= unit_grid(dims, zero, one));
}

/// In the unit grid the element at `(i, j)` is `one` where `i == j` and
/// `zero` elsewhere; where `zero` and `one` differ, it is `one` exactly on
/// the main diagonal.
pub proof fn lemma_unit_grid_entries<T>(dims: nat, zero: T, one: T)
    ensures
        unit_grid(dims, zero, one).len() == dims,
        forall|i: int| 0 <= i < dims ==> (#[trigger] unit_grid(dims, zero, one)[i]).len() == dims,
        forall|i: int, j: int|
            0 <= i < dims && 0 <= j < dims ==> #[trigger] unit_grid(dims, zero, one)[i][j] == if i
                == j {
                one
            } else {
                zero
            },
        zero != one ==> forall|i: int, j: int|
            0 <= i < dims && 0 <= j < dims ==> (#[trigger] unit_grid(dims, zero, one)[i][j] == one
                <==> i == j),
{
}

/// A write is read back at its position, changes no other position and
/// keeps the shape.
pub proof fn lemma_write_then_read<T>(g: Seq<Seq<T>>, i: int, j: int, v: T)
    requires
        0 <= i < g.len(),
        0 <= j < g[i].len(),
    ensures
        grid_write(g, i, j, v)[i][j] == v,
        grid_write(g, i, j, v).len() == g.len(),
        forall|a: int| 0 <= a < g.len() ==> (#[trigger] grid_write(g, i, j, v)[a]).len() == g[a].len(),
        forall|a: int, b: int|
            0 <= a < g.len() && 0 <= b < g[a].len() && (a != i || b != j) ==> #[trigger] grid_write(
                g,
                i,
                j,
                v,
            )[a][b] == g[a][b],
{
}

} // verus!
