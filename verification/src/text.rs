//! Textual forms: the decimal form of an integer, the short tag that names
//! a container's kind, element type and shape, and the rendered grid.

use vstd::prelude::*;
use vstd::string::StringExecFns;

verus! {

/// The character of the decimal digit `d`.
pub open spec fn digit_char(d: nat) -> char {
    ((48 + d) as u8) as char
}

/// The decimal digits of `n`, most significant first, without leading
/// zeros; `0` is the single digit `0`.
pub open spec fn decimal_digits(n: nat) -> Seq<char>
    decreases n,
{
    if n < 10 {
        seq![digit_char(n)]
    } else {
        decimal_digits(n / 10).push(digit_char(n % 10))
    }
}

/// The decimal form of `v`: its digits, after a minus sign where `v` is
/// negative.
pub open spec fn decimal(v: int) -> Seq<char> {
    if v < 0 {
        seq!['-'] + decimal_digits((-v) as nat)
    } else {
        decimal_digits(v as nat)
    }
}

/// An element that has a textual debug form, which the rendered grid shows.
pub trait DebugForm {
    /// The debug form of the value.
    spec fn debug_form(&self) -> Seq<char>;

    /// Writes the debug form of the value out.
    fn debug_string(&self) -> (s: String)
        ensures
            s@ == self.debug_form(),
    ;
}

/// Trusted: formatting a `u128` with `{:?}`, which std documents to give
/// the decimal digits of the value.
#[verifier::external_body]
fn format_unsigned(v: u128) -> (s: String)
    ensures
        s@ == decimal_digits(v as nat),
{
    format!("{:?}", v)
}

/// Trusted: formatting an `i128` with `{:?}`, which std documents to give
/// the decimal digits of the value, after a minus sign where it is negative.
#[verifier::external_body]
fn format_signed(v: i128) -> (s: String)
    ensures
        s@ == decimal(v as int),
{
    format!("{:?}", v)
}

impl DebugForm for u8 {
    open spec fn debug_form(&self) -> Seq<char> {
        decimal(*self as int)
    }

    fn debug_string(&self) -> (s: String) {
        format_unsigned(*self as u128)
    }
}

impl DebugForm for u16 {
    open spec fn debug_form(&self) -> Seq<char> {
        decimal(*self as int)
    }

    fn debug_string(&self) -> (s: String) {
        format_unsigned(*self as u128)
    }
}

impl DebugForm for u32 {
    open spec fn debug_form(&self) -> Seq<char> {
        decimal(*self as int)
    }

    fn debug_string(&self) -> (s: String) {
        format_unsigned(*self as u128)
    }
}

impl DebugForm for u64 {
    open spec fn debug_form(&self) -> Seq<char> {
        decimal(*self as int)
    }

    fn debug_string(&self) -> (s: String) {
        format_unsigned(*self as u128)
    }
}

impl DebugForm for u128 {
    open spec fn debug_form(&self) -> Seq<char> {
        decimal(*self as int)
    }

    fn debug_string(&self) -> (s: String) {
        format_unsigned(*self as u128)
    }
}

impl DebugForm for usize {
    open spec fn debug_form(&self) -> Seq<char> {
        decimal(*self as int)
    }

    fn debug_string(&self) -> (s: String) {
        format_unsigned(*self as u128)
    }
}

impl DebugForm for i8 {
    open spec fn debug_form(&self) -> Seq<char> {
        decimal(*self as int)
    }

    fn debug_string(&self) -> (s: String) {
        format_signed(*self as i128)
    }
}

impl DebugForm for i16 {
    open spec fn debug_form(&self) -> Seq<char> {
        decimal(*self as int)
    }

    fn debug_string(&self) -> (s: String) {
        format_signed(*self as i128)
    }
}

impl DebugForm for i32 {
    open spec fn debug_form(&self) -> Seq<char> {
        decimal(*self as int)
    }

    fn debug_string(&self) -> (s: String) {
        format_signed(*self as i128)
    }
}

impl DebugForm for i64 {
    open spec fn debug_form(&self) -> Seq<char> {
        decimal(*self as int)
    }

    fn debug_string(&self) -> (s: String) {
        format_signed(*self as i128)
    }
}

impl DebugForm for i128 {
    open spec fn debug_form(&self) -> Seq<char> {
        decimal(*self as int)
    }

    fn debug_string(&self) -> (s: String) {
        format_signed(*self as i128)
    }
}

impl DebugForm for isize {
    open spec fn debug_form(&self) -> Seq<char> {
        decimal(*self as int)
    }

    fn debug_string(&self) -> (s: String) {
        format_signed(*self as i128)
    }
}

/// The kind label of the dynamically sized container: `matrix`.
pub open spec fn matrix_kind() -> Seq<char> {
    seq!['m', 'a', 't', 'r', 'i', 'x']
}

/// The kind label of the fixed-size container: `static_matrix`.
pub open spec fn static_matrix_kind() -> Seq<char> {
    seq!['s', 't', 'a', 't', 'i', 'c', '_', 'm', 'a', 't', 'r', 'i', 'x']
}

/// The tag of a container: its kind, `::`, the name of its element type, a
/// space, and the shape as `[<rows>x<cols>]`.
pub open spec fn tag_text(kind: Seq<char>, element: Seq<char>, rows: nat, cols: nat) -> Seq<char> {
    kind + seq![':', ':'] + element + seq![' ', '['] + decimal_digits(rows) + seq!['x']
        + decimal_digits(cols) + seq![']']
}

/// Builds the tag of a container from its parts.
pub fn shape_tag(kind: &str, element: &str, rows: usize, cols: usize) -> (s: String)
    ensures
        s@ == tag_text(kind@, element@, rows as nat, cols as nat),
{
    proof {
        reveal_strlit("::");
        reveal_strlit(" [");
        reveal_strlit("x");
        reveal_strlit("]");
    }
    let row_digits = format_unsigned(rows as u128);
    let col_digits = format_unsigned(cols as u128);
    let mut out = String::new();
    out.append(kind);
    out.append("::");
    out.append(element);
    out.append(" [");
    out.append(row_digits.as_str());
    out.append("x");
    out.append(col_digits.as_str());
    out.append("]");
    assert(out@ =~= tag_text(kind@, element@, rows as nat, cols as nat));
    out
}

/// The elements of `row` in order, each as its debug form between two
/// single spaces.
pub open spec fn cells_text<T: DebugForm>(row: Seq<T>) -> Seq<char>
    decreases row.len(),
{
    if row.len() == 0 {
        Seq::empty()
    } else {
        cells_text(row.drop_last()) + seq![' '] + row.last().debug_form() + seq![' ']
    }
}

/// The rows of `grid` from top to bottom, each as its cells followed by one
/// line break.
pub open spec fn grid_text<T: DebugForm>(grid: Seq<Seq<T>>) -> Seq<char>
    decreases grid.len(),
{
    if grid.len() == 0 {
        Seq::empty()
    } else {
        grid_text(grid.drop_last()) + cells_text(grid.last()) + seq!['\n']
    }
}

/// Appends one cell to a text under construction: a space, the element's
/// debug form, a space. `done` holds the cells of the line so far and
/// `before` the text ahead of the line.
pub(crate) fn push_cell<T: DebugForm>(
    out: &mut String,
    value: &T,
    Ghost(done): Ghost<Seq<T>>,
    Ghost(before): Ghost<Seq<char>>,
)
    requires
        old(out)@ == before + cells_text(done),
    ensures
        final(out)@ == before + cells_text(done.push(*value)),
{
    proof {
        reveal_strlit(" ");
        assert(done.push(*value).drop_last() =~= done);
    }
    let cell = value.debug_string();
    out.append(" ");
    out.append(cell.as_str());
    out.append(" ");
    assert(out@ =~= before + cells_text(done.push(*value)));
}

} // verus!
