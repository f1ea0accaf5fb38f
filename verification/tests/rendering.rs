use matrix::text::shape_tag;
use matrix::{DebugForm, Matrix, StaticMatrix, Tensor};

fn text_of<M: Tensor>(m: &M) -> String {
    m.text()
}

fn tag_of<M: Tensor>(m: &M, element: &str) -> String {
    m.tag(element)
}

#[test]
fn display_of_the_two_by_two_integer_identity() {
    let m = Matrix::<i32>::identity(2);
    assert_eq!(m.render(), " 1  0 \n 0  1 \n");
}

#[test]
fn static_display_of_the_two_by_two_integer_identity() {
    let m = StaticMatrix::<i32, 2, 2>::identity();
    assert_eq!(m.render(), " 1  0 \n 0  1 \n");
}

#[test]
fn debug_tag_of_a_three_by_four_matrix_of_f64() {
    let m = Matrix::<f64>::new(3, 4);
    assert_eq!(m.debug_tag("f64"), "matrix::f64 [3x4]");
}

#[test]
fn debug_tag_of_a_three_by_two_matrix_of_i32() {
    let m = Matrix::<i32>::zeros(3, 2);
    assert_eq!(m.debug_tag("i32"), "matrix::i32 [3x2]");
}

#[test]
fn debug_tag_of_a_static_three_by_two_matrix_of_i32() {
    let m = StaticMatrix::<i32, 3, 2>::zeros();
    assert_eq!(m.debug_tag("i32"), "static_matrix::i32 [3x2]");
}

#[test]
fn debug_tag_does_not_depend_on_the_elements() {
    let mut m = Matrix::<i32>::zeros(10, 12);
    let before = m.debug_tag("i32");
    m.set((3, 4), 99);
    assert_eq!(m.debug_tag("i32"), before);
    assert_eq!(before, "matrix::i32 [10x12]");
}

#[test]
fn debug_tag_of_an_empty_matrix() {
    let m = Matrix::<u8>::new(0, 0);
    assert_eq!(m.debug_tag("u8"), "matrix::u8 [0x0]");
}

#[test]
fn shape_tag_joins_its_parts() {
    assert_eq!(shape_tag("matrix", "i32", 3, 2), "matrix::i32 [3x2]");
    assert_eq!(shape_tag("k", "", 0, 1234567890), "k:: [0x1234567890]");
    assert_eq!(
        shape_tag("static_matrix", "u64", usize::MAX, 7),
        format!("static_matrix::u64 [{}x7]", usize::MAX)
    );
}

#[test]
fn dynamic_and_static_of_equal_contents_render_alike() {
    let mut d = Matrix::<i64>::zeros(2, 3);
    let mut s = StaticMatrix::<i64, 2, 3>::zeros();
    let values: [[i64; 3]; 2] = [[1, -20, 300], [-4000, 0, 60000]];
    for i in 0..2 {
        for j in 0..3 {
            d.set((i, j), values[i][j]);
            s.set((i, j), values[i][j]);
        }
    }
    assert_eq!(d.render(), s.render());
    assert_eq!(d.render(), " 1  -20  300 \n -4000  0  60000 \n");
    assert_eq!(text_of(&d), text_of(&s));
}

#[test]
fn rows_without_columns_render_as_empty_lines() {
    let m = Matrix::<u8>::new(3, 0);
    assert_eq!(m.render(), "\n\n\n");
    let s = StaticMatrix::<u8, 3, 0>::new();
    assert_eq!(s.render(), "\n\n\n");
    let none = Matrix::<u8>::new(0, 3);
    assert_eq!(none.render(), "");
}

#[test]
fn the_shared_capability_gives_the_same_text_and_tag() {
    let d = Matrix::<u8>::ones(1, 2);
    assert_eq!(text_of(&d), " 1  1 \n");
    assert_eq!(tag_of(&d, "u8"), "matrix::u8 [1x2]");
    let s = StaticMatrix::<u8, 1, 2>::ones();
    assert_eq!(text_of(&s), " 1  1 \n");
    assert_eq!(tag_of(&s, "u8"), "static_matrix::u8 [1x2]");
}

#[test]
fn debug_form_of_integers_is_decimal() {
    assert_eq!(0u8.debug_string(), "0");
    assert_eq!(255u8.debug_string(), "255");
    assert_eq!(65535u16.debug_string(), "65535");
    assert_eq!(4000000000u32.debug_string(), "4000000000");
    assert_eq!(u64::MAX.debug_string(), "18446744073709551615");
    assert_eq!(u128::MAX.debug_string(), "340282366920938463463374607431768211455");
    assert_eq!(10usize.debug_string(), "10");
    assert_eq!((-128i8).debug_string(), "-128");
    assert_eq!((-1i16).debug_string(), "-1");
    assert_eq!(i32::MIN.debug_string(), "-2147483648");
    assert_eq!(i64::MAX.debug_string(), "9223372036854775807");
    assert_eq!(i128::MIN.debug_string(), "-170141183460469231731687303715884105728");
    assert_eq!((-7isize).debug_string(), "-7");
    assert_eq!(109i32.debug_string(), format!("{:?}", 109i32));
}
