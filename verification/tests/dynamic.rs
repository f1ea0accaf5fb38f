use matrix::{HasOne, HasZero, Matrix};

#[test]
fn new_has_the_shape_and_default_elements() {
    let m = Matrix::<i32>::new(2, 3);
    assert_eq!(m.rows(), 2);
    assert_eq!(m.cols(), 3);
    for i in 0..2 {
        for j in 0..3 {
            assert_eq!(m[(i, j)], 0);
        }
    }
    assert!(m.try_get((2, 0)).is_none());
    assert!(m.try_get((0, 3)).is_none());
}

#[test]
fn new_clones_the_default_of_an_owned_type() {
    let m = Matrix::<String>::new(2, 2);
    assert_eq!(m[(1, 1)], String::new());
    let v = Matrix::<Vec<u8>>::new(1, 4);
    assert_eq!(v[(0, 3)], Vec::<u8>::new());
}

#[test]
fn new_with_no_rows_or_no_columns_is_empty() {
    let a = Matrix::<u8>::new(0, 5);
    assert_eq!((a.rows(), a.cols()), (0, 5));
    assert!(a.try_get((0, 0)).is_none());
    let b = Matrix::<u8>::new(5, 0);
    assert_eq!((b.rows(), b.cols()), (5, 0));
    assert!(b.try_get((0, 0)).is_none());
    let c = Matrix::<u8>::new(0, 0);
    assert_eq!((c.rows(), c.cols()), (0, 0));
}

#[test]
fn zeros_holds_zero_everywhere() {
    let m = Matrix::<i64>::zeros(3, 2);
    assert_eq!((m.rows(), m.cols()), (3, 2));
    for i in 0..3 {
        for j in 0..2 {
            assert_eq!(m[(i, j)], 0);
        }
    }
}

#[test]
fn ones_holds_one_everywhere() {
    let m = Matrix::<u16>::ones(2, 4);
    assert_eq!((m.rows(), m.cols()), (2, 4));
    for i in 0..2 {
        for j in 0..4 {
            assert_eq!(m[(i, j)], 1);
        }
    }
}

#[test]
fn filled_holds_the_value_everywhere() {
    let m = Matrix::filled(2, 2, String::from("ab"));
    for i in 0..2 {
        for j in 0..2 {
            assert_eq!(m[(i, j)], "ab");
        }
    }
}

#[test]
fn identity_is_one_on_the_diagonal_only() {
    let m = Matrix::<i32>::identity(4);
    assert_eq!((m.rows(), m.cols()), (4, 4));
    for i in 0..4 {
        for j in 0..4 {
            assert_eq!(m[(i, j)] == 1, i == j);
            assert_eq!(m[(i, j)], if i == j { 1 } else { 0 });
        }
    }
}

#[test]
fn identity_of_no_dimensions_is_empty() {
    let m = Matrix::<u8>::identity(0);
    assert_eq!((m.rows(), m.cols()), (0, 0));
    assert_eq!(m.render(), "");
}

#[test]
fn identity_of_one_dimension_is_one() {
    let m = Matrix::<u8>::identity(1);
    assert_eq!(m[(0, 0)], 1);
}

#[test]
fn a_write_is_read_back_and_changes_nothing_else() {
    let mut m = Matrix::<i32>::zeros(3, 4);
    m.set((1, 2), 42);
    for i in 0..3 {
        for j in 0..4 {
            let expected = if (i, j) == (1, 2) { 42 } else { 0 };
            assert_eq!(*m.get((i, j)), expected);
        }
    }
    assert_eq!((m.rows(), m.cols()), (3, 4));
}

#[test]
fn a_write_through_the_index_operator_is_read_back() {
    let mut m = Matrix::<i32>::ones(2, 3);
    m[(0, 2)] = -7;
    m[(1, 0)] = 9;
    assert_eq!(m[(0, 2)], -7);
    assert_eq!(m[(1, 0)], 9);
    assert_eq!(m[(0, 0)], 1);
    assert_eq!(m[(0, 1)], 1);
    assert_eq!(m[(1, 1)], 1);
    assert_eq!(m[(1, 2)], 1);
}

#[test]
fn elements_are_stored_row_by_row() {
    let mut m = Matrix::<usize>::zeros(3, 2);
    let mut next = 0;
    for i in 0..3 {
        for j in 0..2 {
            m.set((i, j), next);
            next += 1;
        }
    }
    assert_eq!(m.render(), " 0  1 \n 2  3 \n 4  5 \n");
}

#[test]
fn try_get_answers_none_outside_the_shape() {
    let m = Matrix::<i32>::identity(2);
    assert_eq!(m.try_get((0, 0)), Some(&1));
    assert_eq!(m.try_get((1, 0)), Some(&0));
    assert_eq!(m.try_get((0, 2)), None);
    assert_eq!(m.try_get((2, 0)), None);
    assert_eq!(m.try_get((2, 2)), None);
    assert_eq!(m.try_get((usize::MAX, usize::MAX)), None);
}

#[test]
fn integers_take_zero_and_one_from_their_identities() {
    assert_eq!(<u8 as HasZero>::zero(), 0);
    assert_eq!(<u16 as HasZero>::zero(), 0);
    assert_eq!(<u32 as HasZero>::zero(), 0);
    assert_eq!(<u64 as HasZero>::zero(), 0);
    assert_eq!(<u128 as HasZero>::zero(), 0);
    assert_eq!(<usize as HasZero>::zero(), 0);
    assert_eq!(<i8 as HasZero>::zero(), 0);
    assert_eq!(<i16 as HasZero>::zero(), 0);
    assert_eq!(<i32 as HasZero>::zero(), 0);
    assert_eq!(<i64 as HasZero>::zero(), 0);
    assert_eq!(<i128 as HasZero>::zero(), 0);
    assert_eq!(<isize as HasZero>::zero(), 0);
    assert_eq!(<u8 as HasOne>::one(), 1);
    assert_eq!(<u16 as HasOne>::one(), 1);
    assert_eq!(<u32 as HasOne>::one(), 1);
    assert_eq!(<u64 as HasOne>::one(), 1);
    assert_eq!(<u128 as HasOne>::one(), 1);
    assert_eq!(<usize as HasOne>::one(), 1);
    assert_eq!(<i8 as HasOne>::one(), 1);
    assert_eq!(<i16 as HasOne>::one(), 1);
    assert_eq!(<i32 as HasOne>::one(), 1);
    assert_eq!(<i64 as HasOne>::one(), 1);
    assert_eq!(<i128 as HasOne>::one(), 1);
    assert_eq!(<isize as HasOne>::one(), 1);
}
