use matrix::StaticMatrix;

#[test]
fn static_new_holds_the_default_everywhere() {
    let m = StaticMatrix::<i32, 2, 3>::new();
    for i in 0..2 {
        for j in 0..3 {
            assert_eq!(m[(i, j)], 0);
        }
    }
    assert!(m.try_get((2, 0)).is_none());
    assert!(m.try_get((0, 3)).is_none());
}

#[test]
fn static_new_accepts_any_copy_type_with_a_default() {
    let m = StaticMatrix::<f64, 2, 2>::new();
    assert_eq!(m[(1, 1)], 0.0);
    let b = StaticMatrix::<bool, 1, 3>::new();
    assert_eq!(b[(0, 2)], false);
}

#[test]
fn static_zeros_holds_zero_everywhere() {
    let m = StaticMatrix::<u64, 3, 2>::zeros();
    for i in 0..3 {
        for j in 0..2 {
            assert_eq!(m[(i, j)], 0);
        }
    }
}

#[test]
fn static_ones_holds_one_everywhere() {
    let m = StaticMatrix::<i8, 2, 4>::ones();
    for i in 0..2 {
        for j in 0..4 {
            assert_eq!(m[(i, j)], 1);
        }
    }
}

#[test]
fn static_filled_holds_the_value_everywhere() {
    let m = StaticMatrix::<char, 2, 2>::filled('q');
    for i in 0..2 {
        for j in 0..2 {
            assert_eq!(m[(i, j)], 'q');
        }
    }
}

#[test]
fn static_identity_is_one_on_the_diagonal_only() {
    let m = StaticMatrix::<i32, 4, 4>::identity();
    for i in 0..4 {
        for j in 0..4 {
            assert_eq!(m[(i, j)] == 1, i == j);
            assert_eq!(m[(i, j)], if i == j { 1 } else { 0 });
        }
    }
}

#[test]
fn static_identity_of_no_dimensions_is_empty() {
    let m = StaticMatrix::<i32, 0, 0>::identity();
    assert!(m.try_get((0, 0)).is_none());
    assert_eq!(m.render(), "");
}

#[test]
fn static_write_is_read_back_and_changes_nothing_else() {
    let mut m = StaticMatrix::<i32, 3, 4>::zeros();
    m.set((2, 1), 17);
    for i in 0..3 {
        for j in 0..4 {
            let expected = if (i, j) == (2, 1) { 17 } else { 0 };
            assert_eq!(*m.get((i, j)), expected);
        }
    }
}

#[test]
fn static_write_through_the_index_operator_is_read_back() {
    let mut m = StaticMatrix::<i16, 2, 2>::ones();
    m[(1, 0)] = -3;
    assert_eq!(m[(1, 0)], -3);
    assert_eq!(m[(0, 0)], 1);
    assert_eq!(m[(0, 1)], 1);
    assert_eq!(m[(1, 1)], 1);
}

#[test]
fn static_try_get_answers_none_outside_the_shape() {
    let m = StaticMatrix::<u8, 2, 3>::ones();
    assert_eq!(m.try_get((1, 2)), Some(&1));
    assert_eq!(m.try_get((1, 3)), None);
    assert_eq!(m.try_get((2, 2)), None);
}
