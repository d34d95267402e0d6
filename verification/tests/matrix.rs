use grafx::error::MathError;
use grafx::physics::{Matrix, Matrix2, Matrix3, Matrix4, Vector2, Vector3};

fn sample4() -> Matrix4<f32> {
    Matrix4::from_rows([
        [1.0, 2.0, 3.0, 4.0],
        [5.0, 6.0, 7.0, 8.0],
        [9.0, 10.0, 11.0, 12.0],
        [13.0, 14.0, 15.0, 16.0],
    ])
}

fn sample3() -> Matrix3<f32> {
    Matrix3::from_rows([[1.0, 2.0, 3.0], [4.0, 5.0, 6.0], [7.0, 8.0, 9.0]])
}

#[test]
fn identity_has_ones_on_the_diagonal_only() {
    assert_eq!(*Matrix2::<f32>::identity(0.0, 1.0).get_data(), [[1.0, 0.0], [0.0, 1.0]]);
    assert_eq!(
        *Matrix3::<f32>::identity(0.0, 1.0).get_data(),
        [[1.0, 0.0, 0.0], [0.0, 1.0, 0.0], [0.0, 0.0, 1.0]]
    );
    assert_eq!(
        *Matrix4::<f32>::identity(0.0, 1.0).getData(),
        [[1.0, 0.0, 0.0, 0.0], [0.0, 1.0, 0.0, 0.0], [0.0, 0.0, 1.0, 0.0], [0.0, 0.0, 0.0, 1.0]]
    );
}

#[test]
fn zero_fills_every_cell() {
    assert_eq!(*Matrix2::<f32>::zero(0.0).get_data(), [[0.0; 2]; 2]);
    assert_eq!(*Matrix3::<f32>::zero(0.0).get_data(), [[0.0; 3]; 3]);
    assert_eq!(*Matrix4::<i32>::zero(7).getData(), [[7; 4]; 4]);
}

#[test]
fn get_size_is_the_order() {
    assert_eq!(Matrix2::<f32>::zero(0.0).get_size(), 2);
    assert_eq!(Matrix3::<f32>::zero(0.0).get_size(), 3);
    assert_eq!(Matrix4::<f32>::zero(0.0).get_size(), 4);
}

#[test]
fn from_rows_and_get_data_agree() {
    let rows = [[1.5f32, -2.0], [0.25, 8.0]];
    assert_eq!(*Matrix2::from_rows(rows).get_data(), rows);
    assert_eq!(*sample3().get_data(), [[1.0, 2.0, 3.0], [4.0, 5.0, 6.0], [7.0, 8.0, 9.0]]);
}

#[test]
fn get_value_reads_row_then_column() {
    let m = sample3();
    assert_eq!(m.get_value(0, 2), Ok(3.0));
    assert_eq!(m.get_value(2, 0), Ok(7.0));
    assert_eq!(sample4().get_value(3, 1), Ok(14.0));
    assert_eq!(Matrix2::from_rows([[1, 2], [3, 4]]).get_value(1, 0), Ok(3));
}

#[test]
fn get_value_reports_an_address_outside() {
    assert_eq!(
        sample3().get_value(3, 0),
        Err(MathError::IndexOutOfRange { row: 3, col: 0, size: 3 })
    );
    assert_eq!(
        sample3().get_value(0, 3),
        Err(MathError::IndexOutOfRange { row: 0, col: 3, size: 3 })
    );
    assert_eq!(
        sample4().get_value(usize::MAX, 4),
        Err(MathError::IndexOutOfRange { row: usize::MAX, col: 4, size: 4 })
    );
    assert_eq!(
        Matrix2::<f32>::zero(0.0).get_value(2, 2),
        Err(MathError::IndexOutOfRange { row: 2, col: 2, size: 2 })
    );
}

#[test]
fn set_value_changes_one_cell() {
    let mut m = sample3();
    assert_eq!(m.set_value(1, 2, -6.5), Ok(()));
    assert_eq!(*m.get_data(), [[1.0, 2.0, 3.0], [4.0, 5.0, -6.5], [7.0, 8.0, 9.0]]);
    let mut n = Matrix2::from_rows([[1, 2], [3, 4]]);
    assert_eq!(n.set_value(0, 0, 9), Ok(()));
    assert_eq!(*n.get_data(), [[9, 2], [3, 4]]);
    let mut p = sample4();
    assert_eq!(p.set_value(3, 3, 0.0), Ok(()));
    assert_eq!(p.get_value(3, 3), Ok(0.0));
    assert_eq!(p.get_value(3, 2), Ok(15.0));
}

#[test]
fn set_value_outside_changes_nothing() {
    let mut m = sample3();
    assert_eq!(
        m.set_value(1, 3, 99.0),
        Err(MathError::IndexOutOfRange { row: 1, col: 3, size: 3 })
    );
    assert_eq!(*m.get_data(), *sample3().get_data());
    let mut n = sample4();
    assert_eq!(
        n.set_value(4, 0, 99.0),
        Err(MathError::IndexOutOfRange { row: 4, col: 0, size: 4 })
    );
    assert_eq!(*n.getData(), *sample4().getData());
    let mut p = Matrix2::from_rows([[1, 2], [3, 4]]);
    assert_eq!(p.set_value(2, 0, 5), Err(MathError::IndexOutOfRange { row: 2, col: 0, size: 2 }));
    assert_eq!(*p.get_data(), [[1, 2], [3, 4]]);
}

#[test]
fn transpose_swaps_rows_and_columns() {
    assert_eq!(*Matrix2::from_rows([[1, 2], [3, 4]]).transpose().get_data(), [[1, 3], [2, 4]]);
    assert_eq!(
        *sample3().transpose().get_data(),
        [[1.0, 4.0, 7.0], [2.0, 5.0, 8.0], [3.0, 6.0, 9.0]]
    );
    assert_eq!(
        *sample4().transpose().getData(),
        [
            [1.0, 5.0, 9.0, 13.0],
            [2.0, 6.0, 10.0, 14.0],
            [3.0, 7.0, 11.0, 15.0],
            [4.0, 8.0, 12.0, 16.0]
        ]
    );
}

#[test]
fn transpose_leaves_its_matrix_untouched() {
    let m = sample3();
    let _ = m.transpose();
    assert_eq!(*m.get_data(), *sample3().get_data());
}

#[test]
fn transposing_twice_gives_the_matrix_back() {
    let odd = [[0.1f32, -0.0, f32::MAX], [f32::MIN_POSITIVE, 1e-30, 3.5], [7.25, -8.0, 9.0]];
    assert_eq!(*Matrix3::from_rows(odd).transpose().transpose().get_data(), odd);
    assert_eq!(*sample4().transpose().transpose().getData(), *sample4().getData());
    let two = [[1.5f64, 2.5], [3.5, 4.5]];
    assert_eq!(*Matrix2::from_rows(two).transpose().transpose().get_data(), two);
}

#[test]
fn minor_of_a_3x3_strikes_one_row_and_one_column() {
    let m = sample3();
    let expected: [[[[f32; 2]; 2]; 3]; 3] = [
        [[[5.0, 6.0], [8.0, 9.0]], [[4.0, 6.0], [7.0, 9.0]], [[4.0, 5.0], [7.0, 8.0]]],
        [[[2.0, 3.0], [8.0, 9.0]], [[1.0, 3.0], [7.0, 9.0]], [[1.0, 2.0], [7.0, 8.0]]],
        [[[2.0, 3.0], [5.0, 6.0]], [[1.0, 3.0], [4.0, 6.0]], [[1.0, 2.0], [4.0, 5.0]]],
    ];
    for row in 0..3 {
        for col in 0..3 {
            let minor = m.minor(row, col).ok().unwrap();
            assert_eq!(*minor.get_data(), expected[row][col]);
        }
    }
}

#[test]
fn minor_of_a_4x4_strikes_one_row_and_one_column() {
    let m = sample4();
    let rows = *m.getData();
    for row in 0..4 {
        for col in 0..4 {
            let minor = m.minor(row, col).ok().unwrap();
            let mut expected = [[0.0f32; 3]; 3];
            let mut r = 0;
            for i in 0..4 {
                if i == row {
                    continue;
                }
                let mut c = 0;
                for j in 0..4 {
                    if j == col {
                        continue;
                    }
                    expected[r][c] = rows[i][j];
                    c += 1;
                }
                r += 1;
            }
            assert_eq!(*minor.get_data(), expected);
        }
    }
    assert_eq!(
        *m.minor(1, 1).ok().unwrap().get_data(),
        [[1.0, 3.0, 4.0], [9.0, 11.0, 12.0], [13.0, 15.0, 16.0]]
    );
    assert_eq!(
        *m.minor(3, 3).ok().unwrap().get_data(),
        [[1.0, 2.0, 3.0], [5.0, 6.0, 7.0], [9.0, 10.0, 11.0]]
    );
}

#[test]
fn minor_reports_an_address_outside() {
    assert!(matches!(
        sample3().minor(3, 1),
        Err(MathError::IndexOutOfRange { row: 3, col: 1, size: 3 })
    ));
    assert!(matches!(
        sample4().minor(0, 4),
        Err(MathError::IndexOutOfRange { row: 0, col: 4, size: 4 })
    ));
}

#[test]
fn translate_matrix_puts_the_offset_in_the_last_column() {
    let m = Matrix3::translate_matrix(&Vector2::new(10.0f32, 5.0), 0.0, 1.0);
    assert_eq!(*m.get_data(), [[1.0, 0.0, 10.0], [0.0, 1.0, 5.0], [0.0, 0.0, 1.0]]);
    let n = Matrix4::translate_matrix(&Vector3::new(1.0f32, 2.0, 3.0), 0.0, 1.0);
    assert_eq!(
        *n.getData(),
        [[1.0, 0.0, 0.0, 1.0], [0.0, 1.0, 0.0, 2.0], [0.0, 0.0, 1.0, 3.0], [0.0, 0.0, 0.0, 1.0]]
    );
}

#[test]
fn scale_matrix_puts_the_factors_on_the_diagonal() {
    let m = Matrix3::scale_matrix(&Vector2::new(2.0f32, 3.0), 0.0, 1.0);
    assert_eq!(*m.get_data(), [[2.0, 0.0, 0.0], [0.0, 3.0, 0.0], [0.0, 0.0, 1.0]]);
    let n = Matrix4::ScaleMatrix(&Vector3::new(2.0f32, 3.0, 4.0), 0.0, 1.0);
    assert_eq!(
        *n.getData(),
        [[2.0, 0.0, 0.0, 0.0], [0.0, 3.0, 0.0, 0.0], [0.0, 0.0, 4.0, 0.0], [0.0, 0.0, 0.0, 1.0]]
    );
}

#[test]
fn set_copies_every_cell() {
    let mut m = Matrix4::<f32>::zero(0.0);
    m.set(&sample4());
    assert_eq!(*m.getData(), *sample4().getData());
}
