use raytracer::{Matrix, Matrix1, Matrix2, Matrix3, Matrix4};

const EPSILON: f64 = 1.0e-13;

#[test]
fn add_and_subtract_1x1_matrices() {
    let a: Matrix1<f64> = Matrix1::new([[1.0]]);
    let b: Matrix1<f64> = Matrix1::new([[2.0]]);
    {
        let r: Matrix1<f64> = Matrix1::new([[3.0]]);
        assert_eq!(a + b, r);
        assert_eq!(b + a, r);
    }
    {
        let r: Matrix1<f64> = Matrix1::new([[-1.0]]);
        assert_eq!(a - b, r);
        assert_eq!(b - a, -r);
    }
}

#[test]
fn add_and_subtract_2x2_matrices() {
    let a: Matrix2<f64> = Matrix2::new([[1.0, 2.0], [3.0, 4.0]]);
    let b: Matrix2<f64> = Matrix2::new([[5.0, 6.0], [7.0, 8.0]]);
    {
        let r: Matrix2<f64> = Matrix2::new([[6.0, 8.0], [10.0, 12.0]]);
        assert_eq!(a + b, r);
        assert_eq!(b + a, r);
    }
    {
        let r: Matrix2<f64> = Matrix2::new([[-4.0, -4.0], [-4.0, -4.0]]);
        assert_eq!(a - b, r);
        assert_eq!(b - a, -r);
    }
}

#[test]
fn add_and_subtract_3x3_matrices() {
    let a: Matrix3<f64> = Matrix3::new([
        [6.0, 9.0, 4.0],
        [3.0, 5.0, 7.0],
        [8.0, 1.0, 2.0],
    ]);
    let b: Matrix3<f64> = Matrix3::new([
        [4.0, 8.0, 1.0],
        [9.0, 5.0, 6.0],
        [3.0, 7.0, 2.0],
    ]);
    {
        let r: Matrix3<f64> = Matrix3::new([
            [10.0, 17.0, 5.0],
            [12.0, 10.0, 13.0],
            [11.0, 8.0, 4.0],
        ]);
        assert_eq!(a + b, r);
        assert_eq!(b + a, r);
    }
    {
        let r: Matrix3<f64> = Matrix3::new([
            [2.0, 1.0, 3.0],
            [-6.0, 0.0, 1.0],
            [5.0, -6.0, 0.0],
        ]);
        assert_eq!(a - b, r);
        assert_eq!(b - a, -r);
    }
}

#[test]
fn add_and_subtract_4x4_matrices() {
    let a: Matrix4<f64> = Matrix4::new([
        [2.0, 14.0, 8.0, 16.0],
        [12.0, 7.0, 1.0, 11.0],
        [15.0, 4.0, 3.0, 5.0],
        [10.0, 9.0, 6.0, 13.0],
    ]);
    let b: Matrix4<f64> = Matrix4::new([
        [10.0, 13.0, 16.0, 3.0],
        [1.0, 4.0, 5.0, 7.0],
        [6.0, 15.0, 12.0, 8.0],
        [11.0, 9.0, 14.0, 2.0],
    ]);
    {
        let r: Matrix4<f64> = Matrix4::new([
            [12.0, 27.0, 24.0, 19.0],
            [13.0, 11.0, 6.0, 18.0],
            [21.0, 19.0, 15.0, 13.0],
            [21.0, 18.0, 20.0, 15.0],
        ]);
        assert_eq!(a + b, r);
        assert_eq!(b + a, r);
    }
    {
        let r: Matrix4<f64> = Matrix4::new([
            [-8.0, 1.0, -8.0, 13.0],
            [11.0, 3.0, -4.0, 4.0],
            [9.0, -11.0, -9.0, -3.0],
            [-1.0, 0.0, -8.0, 11.0],
        ]);
        assert_eq!(a - b, r);
        assert_eq!(b - a, -r);
    }
}

#[test]
fn multiply_a_1x1_matrix() {
    let a: Matrix1<f64> = Matrix1::new([[5.0]]);
    let r: Matrix1<f64> = Matrix1::new([[5.0 * 5.0]]);

    assert_eq!(a * a, r);
}

#[test]
fn multiply_a_2x2_matrix() {
    let a: Matrix2<f64> = Matrix2::new([[1.0, 2.0], [3.0, 4.0]]);
    let r: Matrix2<f64> = Matrix2::new([
        [1.0 * 1.0 + 2.0 * 3.0, 1.0 * 2.0 + 2.0 * 4.0],
        [3.0 * 1.0 + 4.0 * 3.0, 3.0 * 2.0 + 4.0 * 4.0],
    ]);

    assert_eq!(a * a, r);
}

#[test]
fn multiply_a_3x3_matrix() {
    let a: Matrix3<f64> = Matrix3::new([
        [1.0, 2.0, 3.0],
        [3.0, 1.0, 2.0],
        [2.0, 3.0, 1.0],
    ]);
    let r: Matrix3<f64> = Matrix3::new([
        [
            1.0 * 1.0 + 2.0 * 3.0 + 3.0 * 2.0,
            1.0 * 2.0 + 2.0 * 1.0 + 3.0 * 3.0,
            1.0 * 3.0 + 2.0 * 2.0 + 3.0 * 1.0,
        ],
        [
            3.0 * 1.0 + 1.0 * 3.0 + 2.0 * 2.0,
            3.0 * 2.0 + 1.0 * 1.0 + 2.0 * 3.0,
            3.0 * 3.0 + 1.0 * 2.0 + 2.0 * 1.0,
        ],
        [
            2.0 * 1.0 + 3.0 * 3.0 + 1.0 * 2.0,
            2.0 * 2.0 + 3.0 * 1.0 + 1.0 * 3.0,
            2.0 * 3.0 + 3.0 * 2.0 + 1.0 * 1.0,
        ],
    ]);

    assert_eq!(a * a, r);
}

#[test]
fn multiply_a_4x4_matrix() {
    let a: Matrix4<f64> = Matrix4::new([
        [1.0, 2.0, 3.0, 4.0],
        [4.0, 1.0, 2.0, 3.0],
        [3.0, 4.0, 1.0, 2.0],
        [2.0, 3.0, 4.0, 1.0],
    ]);
    let r: Matrix4<f64> = Matrix4::new([
        [
            1.0 * 1.0 + 2.0 * 4.0 + 3.0 * 3.0 + 4.0 * 2.0,
            1.0 * 2.0 + 2.0 * 1.0 + 3.0 * 4.0 + 4.0 * 3.0,
            1.0 * 3.0 + 2.0 * 2.0 + 3.0 * 1.0 + 4.0 * 4.0,
            1.0 * 4.0 + 2.0 * 3.0 + 3.0 * 2.0 + 4.0 * 1.0,
        ],
        [
            4.0 * 1.0 + 1.0 * 4.0 + 2.0 * 3.0 + 3.0 * 2.0,
            4.0 * 2.0 + 1.0 * 1.0 + 2.0 * 4.0 + 3.0 * 3.0,
            4.0 * 3.0 + 1.0 * 2.0 + 2.0 * 1.0 + 3.0 * 4.0,
            4.0 * 4.0 + 1.0 * 3.0 + 2.0 * 2.0 + 3.0 * 1.0,
        ],
        [
            3.0 * 1.0 + 4.0 * 4.0 + 1.0 * 3.0 + 2.0 * 2.0,
            3.0 * 2.0 + 4.0 * 1.0 + 1.0 * 4.0 + 2.0 * 3.0,
            3.0 * 3.0 + 4.0 * 2.0 + 1.0 * 1.0 + 2.0 * 4.0,
            3.0 * 4.0 + 4.0 * 3.0 + 1.0 * 2.0 + 2.0 * 1.0,
        ],
        [
            2.0 * 1.0 + 3.0 * 4.0 + 4.0 * 3.0 + 1.0 * 2.0,
            2.0 * 2.0 + 3.0 * 1.0 + 4.0 * 4.0 + 1.0 * 3.0,
            2.0 * 3.0 + 3.0 * 2.0 + 4.0 * 1.0 + 1.0 * 4.0,
            2.0 * 4.0 + 3.0 * 3.0 + 4.0 * 2.0 + 1.0 * 1.0,
        ],
    ]);

    assert_eq!(a * a, r);
}

#[test]
fn determinant_of_a_1x1_matrix() {
    let a: Matrix1<f64> = Matrix1::new([[7.0]]);

    assert_eq!(a.det(), 7.0);
}

#[test]
fn determinant_of_a_2x2_matrix() {
    let a: Matrix2<f64> = Matrix2::new([[1.0, 2.0], [2.0, 1.0]]);
    let r: f64 = 1.0 * 1.0 - 2.0 * 2.0;

    assert_eq!(a.det(), r);
}

#[test]
fn determinant_of_a_3x3_matrix() {
    let a: Matrix3<f64> = Matrix3::new([
        [1.0, 2.0, 3.0],
        [3.0, 1.0, 2.0],
        [2.0, 3.0, 1.0],
    ]);
    let r: f64 = 1.0 * (1.0 * 1.0 - 2.0 * 3.0) - 2.0 * (3.0 * 1.0 - 2.0 * 2.0)
        + 3.0 * (3.0 * 3.0 - 1.0 * 2.0);

    assert_eq!(a.det(), r);
}

#[test]
fn determinant_of_a_4x4_matrix() {
    let a: Matrix4<f64> = Matrix4::new([
        [1.0, 2.0, 3.0, 4.0],
        [4.0, 1.0, 2.0, 3.0],
        [3.0, 4.0, 1.0, 2.0],
        [2.0, 3.0, 4.0, 1.0],
    ]);
    let r: f64 = 1.0
        * (1.0 * (1.0 * 1.0 - 2.0 * 4.0) - 2.0 * (4.0 * 1.0 - 2.0 * 3.0)
            + 3.0 * (4.0 * 4.0 - 1.0 * 3.0))
        - 2.0
            * (4.0 * (1.0 * 1.0 - 2.0 * 4.0) - 2.0 * (3.0 * 1.0 - 2.0 * 2.0)
                + 3.0 * (3.0 * 4.0 - 1.0 * 2.0))
        + 3.0
            * (4.0 * (4.0 * 1.0 - 2.0 * 3.0) - 1.0 * (3.0 * 1.0 - 2.0 * 2.0)
                + 3.0 * (3.0 * 3.0 - 4.0 * 2.0))
        - 4.0
            * (4.0 * (4.0 * 4.0 - 1.0 * 3.0) - 1.0 * (3.0 * 4.0 - 1.0 * 2.0)
                + 2.0 * (3.0 * 3.0 - 4.0 * 2.0));

    assert_eq!(a.det(), r);
}

#[test]
fn inverse_of_2x2_matrices() {
    let a: Matrix2<f64> = Matrix2::new([[4., 1.], [3., 2.]]);
    let b: Matrix2<f64> = Matrix2::new([[3., 2.], [1., 4.]]);

    let res = a - (a * b) * b.inverse().unwrap();

    assert!(res.iter().all(|v| v.abs() < EPSILON));
}

#[test]
fn inverse_of_3x3_matrices() {
    let a: Matrix3<f64> = Matrix3::new([
        [1.0, 5.0, 9.0],
        [7.0, 3.0, 6.0],
        [2.0, 4.0, 8.0],
    ]);
    let b: Matrix3<f64> = Matrix3::new([
        [4.0, 6.0, 2.0],
        [5.0, 8.0, 9.0],
        [7.0, 3.0, 1.0],
    ]);

    let res = a - (a * b) * b.inverse().unwrap();

    assert!(res.iter().all(|v| v.abs() < EPSILON));
}

#[test]
fn inverses_of_4x4_matrices() {
    let a: Matrix4<f64> = Matrix4::new([
        [2.0, 14.0, 8.0, 16.0],
        [12.0, 7.0, 1.0, 11.0],
        [15.0, 4.0, 3.0, 5.0],
        [10.0, 9.0, 6.0, 13.0],
    ]);
    let b: Matrix4<f64> = Matrix4::new([
        [10.0, 13.0, 16.0, 3.0],
        [1.0, 4.0, 5.0, 7.0],
        [6.0, 15.0, 12.0, 8.0],
        [11.0, 9.0, 14.0, 2.0],
    ]);

    let res = a - (a * b) * b.inverse().unwrap();

    assert!(res.iter().all(|v| v.abs() < EPSILON));
}

#[test]
fn multiply_1x4_and_4x1_matrices() {
    let a: Matrix<f64, 1, 4> = Matrix::new([[1.0, 2.0, 3.0, 4.0]]);
    let b: Matrix<f64, 4, 1> = Matrix::new([[1.0], [2.0], [3.0], [4.0]]);
    let r: Matrix1<f64> = Matrix1::new([[1.0 * 1.0 + 2.0 * 2.0 + 3.0 * 3.0 + 4.0 * 4.0]]);

    assert_eq!(a * b, r);
}

#[test]
fn multiply_2x4_and_4x1_matrices() {
    let a: Matrix<f64, 2, 4> = Matrix::new([[1.0, 2.0, 3.0, 4.0], [5.0, 6.0, 7.0, 8.0]]);
    let b: Matrix<f64, 4, 1> = Matrix::new([[1.0], [2.0], [3.0], [4.0]]);
    let r: Matrix<f64, 2, 1> = Matrix::new([
        [1.0 * 1.0 + 2.0 * 2.0 + 3.0 * 3.0 + 4.0 * 4.0],
        [5.0 * 1.0 + 6.0 * 2.0 + 7.0 * 3.0 + 8.0 * 4.0],
    ]);

    assert_eq!(a * b, r);
}

#[test]
fn multiply_3x4_and_4x1_matrices() {
    let a: Matrix<f64, 3, 4> = Matrix::new([
        [1.0, 2.0, 3.0, 4.0],
        [5.0, 6.0, 7.0, 8.0],
        [9.0, 10.0, 11.0, 12.0],
    ]);
    let b: Matrix<f64, 4, 1> = Matrix::new([[1.0], [2.0], [3.0], [4.0]]);
    let r: Matrix<f64, 3, 1> = Matrix::new([
        [1.0 * 1.0 + 2.0 * 2.0 + 3.0 * 3.0 + 4.0 * 4.0],
        [5.0 * 1.0 + 6.0 * 2.0 + 7.0 * 3.0 + 8.0 * 4.0],
        [9.0 * 1.0 + 10.0 * 2.0 + 11.0 * 3.0 + 12.0 * 4.0],
    ]);

    assert_eq!(a * b, r);
}

#[test]
fn multiply_1x4_and_4x2_matrices() {
    let a: Matrix<f64, 1, 4> = Matrix::new([[1.0, 2.0, 3.0, 4.0]]);
    let b: Matrix<f64, 4, 2> = Matrix::new([[1.0, 2.0], [3.0, 4.0], [5.0, 6.0], [7.0, 8.0]]);
    let r: Matrix<f64, 1, 2> = Matrix::new([[
        1.0 * 1.0 + 2.0 * 3.0 + 3.0 * 5.0 + 4.0 * 7.0,
        1.0 * 2.0 + 2.0 * 4.0 + 3.0 * 6.0 + 4.0 * 8.0,
    ]]);

    assert_eq!(a * b, r);
}
