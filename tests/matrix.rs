use math_3d::error::MathError;
use math_3d::matrix::{Matrix, RationalMatrix};
use math_3d::scalar::RoundTo;
use math_3d::vector::Vector4;

#[test]
fn matrix_should_create_vector() {
    let m = Matrix::new(4, 4);
    assert_eq!(m.len(), 16);
}

#[test]
fn should_create_identity_vector() {
    let m = Matrix::identity(4, 4);
    assert_eq!(m.len(), 16);
    assert_eq!(m.get(0, 0), Ok(1));
    assert_eq!(m.get(1, 1), Ok(1));
    assert_eq!(m.get(2, 2), Ok(1));
    assert_eq!(m.get(3, 3), Ok(1));
}

#[test]
fn should_multiply_two_4x4_matrices() {
    let a = Matrix::fill(
        Matrix::new(4, 4),
        vec![1, 2, 3, 4, 5, 6, 7, 8, 1, 2, 3, 4, 5, 6, 7, 8],
    );
    let b = Matrix::fill(
        Matrix::new(4, 4),
        vec![-1, 2, -3, 4, -5, 6, -7, 8, -1, 2, -3, 4, -5, 6, -7, 8],
    );
    let output = Matrix::fill(
        Matrix::new(4, 4),
        vec![-34, 44, -54, 64, -82, 108, -134, 160, -34, 44, -54, 64, -82, 108, -134, 160, 4, 4],
    );
    assert_eq!(Matrix::mul(a, b), Ok(output));
}

#[test]
fn should_multiply_matrix_by_vector() {
    let m = Matrix::fill(
        Matrix::new(4, 4),
        vec![1, 2, 3, 4, 5, 6, 7, 8, 1, 2, 3, 4, 0, 0, 0, 1],
    );
    let v = Vector4::new(1, 2, 3, 1);
    assert_eq!(Matrix::mul_vector(m, v), Ok(Vector4::new(18, 46, 18, 1)));
}

#[test]
fn should_multiply_matrix_by_identity_matrix() {
    let m = Matrix::fill(
        Matrix::new(4, 4),
        vec![1, 2, 3, 4, 5, 6, 7, 8, 1, 2, 3, 4, 0, 0, 0, 1],
    );
    let im = Matrix::identity(4, 4);
    let output = Matrix::fill(
        Matrix::new(4, 4),
        vec![1, 2, 3, 4, 5, 6, 7, 8, 1, 2, 3, 4, 0, 0, 0, 1],
    );
    assert_eq!(Matrix::mul(m, im), Ok(output));
}

#[test]
fn should_multiply_identity_matrix_by_vector() {
    let m = Matrix::identity(4, 4);
    let v = Vector4::new(1, 2, 3, 4);
    assert_eq!(Matrix::mul_vector(m, v.clone()), Ok(v));
}

#[test]
fn should_multiply_matrix_with_inverse() {
    let a = Matrix::fill(
        Matrix::new(4, 4),
        vec![1, 2, 3, 4, 5, 6, 7, 8, 1, 2, 3, 4, 5, 6, 7, 8],
    );
    let b = Matrix::fill(
        Matrix::new(4, 4),
        vec![8, 7, 6, 5, 4, 3, 2, 1, -1, 2, -3, 4, -5, 6, -7, 8],
    );
    let c = Matrix::mul(a.clone(), b.clone()).unwrap();
    let inverse = Matrix::inverse(b).unwrap();
    let result = RationalMatrix {
        numerators: Matrix::mul(c, inverse.numerators).unwrap(),
        denominator: inverse.denominator,
    };
    assert_eq!(result, RationalMatrix { numerators: a, denominator: 1 });
}

#[test]
fn should_create_submatrix_from_3x3() {
    let m = Matrix::fill(Matrix::new(3, 3), vec![1, 2, 3, 4, 5, 6, 7, 8, 9]);
    let output = Matrix::fill(Matrix::new(2, 2), vec![4, 5, 7, 8, 2, 2]);
    let result = Matrix::submatrix(m, 0, 2);
    assert_eq!(result, Ok(output));
}

#[test]
fn should_create_submatrix_from_4x4() {
    let m = Matrix::fill(
        Matrix::new(4, 4),
        vec![1, 2, 3, 4, 5, 6, 7, 8, 1, 2, 3, 4, 0, 0, 0, 1],
    );
    let output = Matrix::fill(Matrix::new(3, 3), vec![5, 6, 8, 1, 2, 4, 0, 0, 1, 3, 3]);
    let result = Matrix::submatrix(m, 0, 2);
    assert_eq!(result, Ok(output));
}

#[test]
fn should_calculate_minor_for_3x3_matrix() {
    let m = Matrix::fill(Matrix::new(3, 3), vec![1, 2, 3, 4, 5, 6, 7, 8, 9]);
    let sub_matrix = Matrix::submatrix(m.clone(), 1, 0).unwrap();
    let minor = Matrix::minor(m, 1, 0);
    let sub_matrix_determinant = Matrix::determinant(sub_matrix);
    assert_eq!(sub_matrix_determinant, Ok(-6));
    assert_eq!(sub_matrix_determinant, minor);
}

#[test]
fn should_calcualte_cofactor_for_3x3_matrix() {
    let m = Matrix::fill(Matrix::new(3, 3), vec![1, 2, 3, 4, 5, 6, 7, 8, 9]);
    assert_eq!(Matrix::minor(m.clone(), 0, 0), Ok(-3));
    assert_eq!(Matrix::cofactor(m.clone(), 0, 0), Ok(-3));
    assert_eq!(Matrix::minor(m.clone(), 1, 0), Ok(-6));
    assert_eq!(Matrix::cofactor(m, 1, 0), Ok(6));
}

#[test]
fn should_calculate_inverse_of_the_matrix() {
    let m = Matrix::fill(
        Matrix::new(4, 4),
        vec![1, 2, 3, 4, 5, 6, 7, 8, -1, 2, -3, 4, -5, 6, -7, 8],
    );
    let im = RationalMatrix {
        numerators: Matrix::fill(
            Matrix::new(4, 4),
            vec![
                -4375, 1875, 4375, -1875, -5000, 2500, -5000, 2500, 3125, -625, -3125, 625, 3750,
                -1250, 3750, -1250, 40000, 40000,
            ],
        ),
        denominator: 10000,
    };
    let rounded = Matrix::inverse(m).unwrap().round_to(4);
    assert_eq!(rounded.denominator, 10000);
    assert_eq!(rounded, im);
}

#[test]
fn should_calculate_inverse_of_the_identity_matrix() {
    let m = Matrix::identity(4, 4);
    assert_eq!(
        Matrix::inverse(m.clone()),
        Ok(RationalMatrix { numerators: m, denominator: 1 })
    );
}

#[test]
fn determinant_of_2x2_is_ad_minus_bc() {
    let m = Matrix::fill(Matrix::new(2, 2), vec![3, 8, 4, 6]);
    assert_eq!(Matrix::determinant(m), Ok(3 * 6 - 8 * 4));
}

#[test]
fn determinant_of_1x1_is_its_entry() {
    let m = Matrix::fill(Matrix::new(1, 1), vec![-7]);
    assert_eq!(Matrix::determinant(m), Ok(-7));
}

#[test]
fn determinant_of_4x4_by_expansion() {
    let m = Matrix::fill(
        Matrix::new(4, 4),
        vec![-2, -8, 3, 5, -3, 1, 7, 3, 1, 2, -9, 6, -6, 7, 7, -9],
    );
    assert_eq!(Matrix::cofactor(m.clone(), 0, 0), Ok(690));
    assert_eq!(Matrix::cofactor(m.clone(), 0, 1), Ok(447));
    assert_eq!(Matrix::cofactor(m.clone(), 0, 2), Ok(210));
    assert_eq!(Matrix::cofactor(m.clone(), 0, 3), Ok(51));
    assert_eq!(Matrix::determinant(m), Ok(-4071));
}

#[test]
fn determinant_refuses_non_square_and_empty() {
    assert_eq!(Matrix::determinant(Matrix::new(2, 3)), Err(MathError::NotSquare));
    assert_eq!(Matrix::determinant(Matrix::new(0, 0)), Err(MathError::InvalidArgument));
    assert_eq!(Matrix::minor(Matrix::new(3, 2), 0, 0), Err(MathError::NotSquare));
    assert_eq!(Matrix::cofactor(Matrix::new(3, 3), 3, 0), Err(MathError::InvalidArgument));
    assert_eq!(Matrix::minor(Matrix::new(1, 1), 0, 0), Err(MathError::InvalidArgument));
}

#[test]
fn inverse_refuses_singular_non_square_and_empty() {
    let singular = Matrix::fill(Matrix::new(3, 3), vec![1, 2, 3, 4, 5, 6, 7, 8, 9]);
    assert_eq!(Matrix::inverse(singular), Err(MathError::SingularMatrix));
    assert_eq!(Matrix::inverse(Matrix::new(2, 3)), Err(MathError::NotSquare));
    assert_eq!(Matrix::inverse(Matrix::new(0, 0)), Err(MathError::InvalidArgument));
}

#[test]
fn inverse_with_negative_determinant_has_positive_denominator() {
    let m = Matrix::fill(Matrix::new(2, 2), vec![1, 2, 3, 4]);
    let inverse = Matrix::inverse(m).unwrap();
    assert_eq!(inverse.denominator, 2);
    let expected = Matrix::fill(Matrix::new(2, 2), vec![-4, 2, 3, -1]);
    assert_eq!(inverse.numerators, expected);
}

#[test]
fn inverse_of_1x1() {
    let m = Matrix::fill(Matrix::new(1, 1), vec![4]);
    let inverse = Matrix::inverse(m).unwrap();
    assert_eq!(inverse.numerators.get(0, 0), Ok(1));
    assert_eq!(inverse.denominator, 4);
}

#[test]
fn matrix_times_its_inverse_numerators_is_scaled_identity() {
    let m = Matrix::fill(
        Matrix::new(4, 4),
        vec![1, 2, 3, 4, 5, 6, 7, 8, -1, 2, -3, 4, -5, 6, -7, 8],
    );
    let inverse = Matrix::inverse(m.clone()).unwrap();
    let product = RationalMatrix {
        numerators: Matrix::mul(m, inverse.numerators).unwrap(),
        denominator: inverse.denominator,
    };
    assert_eq!(product, RationalMatrix { numerators: Matrix::identity(4, 4), denominator: 1 });
}

#[test]
fn submatrix_refuses_indices_outside() {
    let m = Matrix::new(3, 3);
    assert_eq!(Matrix::submatrix(m.clone(), 3, 0), Err(MathError::InvalidArgument));
    assert_eq!(Matrix::submatrix(m, 0, 3), Err(MathError::InvalidArgument));
    assert_eq!(Matrix::submatrix(Matrix::new(0, 0), 0, 0), Err(MathError::InvalidArgument));
}

#[test]
fn multiplication_refuses_other_shapes() {
    assert_eq!(Matrix::mul(Matrix::new(3, 3), Matrix::new(3, 3)), Err(MathError::DimensionMismatch));
    assert_eq!(Matrix::mul(Matrix::new(4, 4), Matrix::new(4, 3)), Err(MathError::DimensionMismatch));
    assert_eq!(
        Matrix::mul_vector(Matrix::new(4, 3), Vector4::new(1, 2, 3, 4)),
        Err(MathError::DimensionMismatch)
    );
    assert_eq!(
        Matrix::mul_vector(Matrix::new(5, 4), Vector4::new(1, 2, 3, 4)),
        Err(MathError::DimensionMismatch)
    );
}

#[test]
fn matrix_with_fewer_rows_times_vector_leaves_zeros() {
    let m = Matrix::fill(Matrix::new(2, 4), vec![1, 0, 0, 0, 0, 0, 0, 2]);
    assert_eq!(Matrix::mul_vector(m, Vector4::new(5, 6, 7, 8)), Ok(Vector4::new(5, 16, 0, 0)));
}

#[test]
fn matrix_get_and_set() {
    let mut m = Matrix::new(2, 3);
    assert_eq!(m.set(1, 2, 9), Ok(()));
    assert_eq!(m.get(1, 2), Ok(9));
    assert_eq!(m.get(0, 2), Ok(0));
    assert_eq!(m.get(2, 0), Err(MathError::IndexOutOfRange));
    assert_eq!(m.get(0, 3), Err(MathError::IndexOutOfRange));
    assert_eq!(m.set(0, 3, 1), Err(MathError::IndexOutOfRange));
    assert_eq!(m, Matrix::fill(Matrix::new(2, 3), vec![0, 0, 0, 0, 0, 9]));
}

#[test]
fn fill_with_fewer_values_keeps_the_rest() {
    let m = Matrix::fill(Matrix::identity(2, 2), vec![5, 6, 7]);
    assert_eq!(m.get(1, 0), Ok(7));
    assert_eq!(m.get(1, 1), Ok(1));
    assert_eq!(m.rows(), 2);
    assert_eq!(m.columns(), 2);
}

#[test]
fn identity_of_non_square_shape() {
    let m = Matrix::identity(2, 3);
    assert_eq!(m, Matrix::fill(Matrix::new(2, 3), vec![1, 0, 0, 0, 1, 0]));
}

#[test]
fn matrices_of_different_shapes_are_unequal() {
    assert_ne!(Matrix::new(2, 3), Matrix::new(3, 2));
    assert_eq!(Matrix::new(0, 0).len(), 0);
}

#[test]
fn rational_matrix_rounding_halves_away_from_zero() {
    let m = RationalMatrix {
        numerators: Matrix::fill(Matrix::new(1, 3), vec![1, -1, 2]),
        denominator: 8,
    };
    let rounded = m.round_to(2);
    assert_eq!(rounded.denominator, 100);
    assert_eq!(rounded.numerators, Matrix::fill(Matrix::new(1, 3), vec![13, -13, 25]));
}
