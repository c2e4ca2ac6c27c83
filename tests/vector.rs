use math_3d::error::MathError;
use math_3d::vector::Vector4;

#[test]
fn vector_should_create_vector() {
    let v = Vector4::new(1, 2, 3, 0);
    assert_eq!(v.x, 1);
    assert_eq!(v.y, 2);
    assert_eq!(v.z, 3);
}

#[test]
fn vector_should_negate_vector() {
    let v = Vector4::new(1, -2, 3, 0);
    assert_eq!(Vector4::neg(v), Vector4::new(-1, 2, -3, 0));
}

#[test]
fn vector_should_add_two_vectors() {
    let a = Vector4::new(-1, 2, -3, 0);
    let b = Vector4::new(5, -6, 1, 0);
    assert_eq!(Vector4::add(a, b), Vector4::new(4, -4, -2, 0));
}

#[test]
fn vector_should_subtract_two_vectors() {
    let a = Vector4::new(-1, 2, -3, 0);
    let b = Vector4::new(5, -6, 1, 0);
    assert_eq!(Vector4::sub(a, b), Vector4::new(-6, 8, -4, 0));
}

#[test]
fn vector_should_multiply_vector_by_vector() {
    let a = Vector4::new(-1, 0, 2, 0);
    let b = Vector4::new(2, 0, 4, 0);
    assert_eq!(Vector4::mul(a, b), Vector4::new(-2, 0, 8, 0));
}

#[test]
fn should_have_positive_dot_value() {
    let a = Vector4::new(1, 2, 3, 0);
    let b = Vector4::new(2, 4, 6, 0);
    assert!(Vector4::dot(a, b) > 0);
}

#[test]
fn should_have_negative_dot_value() {
    let a = Vector4::new(1, 2, 3, 0);
    let b = Vector4::new(1, 2, -3, 0);
    assert!(Vector4::dot(a, b) < 0);
}

#[test]
fn should_have_0_dot_value() {
    let a = Vector4::new(1, 0, 0, 0);
    let b = Vector4::new(0, 1, 0, 0);
    assert_eq!(Vector4::dot(a, b), 0);
}

#[test]
fn should_calculate_cross_product_1() {
    let a = Vector4::new(1, 4, 8, 0);
    let b = Vector4::new(8, 4, 1, 0);
    assert_eq!(Vector4::cross(a, b), Vector4::new(-28, 63, -28, 0));
}

#[test]
fn should_calculate_cross_product_2() {
    let a = Vector4::new(8, 4, 1, 0);
    let b = Vector4::new(1, 4, 8, 0);
    assert_eq!(Vector4::cross(a, b), Vector4::new(28, -63, 28, 0));
}

#[test]
fn cross_product_ignores_w_and_swapping_negates() {
    let a = Vector4::new(2, -3, 5, 1);
    let b = Vector4::new(-7, 11, 13, 1);
    let ab = Vector4::cross(a, b);
    assert_eq!(ab.w, 0);
    assert_eq!(ab, Vector4::neg(Vector4::cross(b, a)));
}

#[test]
fn dot_product_counts_w_and_commutes() {
    let a = Vector4::new(1, 2, 3, 4);
    let b = Vector4::new(5, -6, 7, 8);
    assert_eq!(Vector4::dot(a, b), 5 - 12 + 21 + 32);
    assert_eq!(Vector4::dot(a, b), Vector4::dot(b, a));
}

#[test]
fn scaling_multiplies_every_component() {
    assert_eq!(Vector4::scale(Vector4::new(1, -2, 3, 1), 3), Vector4::new(3, -6, 9, 3));
}

#[test]
fn vector_get_and_set_by_index() {
    let mut v = Vector4::new(1, 2, 3, 4);
    assert_eq!(v.get(0), Ok(1));
    assert_eq!(v.get(3), Ok(4));
    assert_eq!(v.get(4), Err(MathError::IndexOutOfRange));
    assert_eq!(v.set(2, 9), Ok(()));
    assert_eq!(v, Vector4::new(1, 2, 9, 4));
    assert_eq!(v.set(7, 0), Err(MathError::IndexOutOfRange));
    assert_eq!(v, Vector4::new(1, 2, 9, 4));
}
