use math_3d::vector::Vector4;

#[test]
fn vector_4_should_create_vector() {
    let v = Vector4::new(1, 2, 3, 0);
    assert_eq!(v.x, 1);
    assert_eq!(v.y, 2);
    assert_eq!(v.z, 3);
}

#[test]
fn vector_4_should_negate_vector() {
    let v = Vector4::new(1, -2, 3, 0);
    assert_eq!(Vector4::neg(v), Vector4::new(-1, 2, -3, 0));
}

#[test]
fn vector_4_should_add_two_vectors() {
    let a = Vector4::new(-1, 2, -3, 0);
    let b = Vector4::new(5, -6, 1, 0);
    assert_eq!(Vector4::add(a, b), Vector4::new(4, -4, -2, 0));
}

#[test]
fn vector_4_should_subtract_two_vectors() {
    let a = Vector4::new(-1, 2, -3, 0);
    let b = Vector4::new(5, -6, 1, 0);
    assert_eq!(Vector4::sub(a, b), Vector4::new(-6, 8, -4, 0));
}

#[test]
fn vector_4_should_multiply_vector_by_vector() {
    let a = Vector4::new(-1, 0, 2, 0);
    let b = Vector4::new(2, 0, 4, 0);
    assert_eq!(Vector4::mul(a, b), Vector4::new(-2, 0, 8, 0));
}
