use euclid::{Fixed, Matrix4D, RigidTransform3D, Rotation3D, Vector3D};

fn f(x: f64) -> Fixed {
    Fixed::from_raw((x * 1.0e9).round() as i64)
}

/// The rotation of the quaternion `(i, j, k, r)`, brought to the norm one.
fn unit_quaternion(i: f64, j: f64, k: f64, r: f64) -> Rotation3D<Fixed> {
    let norm = (i * i + j * j + k * k + r * r).sqrt();
    Rotation3D::quaternion(f(i / norm), f(j / norm), f(k / norm), f(r / norm))
}

fn vector(x: f64, y: f64, z: f64) -> Vector3D<Fixed> {
    Vector3D::new(f(x), f(y), f(z))
}

#[test]
fn test_rigid_construction() {
    let translation = vector(12.1, 17.8, -5.5);
    let rotation = unit_quaternion(0.5, -7.8, 2.2, 4.3);

    let rigid = RigidTransform3D::new(rotation, translation);
    assert!(rigid
        .to_transform()
        .approx_eq(&translation.to_transform().pre_mul(&rotation.to_transform())));

    let rigid = RigidTransform3D::new_from_reversed(translation, rotation);
    assert!(rigid.to_transform().approx_eq(
        &translation
            .to_transform()
            .post_mul(&rotation.to_transform())
    ));
}

#[test]
fn test_rigid_decomposition() {
    let translation = vector(12.1, 17.8, -5.5);
    let rotation = unit_quaternion(0.5, -7.8, 2.2, 4.3);

    let rigid = RigidTransform3D::new(rotation, translation);
    let (t2, r2) = rigid.decompose_reversed();
    assert!(rigid
        .to_transform()
        .approx_eq(&t2.to_transform().post_mul(&r2.to_transform())));
}

#[test]
fn test_rigid_inverse() {
    let translation = vector(12.1, 17.8, -5.5);
    let rotation = unit_quaternion(0.5, -7.8, 2.2, 4.3);

    let rigid = RigidTransform3D::new(rotation, translation);
    let inverse = rigid.inverse();
    assert!(rigid
        .post_mul(&inverse)
        .to_transform()
        .approx_eq(&Matrix4D::identity()));
    assert!(inverse
        .to_transform()
        .approx_eq(&rigid.to_transform().invert().unwrap()));
}

#[test]
fn test_rigid_multiply() {
    let translation = vector(12.1, 17.8, -5.5);
    let rotation = unit_quaternion(0.5, -7.8, 2.2, 4.3);
    let translation2 = vector(9.3, -3.9, 1.1);
    let rotation2 = unit_quaternion(0.1, 0.2, 0.3, -0.4);
    let rigid = RigidTransform3D::new(rotation, translation);
    let rigid2 = RigidTransform3D::new(rotation2, translation2);

    assert!(rigid
        .post_mul(&rigid2)
        .to_transform()
        .approx_eq(&rigid.to_transform().post_mul(&rigid2.to_transform())));
    assert!(rigid
        .pre_mul(&rigid2)
        .to_transform()
        .approx_eq(&rigid.to_transform().pre_mul(&rigid2.to_transform())));
}
