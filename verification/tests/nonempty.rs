use euclid::{
    Box2D, Box3D, NonEmpty, Point2D, Point3D, Rect, RigidTransform3D, Rotation3D, Size2D,
    Vector3D,
};

fn point2<T: Copy>(x: T, y: T) -> Point2D<T> {
    euclid::point2(x, y)
}

fn point3<T: Copy>(x: T, y: T, z: T) -> Point3D<T> {
    euclid::point3(x, y, z)
}

fn size2<T: Copy>(w: T, h: T) -> Size2D<T> {
    euclid::size2(w, h)
}

fn rect<T: Copy>(x: T, y: T, w: T, h: T) -> Rect<T> {
    euclid::rect(x, y, w, h)
}

fn box2<T: Copy>(min_x: T, min_y: T, max_x: T, max_y: T) -> Box2D<T> {
    euclid::box2(min_x, min_y, max_x, max_y)
}

#[test]
fn only_a_region_with_points_is_non_empty() {
    let r: Rect<i32> = rect(0, 0, 10, 20);
    assert_eq!(r.to_non_empty().map(|n| *n.get()), Some(r));
    assert!(Rect::new(point2(0, 0), size2(0, 20)).to_non_empty().is_none());
    assert!(Rect::new(point2(0, 0), size2(10, -1)).to_non_empty().is_none());
    let b: Box2D<i32> = box2(0, 0, 10, 20);
    assert_eq!(b.to_non_empty().map(|n| *n.get()), Some(b));
    assert!(Box2D::new(point2(0, 0), point2(0, 20)).to_non_empty().is_none());
    assert!(Box2D::new(point2(5, 0), point2(0, 20)).to_non_empty().is_none());
    let c: Box3D<i32> = Box3D::from_min_max(0, 0, 0, 1, 2, 3);
    assert_eq!(c.to_non_empty().map(|n| *n.get()), Some(c));
    assert!(Box3D::from_min_max(0, 0, 0, 1, 0, 3).to_non_empty().is_none());
}

#[test]
fn union_of_non_empty_regions() {
    let a: NonEmpty<Rect<i32>> = rect(0, 0, 10, 20).to_non_empty().unwrap();
    let b: NonEmpty<Rect<i32>> = rect(20, 30, 1, 1).to_non_empty().unwrap();
    let u = a.union(&b);
    assert_eq!(*u.get(), rect(0, 0, 21, 31));
    assert!(u.contains_rect(&a));
    assert!(u.contains_rect(&b));
    assert!(!a.contains_rect(&u));

    let a: NonEmpty<Box2D<i32>> = box2(0, 0, 10, 20).to_non_empty().unwrap();
    let b: NonEmpty<Box2D<i32>> = box2(20, 30, 21, 31).to_non_empty().unwrap();
    let u = a.union(&b);
    assert_eq!(*u.get(), box2(0, 0, 21, 31));
    assert!(u.contains_box(&a));
    assert!(u.contains_box(&b));
    assert!(!b.contains_box(&u));

    let a: NonEmpty<Box3D<i32>> = Box3D::from_min_max(0, 0, 0, 1, 2, 3).to_non_empty().unwrap();
    let b: NonEmpty<Box3D<i32>> = Box3D::from_min_max(5, 5, 5, 6, 6, 6).to_non_empty().unwrap();
    let u = a.union(&b);
    assert_eq!(*u.get(), Box3D::from_min_max(0, 0, 0, 6, 6, 6));
    assert!(u.contains_box(&a));
    assert!(u.contains_box(&b));
    assert!(!a.contains_box(&b));
}

#[test]
fn rotation_by_quarter_and_half_turns_over_integers() {
    // The quaternion (1, 0, 0, 0) is the half turn about the x axis.
    let half_turn: Rotation3D<i32> = Rotation3D::quaternion(1, 0, 0, 0);
    assert_eq!(half_turn.rotate_point3d(&point3(1, 2, 3)), point3(1, -2, -3));
    assert_eq!(half_turn.rotate_vector3d(&Vector3D::new(1, 2, 3)), Vector3D::new(1, -2, -3));
    assert_eq!(half_turn.inverse(), Rotation3D::quaternion(-1, 0, 0, 0));
    assert_eq!(half_turn.pre_rotate(&half_turn), Rotation3D::quaternion(0, 0, 0, -1));
    assert_eq!(
        half_turn.to_transform().to_array(),
        [1, 0, 0, 0, 0, -1, 0, 0, 0, 0, -1, 0, 0, 0, 0, 1]
    );
    let about_y: Rotation3D<i32> = Rotation3D::quaternion(0, 1, 0, 0);
    // First about x, then about y: together the half turn about z.
    assert_eq!(half_turn.post_rotate(&about_y), Rotation3D::quaternion(0, 0, -1, 0));
    assert_eq!(about_y.pre_rotate(&half_turn), Rotation3D::quaternion(0, 0, -1, 0));
    assert_eq!(
        half_turn.post_rotate(&about_y).rotate_point3d(&point3(1, 2, 3)),
        point3(-1, -2, 3)
    );
    let id: Rotation3D<i32> = Rotation3D::identity();
    assert_eq!(id.rotate_point3d(&point3(1, 2, 3)), point3(1, 2, 3));
    assert_eq!(id.to_transform(), euclid::Matrix4D::identity());
    assert_eq!(half_turn.vector_part(), Vector3D::new(1, 0, 0));
}

#[test]
fn rigid_transforms_over_integers() {
    let half_turn: Rotation3D<i32> = Rotation3D::quaternion(1, 0, 0, 0);
    let shift: Vector3D<i32> = Vector3D::new(10, 20, 30);
    let rigid = RigidTransform3D::new(half_turn, shift);
    // Rotation first: (1, 2, 3) goes to (1, -2, -3), then to (11, 18, 27).
    assert_eq!(
        rigid.to_transform().to_array(),
        [1, 0, 0, 0, 0, -1, 0, 0, 0, 0, -1, 0, 10, 20, 30, 1]
    );
    assert_eq!(
        rigid.to_transform(),
        shift.to_transform().pre_mul(&half_turn.to_transform())
    );
    // Translation first: the translation is rotated along.
    let reversed = rigid.reverse();
    assert_eq!(reversed.translation, Vector3D::new(10, -20, -30));
    assert_eq!(reversed.rotation, half_turn);
    assert_eq!(RigidTransform3D::new_from_reversed(shift, half_turn), reversed);
    assert_eq!(
        reversed.to_transform(),
        shift.to_transform().post_mul(&half_turn.to_transform())
    );
    let (t, r) = rigid.decompose_reversed();
    assert_eq!(t, Vector3D::new(10, -20, -30));
    assert_eq!(r, half_turn);
    let inverse = rigid.inverse();
    assert_eq!(inverse.translation, Vector3D::new(-10, 20, 30));
    assert_eq!(rigid.post_mul(&inverse).to_transform(), euclid::Matrix4D::identity());
    assert_eq!(rigid.pre_mul(&inverse).to_transform(), euclid::Matrix4D::identity());
    assert_eq!(
        rigid.post_mul(&rigid).to_transform(),
        rigid.to_transform().post_mul(&rigid.to_transform())
    );
    assert_eq!(RigidTransform3D::<i32>::identity().to_transform(), euclid::Matrix4D::identity());
    assert_eq!(RigidTransform3D::from_rotation(half_turn).translation, Vector3D::zero());
    assert_eq!(RigidTransform3D::from(half_turn), RigidTransform3D::from_rotation(half_turn));
    assert_eq!(RigidTransform3D::from(shift), RigidTransform3D::from_translation(shift));
    assert_eq!(RigidTransform3D::from_translation(shift).rotation, Rotation3D::identity());
}
