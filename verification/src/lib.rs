//! Points, sizes, rectangles, boxes and transformations over exact scalars,
//! each tagged with the unit of the space it lives in.
//!
//! A value of one unit cannot be mistaken for a value of another: the unit is
//! a type parameter that takes no part in the value, and only a
//! `ScaleFactor` or a transformation leads from one unit to another.
pub use box3d::{Box3D, TypedBox3D, box3d};
pub use cuboid::{Cuboid, TypedCuboid, cuboid};
pub use fixed::Fixed;
pub use length::{Length, UnknownUnit, Untyped};
pub use matrix::{Matrix4, identity, ortho};
pub use matrix2d::{Matrix2D, TypedMatrix2D};
pub use matrix4d::{Matrix4D, TypedMatrix4D};
pub use nonempty::{NonEmpty, Region};
pub use num::{One, Scalar, Zero};
pub use point::{Point2D, Point3D, Point4D, TypedPoint2D, TypedPoint3D, TypedPoint4D, point2, point3};
pub use rigid::{RigidTransform3D, TypedRigidTransform3D, TypedTransform3D};
pub use rotation::{Rotation3D, TypedRotation3D};
pub use rect::{Box2D, Rect, TypedBox2D, TypedRect, box2, rect};
pub use scale_factor::ScaleFactor;
pub use side_offsets::{SideOffsets2D, SideOffsets2DSimdI32, SideOffsets3D, TypedSideOffsets3D};
pub use size::{Size2D, Size3D, TypedSize2D, TypedSize3D, size2, size3};
pub use vector::{TypedVector2D, TypedVector3D, Vector2D, Vector3D, vec2, vec3};

pub mod box3d;
pub mod cuboid;
pub mod fixed;
pub mod inverse4d;
pub mod laws;
pub mod length;
pub mod matrix;
pub mod matrix2d;
pub mod matrix4d;
pub mod model;
pub mod nonempty;
pub mod num;
pub mod point;
pub mod rect;
pub mod rigid;
pub mod rotation;
pub mod scale_factor;
pub mod side_offsets;
pub mod size;
pub mod vector;
