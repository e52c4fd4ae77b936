//! The math kernel: vectors, matrices, quaternions and transform builders,
//! all over fixed-point numbers.
pub mod barycentric;
pub mod matrix;
pub mod quaternion;
pub mod transform;
pub mod trig;
pub mod vector;

pub use barycentric::Barycentric;
pub use matrix::{Mat2, Mat3, Mat4};
pub use quaternion::Quaternion;
pub use transform::{
    create_eular_rotate_x, create_eular_rotate_xyz, create_eular_rotate_y, create_eular_rotate_z,
    create_scale, create_translate, lerp, reflect, rotate_by_axis_rodrigues,
};
pub use vector::{Vec2, Vec3, Vec4};
