//! The camera: where it stands, where it looks, and what it sees.
//!
//! The camera looks down the negative `z` axis of its own space.  The view
//! matrix takes world space to that space; the frustum holds the projection
//! and tells whether a point of view space lies in the viewing volume.
use crate::fixed::{lemma_product_bound, Fixed};
use crate::math::matrix::Mat4;
use crate::math::transform::{
    create_eular_rotate_xyz, create_translate, spec_rotate_xyz, spec_translate,
};
use crate::math::trig::{spec_acos, spec_cos, spec_sin, spec_tan};
use crate::math::vector::{Vec3, Vec4};
use std::ops::Neg;
use vstd::prelude::*;

verus! {

/// The rasterizer that a projection is made for.
#[derive(Clone, Copy, Debug, PartialEq, Eq, Structural)]
pub enum Backend {
    /// The scanline rasterizer: the projection leaves `w = -z / near`.
    Scanline,
    /// The barycentric rasterizer: the depth is mapped between the near and
    /// the far plane.
    Barycentric,
}

/// The projection of the scanline rasterizer: with `a = 1 / (near * tan(fovy))`,
/// rows `(a, 0, 0, 0)`, `(0, aspect * a, 0, 0)`, `(0, 0, 1, 0)`, `(0, 0, -1 / near, 0)`.
pub open spec fn scanline_projection(near: Fixed, aspect: Fixed, fovy: Fixed) -> Mat4 {
    let z = Fixed { raw: 0 };
    let o = Fixed { raw: 65536 };
    let a = o.over(near.times(spec_tan(fovy)));
    Mat4 {
        data: [a, z, z, z, z, aspect.times(a), z, z, z, z, o, z, z, z, o.negated().over(near), z],
    }
}

/// The projection of the barycentric rasterizer: with
/// `half_w = near * tan(fovy)` and `half_h = half_w / aspect`, rows
/// `(near / half_w, 0, 0, 0)`, `(0, near / half_h, 0, 0)`,
/// `(0, 0, (far + near) / (near - far), 2 * far * near / (near - far))`,
/// `(0, 0, -1, 0)`.
pub open spec fn barycentric_projection(near: Fixed, far: Fixed, aspect: Fixed, fovy: Fixed) -> Mat4 {
    let z = Fixed { raw: 0 };
    let o = Fixed { raw: 65536 };
    let half_w = near.times(spec_tan(fovy));
    let half_h = half_w.over(aspect);
    let depth = near.minus(far);
    Mat4 {
        data: [
            near.over(half_w),
            z,
            z,
            z,
            z,
            near.over(half_h),
            z,
            z,
            z,
            z,
            far.plus(near).over(depth),
            Fixed { raw: 131072 }.times(far).times(near).over(depth),
            z,
            z,
            o.negated(),
            z,
        ],
    }
}

/// The projection for the given rasterizer.
pub open spec fn spec_projection(
    near: Fixed,
    far: Fixed,
    aspect: Fixed,
    fovy: Fixed,
    backend: Backend,
) -> Mat4 {
    match backend {
        Backend::Scanline => scanline_projection(near, aspect, fovy),
        Backend::Barycentric => barycentric_projection(near, far, aspect, fovy),
    }
}

/// Half the height of the near plane: `near * tan(fovy) / aspect`.
pub open spec fn spec_half_height(near: Fixed, aspect: Fixed, fovy: Fixed) -> Fixed {
    near.times(spec_tan(fovy)).over(aspect)
}

/// Whether the point lies in the open region that six planes bound: four
/// through the origin with the outward normals `(cos, 0, sin)`,
/// `(-cos, 0, sin)`, `(0, near, half_h)` and `(0, -near, half_h)`, where `cos`
/// and `sin` are those of `fovy`, the near plane `z = -near` and the far
/// plane `z = -far`.  The sides are decided exactly, on the raw values, and a
/// point on a plane is not inside.
#[verifier::opaque]
pub open spec fn spec_contain(near: Fixed, far: Fixed, aspect: Fixed, fovy: Fixed, pt: Vec3) -> bool {
    let c = spec_cos(fovy)@;
    let s = spec_sin(fovy)@;
    let half_h = spec_half_height(near, aspect, fovy)@;
    &&& c * pt.x@ + s * pt.z@ < 0
    &&& -c * pt.x@ + s * pt.z@ < 0
    &&& near@ * pt.y@ + half_h * pt.z@ < 0
    &&& -near@ * pt.y@ + half_h * pt.z@ < 0
    &&& pt.z@ < -near@
    &&& pt.z@ > -far@
}

/// The viewing volume of a perspective camera.
#[derive(Clone, Copy, Debug)]
pub struct Frustum {
    near: Fixed,
    far: Fixed,
    aspect: Fixed,
    fovy: Fixed,
    backend: Backend,
    mat: Mat4,
    half_h: Fixed,
    fovy_cos: Fixed,
    fovy_sin: Fixed,
}

impl Frustum {
    #[verifier::type_invariant]
    closed spec fn inv(self) -> bool {
        &&& self.mat == spec_projection(self.near, self.far, self.aspect, self.fovy, self.backend)
        &&& self.half_h == spec_half_height(self.near, self.aspect, self.fovy)
        &&& self.fovy_cos == spec_cos(self.fovy)
        &&& self.fovy_sin == spec_sin(self.fovy)
    }

    /// Distance of the near plane.
    pub closed spec fn spec_near(&self) -> Fixed {
        self.near
    }

    /// Distance of the far plane.
    pub closed spec fn spec_far(&self) -> Fixed {
        self.far
    }

    /// Width over height of the view.
    pub closed spec fn spec_aspect(&self) -> Fixed {
        self.aspect
    }

    /// The angle of view, in radians.
    pub closed spec fn spec_fovy(&self) -> Fixed {
        self.fovy
    }

    /// The rasterizer that the projection is made for.
    pub closed spec fn spec_backend(&self) -> Backend {
        self.backend
    }

    /// The projection matrix.
    pub open spec fn spec_mat(&self) -> Mat4 {
        spec_projection(
            self.spec_near(),
            self.spec_far(),
            self.spec_aspect(),
            self.spec_fovy(),
            self.spec_backend(),
        )
    }

    /// The frustum of the scanline rasterizer.
    pub fn new(near: Fixed, far: Fixed, aspect: Fixed, fovy: Fixed) -> (r: Frustum)
        ensures
            r.spec_near() == near,
            r.spec_far() == far,
            r.spec_aspect() == aspect,
            r.spec_fovy() == fovy,
            r.spec_backend() == Backend::Scanline,
    {
        Frustum::with_backend(near, far, aspect, fovy, Backend::Scanline)
    }

    /// The frustum with the projection of the given rasterizer.
    pub fn with_backend(near: Fixed, far: Fixed, aspect: Fixed, fovy: Fixed, backend: Backend) -> (r:
        Frustum)
        ensures
            r.spec_near() == near,
            r.spec_far() == far,
            r.spec_aspect() == aspect,
            r.spec_fovy() == fovy,
            r.spec_backend() == backend,
    {
        let z = Fixed::zero();
        let o = Fixed::one();
        let tan = fovy.tan();
        let mat = match backend {
            Backend::Scanline => {
                let a = o / (near * tan);
                let m = Mat4 {
                    data: [a, z, z, z, z, aspect * a, z, z, z, z, o, z, z, z, o.neg() / near, z],
                };
                assert(m.data =~= scanline_projection(near, aspect, fovy).data);
                m
            },
            Backend::Barycentric => {
                let half_w = near * tan;
                let half_h = half_w / aspect;
                let depth = near - far;
                let m = Mat4 {
                    data: [
                        near / half_w,
                        z,
                        z,
                        z,
                        z,
                        near / half_h,
                        z,
                        z,
                        z,
                        z,
                        (far + near) / depth,
                        Fixed::from_raw(131072) * far * near / depth,
                        z,
                        z,
                        o.neg(),
                        z,
                    ],
                };
                assert(m.data =~= barycentric_projection(near, far, aspect, fovy).data);
                m
            },
        };
        Frustum {
            near,
            far,
            aspect,
            fovy,
            backend,
            mat,
            half_h: near * tan / aspect,
            fovy_cos: fovy.cos(),
            fovy_sin: fovy.sin(),
        }
    }

    pub fn get_mat(&self) -> (r: &Mat4)
        ensures
            *r == self.spec_mat(),
    {
        proof {
            use_type_invariant(self);
        }
        &self.mat
    }

    pub fn near(&self) -> (r: Fixed)
        ensures
            r == self.spec_near(),
    {
        self.near
    }

    /// The rasterizer that the projection is made for.
    pub fn backend(&self) -> (r: Backend)
        ensures
            r == self.spec_backend(),
    {
        self.backend
    }

    /// Whether `pt`, a point of view space, lies inside the viewing volume.
    /// A point on one of the six planes is outside.
    pub fn contain(&self, pt: &Vec3) -> (r: bool)
        ensures
            r == spec_contain(
                self.spec_near(),
                self.spec_far(),
                self.spec_aspect(),
                self.spec_fovy(),
                *pt,
            ),
    {
        proof {
            use_type_invariant(self);
            reveal(spec_contain);
        }
        let x: i128 = pt.x.raw as i128;
        let y: i128 = pt.y.raw as i128;
        let z: i128 = pt.z.raw as i128;
        let c: i128 = self.fovy_cos.raw as i128;
        let s: i128 = self.fovy_sin.raw as i128;
        let n: i128 = self.near.raw as i128;
        let h: i128 = self.half_h.raw as i128;
        proof {
            lemma_product_bound(c as int, x as int, 0x8000_0000, 0x8000_0000);
            lemma_product_bound(s as int, z as int, 0x8000_0000, 0x8000_0000);
            lemma_product_bound(n as int, y as int, 0x8000_0000, 0x8000_0000);
            lemma_product_bound(h as int, z as int, 0x8000_0000, 0x8000_0000);
            assert((-c) * x == -(c * x)) by (nonlinear_arith);
            assert((-n) * y == -(n * y)) by (nonlinear_arith);
        }
        !(c * x + s * z >= 0 || s * z - c * x >= 0 || n * y + h * z >= 0 || h * z - n * y >= 0 || z
            >= -n || z <= -(self.far.raw as i128))
    }
}

/// The view matrix of a camera at `position` turned by `rotation`: the
/// rotation by the negated angles after the translation by the negated
/// position.
pub open spec fn spec_view_mat(position: Vec3, rotation: Vec3) -> Mat4 {
    spec_rotate_xyz(rotation.negated()).times(spec_translate(position.negated()))
}

/// The direction in which a camera turned by `rotation` looks: the rotation
/// by the negated angles applied to `(0, 0, -1)`.
pub open spec fn spec_view_dir(rotation: Vec3) -> Vec3 {
    spec_rotate_xyz(rotation.negated()).apply(
        Vec4 {
            x: Fixed { raw: 0 },
            y: Fixed { raw: 0 },
            z: Fixed { raw: (-65536i32) },
            w: Fixed { raw: 65536 },
        },
    ).xyz()
}

/// The unit vector from `target` back to `position`.
pub open spec fn spec_back(position: Vec3, target: Vec3) -> Vec3 {
    position.minus(target).spec_normalize()
}

/// The unit vector to the right of a camera at `position` that looks at
/// `target` with the `y` axis as up.
pub open spec fn spec_right(position: Vec3, target: Vec3) -> Vec3 {
    Vec3 { x: Fixed { raw: 0 }, y: Fixed { raw: 65536 }, z: Fixed { raw: 0 } }.spec_cross(
        spec_back(position, target),
    ).spec_normalize()
}

/// The unit vector that points up for a camera at `position` that looks at `target`.
pub open spec fn spec_up(position: Vec3, target: Vec3) -> Vec3 {
    spec_back(position, target).spec_cross(spec_right(position, target)).spec_normalize()
}

/// The view matrix of a camera at `position` that looks at `target`: its
/// rows are the right, up and back vectors, each with the negated dot
/// product with the position.
pub open spec fn spec_lookat_mat(position: Vec3, target: Vec3) -> Mat4 {
    let right = spec_right(position, target);
    let up = spec_up(position, target);
    let back = spec_back(position, target);
    let z = Fixed { raw: 0 };
    Mat4 {
        data: [
            right.x,
            right.y,
            right.z,
            right.spec_dot(position).negated(),
            up.x,
            up.y,
            up.z,
            up.spec_dot(position).negated(),
            back.x,
            back.y,
            back.z,
            back.spec_dot(position).negated(),
            z,
            z,
            z,
            Fixed { raw: 65536 },
        ],
    }
}

/// The angles that a camera at `position` that looks at `target` records
/// as its rotation: for each axis, the angle between the next axis and the
/// direction to the target with its component along the axis removed.
pub open spec fn spec_lookat_rotation(position: Vec3, target: Vec3) -> Vec3 {
    let dir = target.minus(position);
    let z = Fixed { raw: 0 };
    let o = Fixed { raw: 65536 };
    Vec3 {
        x: spec_acos(
            Vec3 { x: z, y: o, z: z }.spec_dot(Vec3 { x: z, y: dir.y, z: dir.z }.spec_normalize()),
        ),
        y: spec_acos(
            Vec3 { x: z, y: z, z: o }.spec_dot(Vec3 { x: dir.x, y: z, z: dir.z }.spec_normalize()),
        ),
        z: spec_acos(
            Vec3 { x: o, y: z, z: z }.spec_dot(Vec3 { x: dir.x, y: dir.y, z: z }.spec_normalize()),
        ),
    }
}

/// A perspective camera.
#[derive(Clone, Copy, Debug)]
pub struct Camera {
    frustum: Frustum,
    position: Vec3,
    rotation: Vec3,
    view_mat: Mat4,
    view_dir: Vec3,
}

impl Camera {
    pub closed spec fn spec_frustum(&self) -> Frustum {
        self.frustum
    }

    pub closed spec fn spec_position(&self) -> Vec3 {
        self.position
    }

    pub closed spec fn spec_rotation(&self) -> Vec3 {
        self.rotation
    }

    pub closed spec fn spec_view_mat(&self) -> Mat4 {
        self.view_mat
    }

    pub closed spec fn spec_view_dir(&self) -> Vec3 {
        self.view_dir
    }

    /// A camera at the origin that looks down the negative `z` axis, for the
    /// scanline rasterizer.
    pub fn new(near: Fixed, far: Fixed, aspect: Fixed, fovy: Fixed) -> (r: Camera)
        ensures
            r.spec_frustum().spec_near() == near,
            r.spec_frustum().spec_far() == far,
            r.spec_frustum().spec_aspect() == aspect,
            r.spec_frustum().spec_fovy() == fovy,
            r.spec_frustum().spec_backend() == Backend::Scanline,
            r.spec_position() == Vec3::spec_zero(),
            r.spec_rotation() == Vec3::spec_zero(),
            r.spec_view_mat() == Mat4::spec_identity(),
            r.spec_view_dir() == (Vec3 {
                x: Fixed { raw: 0 },
                y: Fixed { raw: 0 },
                z: Fixed { raw: (-65536i32) },
            }),
    {
        Camera::with_backend(near, far, aspect, fovy, Backend::Scanline)
    }

    /// A camera at the origin that looks down the negative `z` axis.
    pub fn with_backend(near: Fixed, far: Fixed, aspect: Fixed, fovy: Fixed, backend: Backend) -> (r:
        Camera)
        ensures
            r.spec_frustum().spec_near() == near,
            r.spec_frustum().spec_far() == far,
            r.spec_frustum().spec_aspect() == aspect,
            r.spec_frustum().spec_fovy() == fovy,
            r.spec_frustum().spec_backend() == backend,
            r.spec_position() == Vec3::spec_zero(),
            r.spec_rotation() == Vec3::spec_zero(),
            r.spec_view_mat() == Mat4::spec_identity(),
            r.spec_view_dir() == (Vec3 {
                x: Fixed { raw: 0 },
                y: Fixed { raw: 0 },
                z: Fixed { raw: (-65536i32) },
            }),
    {
        Camera {
            frustum: Frustum::with_backend(near, far, aspect, fovy, backend),
            position: Vec3::zero(),
            view_mat: Mat4::identity(),
            rotation: Vec3::zero(),
            view_dir: Vec3::z_axis().neg(),
        }
    }

    pub fn get_frustum(&self) -> (r: &Frustum)
        ensures
            *r == self.spec_frustum(),
    {
        &self.frustum
    }

    /// Puts the camera at `position`; the view matrix and the viewing
    /// direction follow.
    pub fn move_to(&mut self, position: Vec3)
        ensures
            final(self).spec_position() == position,
            final(self).spec_rotation() == old(self).spec_rotation(),
            final(self).spec_frustum() == old(self).spec_frustum(),
            final(self).spec_view_mat() == spec_view_mat(position, old(self).spec_rotation()),
            final(self).spec_view_dir() == spec_view_dir(old(self).spec_rotation()),
    {
        self.position = position;
        self.recalc_view_mat();
    }

    /// Moves the camera by `offset`; the view matrix and the viewing
    /// direction follow.
    pub fn move_offset(&mut self, offset: Vec3)
        ensures
            final(self).spec_position() == old(self).spec_position().plus(offset),
            final(self).spec_rotation() == old(self).spec_rotation(),
            final(self).spec_frustum() == old(self).spec_frustum(),
            final(self).spec_view_mat() == spec_view_mat(
                old(self).spec_position().plus(offset),
                old(self).spec_rotation(),
            ),
            final(self).spec_view_dir() == spec_view_dir(old(self).spec_rotation()),
    {
        self.position = self.position + offset;
        self.recalc_view_mat();
    }

    pub fn position(&self) -> (r: &Vec3)
        ensures
            *r == self.spec_position(),
    {
        &self.position
    }

    /// Turns the camera, where it stands, toward `target`.
    pub fn lookat(&mut self, target: Vec3)
        ensures
            final(self).spec_position() == old(self).spec_position(),
            final(self).spec_frustum() == old(self).spec_frustum(),
            final(self).spec_view_mat() == spec_lookat_mat(old(self).spec_position(), target),
            final(self).spec_view_dir() == spec_back(old(self).spec_position(), target).negated(),
            final(self).spec_rotation() == spec_lookat_rotation(old(self).spec_position(), target),
    {
        let back = (self.position - target).normalize();
        let up = Vec3::y_axis();
        let right = up.cross(&back).normalize();
        let up = back.cross(&right).normalize();
        let z = Fixed::zero();
        let view_mat = Mat4 {
            data: [
                right.x,
                right.y,
                right.z,
                right.dot(&self.position).neg(),
                up.x,
                up.y,
                up.z,
                up.dot(&self.position).neg(),
                back.x,
                back.y,
                back.z,
                back.dot(&self.position).neg(),
                z,
                z,
                z,
                Fixed::one(),
            ],
        };
        assert(view_mat.data =~= spec_lookat_mat(self.position, target).data);
        self.view_mat = view_mat;
        let dir = target - self.position;
        let x = Vec3::y_axis().dot(&Vec3::new(z, dir.y, dir.z).normalize()).acos();
        let y = Vec3::z_axis().dot(&Vec3::new(dir.x, z, dir.z).normalize()).acos();
        let z = Vec3::x_axis().dot(&Vec3::new(dir.x, dir.y, z).normalize()).acos();
        self.view_dir = back.neg();
        self.rotation = Vec3::new(x, y, z);
    }

    /// Turns the camera by the Euler angles `rotation`, in radians; the view
    /// matrix and the viewing direction follow.
    pub fn set_rotation(&mut self, rotation: Vec3)
        ensures
            final(self).spec_position() == old(self).spec_position(),
            final(self).spec_rotation() == rotation,
            final(self).spec_frustum() == old(self).spec_frustum(),
            final(self).spec_view_mat() == spec_view_mat(old(self).spec_position(), rotation),
            final(self).spec_view_dir() == spec_view_dir(rotation),
    {
        self.rotation = rotation;
        self.recalc_view_mat();
    }

    fn recalc_view_mat(&mut self)
        ensures
            final(self).position == old(self).position,
            final(self).rotation == old(self).rotation,
            final(self).frustum == old(self).frustum,
            final(self).view_mat == spec_view_mat(old(self).position, old(self).rotation),
            final(self).view_dir == spec_view_dir(old(self).rotation),
    {
        let rotation = create_eular_rotate_xyz(&self.rotation.neg());
        self.view_mat = rotation * create_translate(&self.position.neg());
        self.view_dir = (rotation * Vec4::new(
            Fixed::zero(),
            Fixed::zero(),
            Fixed::from_raw(-65536),
            Fixed::one(),
        )).truncated_to_vec3();
    }

    pub fn get_rotation(&self) -> (r: &Vec3)
        ensures
            *r == self.spec_rotation(),
    {
        &self.rotation
    }

    pub fn view_mat(&self) -> (r: &Mat4)
        ensures
            *r == self.spec_view_mat(),
    {
        &self.view_mat
    }

    pub fn view_dir(&self) -> (r: &Vec3)
        ensures
            *r == self.spec_view_dir(),
    {
        &self.view_dir
    }
}

} // verus!
