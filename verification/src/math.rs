//! Small geometric types used by the render passes: integer rectangles
//! for viewports and scissor boxes, fixed-point vectors and matrices, and
//! the view-frustum extracted from a projection matrix.

use vstd::prelude::*;
use crate::fixed::{Fx, fx_sat, fx_mul_raw};

verus! {

/// An integer rectangle, used for viewports and scissor boxes.
#[derive(Clone, Copy, Debug, PartialEq, Eq, Structural)]
pub struct Rect {
    pub x: i32,
    pub y: i32,
    pub w: i32,
    pub h: i32,
}

impl Rect {
    pub fn new(x: i32, y: i32, w: i32, h: i32) -> (r: Rect)
        ensures
            r == (Rect { x, y, w, h }),
    {
        Rect { x, y, w, h }
    }
}

/// An 8-bit RGBA colour. Conversion to linear or normalised floating
/// point form happens in the unverified device backend.
#[derive(Clone, Copy, Debug, PartialEq, Eq, Structural)]
pub struct Color {
    pub r: u8,
    pub g: u8,
    pub b: u8,
    pub a: u8,
}

impl Color {
    pub fn white() -> (c: Color)
        ensures
            c == (Color { r: 255, g: 255, b: 255, a: 255 }),
    {
        Color { r: 255, g: 255, b: 255, a: 255 }
    }

    pub fn black() -> (c: Color)
        ensures
            c == (Color { r: 0, g: 0, b: 0, a: 255 }),
    {
        Color { r: 0, g: 0, b: 0, a: 255 }
    }
}

/// A two-component fixed-point vector.
#[derive(Clone, Copy, Debug, PartialEq, Eq, Structural)]
pub struct FxVec2 {
    pub x: Fx,
    pub y: Fx,
}

impl FxVec2 {
    pub fn new(x: Fx, y: Fx) -> (v: FxVec2)
        ensures
            v == (FxVec2 { x, y }),
    {
        FxVec2 { x, y }
    }

    pub fn zero() -> (v: FxVec2)
        ensures
            v.x.raw == 0 && v.y.raw == 0,
    {
        FxVec2 { x: Fx::zero(), y: Fx::zero() }
    }
}

/// A three-component fixed-point vector.
#[derive(Clone, Copy, Debug, PartialEq, Eq, Structural)]
pub struct FxVec3 {
    pub x: Fx,
    pub y: Fx,
    pub z: Fx,
}

/// Raw value of the dot product of two fixed-point 3-vectors, with the
/// same truncation and saturation the executable code performs.
pub open spec fn dot3_raw(a: FxVec3, b: FxVec3) -> int {
    fx_sat(
        fx_sat(
            fx_mul_raw(a.x.raw as int, b.x.raw as int) + fx_mul_raw(a.y.raw as int, b.y.raw as int),
        ) + fx_mul_raw(a.z.raw as int, b.z.raw as int),
    )
}

impl FxVec3 {
    pub fn new(x: Fx, y: Fx, z: Fx) -> (v: FxVec3)
        ensures
            v == (FxVec3 { x, y, z }),
    {
        FxVec3 { x, y, z }
    }

    pub fn zero() -> (v: FxVec3)
        ensures
            v.x.raw == 0 && v.y.raw == 0 && v.z.raw == 0,
    {
        FxVec3 { x: Fx::zero(), y: Fx::zero(), z: Fx::zero() }
    }

    /// Componentwise sum.
    pub fn add(self, o: FxVec3) -> (v: FxVec3)
        ensures
            v.x.raw == fx_sat(self.x.raw + o.x.raw),
            v.y.raw == fx_sat(self.y.raw + o.y.raw),
            v.z.raw == fx_sat(self.z.raw + o.z.raw),
    {
        FxVec3 { x: self.x.add(o.x), y: self.y.add(o.y), z: self.z.add(o.z) }
    }

    /// Componentwise difference.
    pub fn sub(self, o: FxVec3) -> (v: FxVec3)
        ensures
            v.x.raw == fx_sat(self.x.raw - o.x.raw),
            v.y.raw == fx_sat(self.y.raw - o.y.raw),
            v.z.raw == fx_sat(self.z.raw - o.z.raw),
    {
        FxVec3 { x: self.x.sub(o.x), y: self.y.sub(o.y), z: self.z.sub(o.z) }
    }

    /// Dot product.
    pub fn dot(self, o: FxVec3) -> (r: Fx)
        ensures
            r.raw == dot3_raw(self, o),
    {
        self.x.mul(o.x).add(self.y.mul(o.y)).add(self.z.mul(o.z))
    }

    /// Cross product.
    pub fn cross(self, o: FxVec3) -> (v: FxVec3)
        ensures
            v.x.raw == fx_sat(
                fx_mul_raw(self.y.raw as int, o.z.raw as int) - fx_mul_raw(
                    self.z.raw as int,
                    o.y.raw as int,
                ),
            ),
            v.y.raw == fx_sat(
                fx_mul_raw(self.z.raw as int, o.x.raw as int) - fx_mul_raw(
                    self.x.raw as int,
                    o.z.raw as int,
                ),
            ),
            v.z.raw == fx_sat(
                fx_mul_raw(self.x.raw as int, o.y.raw as int) - fx_mul_raw(
                    self.y.raw as int,
                    o.x.raw as int,
                ),
            ),
    {
        FxVec3 {
            x: self.y.mul(o.z).sub(self.z.mul(o.y)),
            y: self.z.mul(o.x).sub(self.x.mul(o.z)),
            z: self.x.mul(o.y).sub(self.y.mul(o.x)),
        }
    }
}

/// A four-component fixed-point vector (gradient colours, plane rows).
#[derive(Clone, Copy, Debug, PartialEq, Eq, Structural)]
pub struct FxVec4 {
    pub x: Fx,
    pub y: Fx,
    pub z: Fx,
    pub w: Fx,
}

/// A fixed-point rectangle with position and size, as UI bounds are given.
#[derive(Clone, Copy, Debug, PartialEq, Eq, Structural)]
pub struct FxRect {
    pub position: FxVec2,
    pub size: FxVec2,
}

impl FxRect {
    pub fn new(x: Fx, y: Fx, w: Fx, h: Fx) -> (r: FxRect)
        ensures
            r == (FxRect { position: FxVec2 { x, y }, size: FxVec2 { x: w, y: h } }),
    {
        FxRect { position: FxVec2 { x, y }, size: FxVec2 { x: w, y: h } }
    }

    /// The corner opposite the position: `position + size`, componentwise.
    pub fn right_bottom_corner(self) -> (c: FxVec2)
        ensures
            c.x.raw == fx_sat(self.position.x.raw + self.size.x.raw),
            c.y.raw == fx_sat(self.position.y.raw + self.size.y.raw),
    {
        FxVec2 { x: self.position.x.add(self.size.x), y: self.position.y.add(self.size.y) }
    }
}

/// A 4x4 fixed-point matrix in column-major order: entry `(row r, col c)`
/// is `m[c * 4 + r]`.
#[derive(Clone, Copy, Debug, PartialEq, Eq)]
pub struct Mat4 {
    pub m: [Fx; 16],
}

/// Raw value of one entry of a matrix product, with the executable
/// truncation and saturation: entry `(i, j)` of `a * b`.
pub open spec fn mat_mul_entry_raw(a: Mat4, b: Mat4, i: int, j: int) -> int {
    fx_sat(
        fx_sat(
            fx_sat(
                fx_mul_raw(a.m[0 * 4 + i].raw as int, b.m[j * 4 + 0].raw as int) + fx_mul_raw(
                    a.m[1 * 4 + i].raw as int,
                    b.m[j * 4 + 1].raw as int,
                ),
            ) + fx_mul_raw(a.m[2 * 4 + i].raw as int, b.m[j * 4 + 2].raw as int),
        ) + fx_mul_raw(a.m[3 * 4 + i].raw as int, b.m[j * 4 + 3].raw as int),
    )
}

/// One term chain of a matrix product: four multiplies folded by
/// saturating addition, exactly as [`mat_mul_entry_raw`] states.
fn dot4(a0: Fx, a1: Fx, a2: Fx, a3: Fx, b0: Fx, b1: Fx, b2: Fx, b3: Fx) -> (r: Fx)
    ensures
        r.raw == fx_sat(
            fx_sat(
                fx_sat(
                    fx_mul_raw(a0.raw as int, b0.raw as int) + fx_mul_raw(
                        a1.raw as int,
                        b1.raw as int,
                    ),
                ) + fx_mul_raw(a2.raw as int, b2.raw as int),
            ) + fx_mul_raw(a3.raw as int, b3.raw as int),
        ),
{
    a0.mul(b0).add(a1.mul(b1)).add(a2.mul(b2)).add(a3.mul(b3))
}

impl Mat4 {
    /// The identity matrix.
    pub fn identity() -> (r: Mat4)
        ensures
            forall|k: int|
                0 <= k < 16 ==> r.m[k].raw == if k == 0 || k == 5 || k == 10 || k == 15 {
                    crate::fixed::FX_ONE as int
                } else {
                    0
                },
    {
        let o = Fx::one();
        let z = Fx::zero();
        Mat4 { m: [o, z, z, z, z, o, z, z, z, z, o, z, z, z, z, o] }
    }

    /// Matrix product `self * other`, every entry pinned by
    /// [`mat_mul_entry_raw`].
    pub fn mul(self, other: Mat4) -> (r: Mat4)
        ensures
            forall|i: int, j: int|
                0 <= i < 4 && 0 <= j < 4 ==> r.m[j * 4 + i].raw == mat_mul_entry_raw(
                    self,
                    other,
                    i,
                    j,
                ),
    {
        let a = &self.m;
        let b = &other.m;
        Mat4 {
            m: [
                dot4(a[0], a[4], a[8], a[12], b[0], b[1], b[2], b[3]),
                dot4(a[1], a[5], a[9], a[13], b[0], b[1], b[2], b[3]),
                dot4(a[2], a[6], a[10], a[14], b[0], b[1], b[2], b[3]),
                dot4(a[3], a[7], a[11], a[15], b[0], b[1], b[2], b[3]),
                dot4(a[0], a[4], a[8], a[12], b[4], b[5], b[6], b[7]),
                dot4(a[1], a[5], a[9], a[13], b[4], b[5], b[6], b[7]),
                dot4(a[2], a[6], a[10], a[14], b[4], b[5], b[6], b[7]),
                dot4(a[3], a[7], a[11], a[15], b[4], b[5], b[6], b[7]),
                dot4(a[0], a[4], a[8], a[12], b[8], b[9], b[10], b[11]),
                dot4(a[1], a[5], a[9], a[13], b[8], b[9], b[10], b[11]),
                dot4(a[2], a[6], a[10], a[14], b[8], b[9], b[10], b[11]),
                dot4(a[3], a[7], a[11], a[15], b[8], b[9], b[10], b[11]),
                dot4(a[0], a[4], a[8], a[12], b[12], b[13], b[14], b[15]),
                dot4(a[1], a[5], a[9], a[13], b[12], b[13], b[14], b[15]),
                dot4(a[2], a[6], a[10], a[14], b[12], b[13], b[14], b[15]),
                dot4(a[3], a[7], a[11], a[15], b[12], b[13], b[14], b[15]),
            ],
        }
    }
}

/// One frustum plane `a*x + b*y + c*z + d >= 0` (inside on the
/// non-negative side).
#[derive(Clone, Copy, Debug, PartialEq, Eq, Structural)]
pub struct Plane {
    pub a: Fx,
    pub b: Fx,
    pub c: Fx,
    pub d: Fx,
}

/// Whether a point lies on the inner side of a plane, under the
/// executable fixed-point evaluation.
pub open spec fn plane_holds(p: Plane, v: FxVec3) -> bool {
    fx_sat(dot3_raw(FxVec3 { x: p.a, y: p.b, z: p.c }, v) + p.d.raw) >= 0
}

impl Plane {
    /// Evaluates the plane at a point.
    pub fn contains(&self, v: FxVec3) -> (r: bool)
        ensures
            r == plane_holds(*self, v),
    {
        let n = FxVec3 { x: self.a, y: self.b, z: self.c };
        n.dot(v).add(self.d).raw >= 0
    }
}

/// A view frustum as six planes extracted from a view-projection matrix
/// (row combinations of the matrix, inside on the non-negative side).
#[derive(Clone, Copy, Debug, PartialEq, Eq)]
pub struct Frustum {
    pub planes: [Plane; 6],
}

/// Whether a point is inside the frustum: on the inner side of all six
/// planes.
pub open spec fn frustum_holds(f: Frustum, v: FxVec3) -> bool {
    forall|k: int| 0 <= k < 6 ==> plane_holds(f.planes[k], v)
}

/// The plane made of row `i` of `m` added to (`sign == true`) or
/// subtracted from row 3.
fn row_plane(m: &Mat4, i: usize, sign: bool) -> (p: Plane)
    requires
        i < 3,
    ensures
        sign ==> p == (Plane {
            a: Fx { raw: fx_sat(m.m[3].raw + m.m[0 * 4 + i as int].raw) as i64 },
            b: Fx { raw: fx_sat(m.m[7].raw + m.m[1 * 4 + i as int].raw) as i64 },
            c: Fx { raw: fx_sat(m.m[11].raw + m.m[2 * 4 + i as int].raw) as i64 },
            d: Fx { raw: fx_sat(m.m[15].raw + m.m[3 * 4 + i as int].raw) as i64 },
        }),
        !sign ==> p == (Plane {
            a: Fx { raw: fx_sat(m.m[3].raw - m.m[0 * 4 + i as int].raw) as i64 },
            b: Fx { raw: fx_sat(m.m[7].raw - m.m[1 * 4 + i as int].raw) as i64 },
            c: Fx { raw: fx_sat(m.m[11].raw - m.m[2 * 4 + i as int].raw) as i64 },
            d: Fx { raw: fx_sat(m.m[15].raw - m.m[3 * 4 + i as int].raw) as i64 },
        }),
{
    if sign {
        Plane {
            a: m.m[3].add(m.m[i]),
            b: m.m[7].add(m.m[4 + i]),
            c: m.m[11].add(m.m[8 + i]),
            d: m.m[15].add(m.m[12 + i]),
        }
    } else {
        Plane {
            a: m.m[3].sub(m.m[i]),
            b: m.m[7].sub(m.m[4 + i]),
            c: m.m[11].sub(m.m[8 + i]),
            d: m.m[15].sub(m.m[12 + i]),
        }
    }
}

impl Frustum {
    /// Extracts the six clip planes (left, right, bottom, top, near, far)
    /// from a view-projection matrix.
    pub fn from_view_projection_matrix(m: &Mat4) -> (f: Frustum)
        ensures
            f.planes[0] == plane_from_rows(*m, 0, true),
            f.planes[1] == plane_from_rows(*m, 0, false),
            f.planes[2] == plane_from_rows(*m, 1, true),
            f.planes[3] == plane_from_rows(*m, 1, false),
            f.planes[4] == plane_from_rows(*m, 2, true),
            f.planes[5] == plane_from_rows(*m, 2, false),
    {
        Frustum {
            planes: [
                row_plane(m, 0, true),
                row_plane(m, 0, false),
                row_plane(m, 1, true),
                row_plane(m, 1, false),
                row_plane(m, 2, true),
                row_plane(m, 2, false),
            ],
        }
    }

    /// Whether a point is inside the frustum.
    pub fn is_contains_point(&self, v: FxVec3) -> (r: bool)
        ensures
            r == frustum_holds(*self, v),
    {
        let r0 = self.planes[0].contains(v);
        let r1 = self.planes[1].contains(v);
        let r2 = self.planes[2].contains(v);
        let r3 = self.planes[3].contains(v);
        let r4 = self.planes[4].contains(v);
        let r5 = self.planes[5].contains(v);
        let all = r0 && r1 && r2 && r3 && r4 && r5;
        proof {
            if all {
                assert forall|k: int| 0 <= k < 6 implies plane_holds(self.planes[k], v) by {
                    if k == 0 {
                    } else if k == 1 {
                    } else if k == 2 {
                    } else if k == 3 {
                    } else if k == 4 {
                    } else {
                        assert(k == 5);
                    }
                };
            }
        }
        all
    }
}

/// Spec-level form of [`row_plane`].
pub open spec fn plane_from_rows(m: Mat4, i: int, sign: bool) -> Plane {
    if sign {
        Plane {
            a: Fx { raw: fx_sat(m.m[3].raw + m.m[0 * 4 + i].raw) as i64 },
            b: Fx { raw: fx_sat(m.m[7].raw + m.m[1 * 4 + i].raw) as i64 },
            c: Fx { raw: fx_sat(m.m[11].raw + m.m[2 * 4 + i].raw) as i64 },
            d: Fx { raw: fx_sat(m.m[15].raw + m.m[3 * 4 + i].raw) as i64 },
        }
    } else {
        Plane {
            a: Fx { raw: fx_sat(m.m[3].raw - m.m[0 * 4 + i].raw) as i64 },
            b: Fx { raw: fx_sat(m.m[7].raw - m.m[1 * 4 + i].raw) as i64 },
            c: Fx { raw: fx_sat(m.m[11].raw - m.m[2 * 4 + i].raw) as i64 },
            d: Fx { raw: fx_sat(m.m[15].raw - m.m[3 * 4 + i].raw) as i64 },
        }
    }
}

} // verus!
