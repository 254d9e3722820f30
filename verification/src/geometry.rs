//! Fixed-point vectors and matrices: the linear algebra of the vertex
//! transform stage, over the saturating arithmetic of `fx`.
use vstd::prelude::*;
use crate::fx::{
    absi, fx_add, fx_clamp, fx_mul, isqrt, lemma_i64_prod_fits, lemma_isqrt_props, mdiv,
    mdiv_i128, sat64, spec_clamp, spec_fx_add, spec_fx_mul, spec_isqrt, SCALE,
};

verus! {

/// Coordinates whose squares (and 3x3 cofactor sums) stay inside the
/// double-width intermediates used below.
pub const COORD_LIMIT: i64 = 0x10000000000;

#[derive(Clone, Copy, Debug, PartialEq, Eq, Structural)]
pub struct Vec2 {
    pub x: i64,
    pub y: i64,
}

#[derive(Clone, Copy, Debug, PartialEq, Eq, Structural)]
pub struct Vec3 {
    pub x: i64,
    pub y: i64,
    pub z: i64,
}

#[derive(Clone, Copy, Debug, PartialEq, Eq, Structural)]
pub struct Vec4 {
    pub x: i64,
    pub y: i64,
    pub z: i64,
    pub w: i64,
}

/// A row-major 4x4 matrix of fixed-point entries.
#[derive(Clone, Copy, Debug, PartialEq, Eq, Structural)]
pub struct Mat4 {
    pub r0: Vec4,
    pub r1: Vec4,
    pub r2: Vec4,
    pub r3: Vec4,
}

/// A row-major 3x3 matrix of fixed-point entries.
#[derive(Clone, Copy, Debug, PartialEq, Eq, Structural)]
pub struct Mat3 {
    pub r0: Vec3,
    pub r1: Vec3,
    pub r2: Vec3,
}

/// The fixed-point dot product of a matrix row with a vector.
pub open spec fn spec_dot4(r: Vec4, v: Vec4) -> int {
    spec_fx_add(
        spec_fx_add(spec_fx_mul(r.x as int, v.x as int), spec_fx_mul(r.y as int, v.y as int)),
        spec_fx_add(spec_fx_mul(r.z as int, v.z as int), spec_fx_mul(r.w as int, v.w as int)),
    )
}

pub open spec fn spec_dot3(r: Vec3, v: Vec3) -> int {
    spec_fx_add(
        spec_fx_add(spec_fx_mul(r.x as int, v.x as int), spec_fx_mul(r.y as int, v.y as int)),
        spec_fx_mul(r.z as int, v.z as int),
    )
}

/// A 4x4 matrix applied to a vector.
pub open spec fn spec_mat4_mul_vec4(m: Mat4, v: Vec4) -> Vec4 {
    Vec4 {
        x: spec_dot4(m.r0, v) as i64,
        y: spec_dot4(m.r1, v) as i64,
        z: spec_dot4(m.r2, v) as i64,
        w: spec_dot4(m.r3, v) as i64,
    }
}

/// A 3x3 matrix applied to a vector.
pub open spec fn spec_mat3_mul_vec3(m: Mat3, v: Vec3) -> Vec3 {
    Vec3 {
        x: spec_dot3(m.r0, v) as i64,
        y: spec_dot3(m.r1, v) as i64,
        z: spec_dot3(m.r2, v) as i64,
    }
}

/// The column of a 4x4 matrix, as a vector.
pub open spec fn spec_col4(m: Mat4, j: int) -> Vec4 {
    if j == 0 {
        Vec4 { x: m.r0.x, y: m.r1.x, z: m.r2.x, w: m.r3.x }
    } else if j == 1 {
        Vec4 { x: m.r0.y, y: m.r1.y, z: m.r2.y, w: m.r3.y }
    } else if j == 2 {
        Vec4 { x: m.r0.z, y: m.r1.z, z: m.r2.z, w: m.r3.z }
    } else {
        Vec4 { x: m.r0.w, y: m.r1.w, z: m.r2.w, w: m.r3.w }
    }
}

/// The product of two 4x4 matrices.
pub open spec fn spec_mat4_mul_mat4(a: Mat4, b: Mat4) -> Mat4 {
    Mat4 {
        r0: Vec4 {
            x: spec_dot4(a.r0, spec_col4(b, 0)) as i64,
            y: spec_dot4(a.r0, spec_col4(b, 1)) as i64,
            z: spec_dot4(a.r0, spec_col4(b, 2)) as i64,
            w: spec_dot4(a.r0, spec_col4(b, 3)) as i64,
        },
        r1: Vec4 {
            x: spec_dot4(a.r1, spec_col4(b, 0)) as i64,
            y: spec_dot4(a.r1, spec_col4(b, 1)) as i64,
            z: spec_dot4(a.r1, spec_col4(b, 2)) as i64,
            w: spec_dot4(a.r1, spec_col4(b, 3)) as i64,
        },
        r2: Vec4 {
            x: spec_dot4(a.r2, spec_col4(b, 0)) as i64,
            y: spec_dot4(a.r2, spec_col4(b, 1)) as i64,
            z: spec_dot4(a.r2, spec_col4(b, 2)) as i64,
            w: spec_dot4(a.r2, spec_col4(b, 3)) as i64,
        },
        r3: Vec4 {
            x: spec_dot4(a.r3, spec_col4(b, 0)) as i64,
            y: spec_dot4(a.r3, spec_col4(b, 1)) as i64,
            z: spec_dot4(a.r3, spec_col4(b, 2)) as i64,
            w: spec_dot4(a.r3, spec_col4(b, 3)) as i64,
        },
    }
}

/// The identity matrix (diagonal of whole units).
pub open spec fn spec_mat4_identity() -> Mat4 {
    Mat4 {
        r0: Vec4 { x: SCALE, y: 0, z: 0, w: 0 },
        r1: Vec4 { x: 0, y: SCALE, z: 0, w: 0 },
        r2: Vec4 { x: 0, y: 0, z: SCALE, w: 0 },
        r3: Vec4 { x: 0, y: 0, z: 0, w: SCALE },
    }
}

pub open spec fn spec_mat3_identity() -> Mat3 {
    Mat3 {
        r0: Vec3 { x: SCALE, y: 0, z: 0 },
        r1: Vec3 { x: 0, y: SCALE, z: 0 },
        r2: Vec3 { x: 0, y: 0, z: SCALE },
    }
}

/// The transpose of the upper-left 3x3 block of a 4x4 matrix.
pub open spec fn spec_upper3_transpose(m: Mat4) -> Mat3 {
    Mat3 {
        r0: Vec3 { x: m.r0.x, y: m.r1.x, z: m.r2.x },
        r1: Vec3 { x: m.r0.y, y: m.r1.y, z: m.r2.y },
        r2: Vec3 { x: m.r0.z, y: m.r1.z, z: m.r2.z },
    }
}

/// The raw 3x3 determinant over plain integers (carries three factors of
/// `SCALE`; it is zero exactly when the fixed-point matrix is singular).
pub open spec fn spec_det3_raw(m: Mat3) -> int {
    (m.r0.x as int) * ((m.r1.y as int) * (m.r2.z as int) - (m.r1.z as int) * (m.r2.y as int))
        - (m.r0.y as int) * ((m.r1.x as int) * (m.r2.z as int) - (m.r1.z as int) * (m.r2.x as int))
        + (m.r0.z as int) * ((m.r1.x as int) * (m.r2.y as int) - (m.r1.y as int) * (m.r2.x as int))
}

/// One entry of the fixed-point inverse: the cofactor (a raw 2x2 minor)
/// scaled by `SCALE^2` and divided by the raw determinant.
pub open spec fn spec_inv_entry(c00: int, c01: int, c10: int, c11: int, det: int) -> int {
    sat64(mdiv((c00 * c11 - c01 * c10) * (SCALE as int) * (SCALE as int), det))
}

/// The fixed-point inverse of a 3x3 matrix with nonzero raw determinant,
/// by the adjugate; rows of the adjugate are spelled out entrywise.
pub open spec fn spec_mat3_inverse(m: Mat3) -> Mat3 {
    let det = spec_det3_raw(m);
    Mat3 {
        r0: Vec3 {
            x: spec_inv_entry(m.r1.y as int, m.r1.z as int, m.r2.y as int, m.r2.z as int, det)
                as i64,
            y: spec_inv_entry(m.r0.z as int, m.r0.y as int, m.r2.z as int, m.r2.y as int, det)
                as i64,
            z: spec_inv_entry(m.r0.y as int, m.r0.z as int, m.r1.y as int, m.r1.z as int, det)
                as i64,
        },
        r1: Vec3 {
            x: spec_inv_entry(m.r1.z as int, m.r1.x as int, m.r2.z as int, m.r2.x as int, det)
                as i64,
            y: spec_inv_entry(m.r0.x as int, m.r0.z as int, m.r2.x as int, m.r2.z as int, det)
                as i64,
            z: spec_inv_entry(m.r0.z as int, m.r0.x as int, m.r1.z as int, m.r1.x as int, det)
                as i64,
        },
        r2: Vec3 {
            x: spec_inv_entry(m.r1.x as int, m.r1.y as int, m.r2.x as int, m.r2.y as int, det)
                as i64,
            y: spec_inv_entry(m.r0.y as int, m.r0.x as int, m.r2.y as int, m.r2.x as int, det)
                as i64,
            z: spec_inv_entry(m.r0.x as int, m.r0.y as int, m.r1.x as int, m.r1.y as int, det)
                as i64,
        },
    }
}

/// The normal matrix of a model matrix: the inverse of the transposed
/// upper-left 3x3 block, or the identity when that block is singular.
pub open spec fn spec_normal_matrix(model: Mat4) -> Mat3 {
    let t = spec_upper3_transpose(model);
    if spec_det3_raw(t) == 0 {
        spec_mat3_identity()
    } else {
        spec_mat3_inverse(t)
    }
}

/// Every entry of a 3x3 matrix within `COORD_LIMIT` in magnitude.
pub open spec fn spec_mat3_bounded(m: Mat3) -> bool {
    &&& absi(m.r0.x as int) <= COORD_LIMIT && absi(m.r0.y as int) <= COORD_LIMIT && absi(
        m.r0.z as int,
    ) <= COORD_LIMIT
    &&& absi(m.r1.x as int) <= COORD_LIMIT && absi(m.r1.y as int) <= COORD_LIMIT && absi(
        m.r1.z as int,
    ) <= COORD_LIMIT
    &&& absi(m.r2.x as int) <= COORD_LIMIT && absi(m.r2.y as int) <= COORD_LIMIT && absi(
        m.r2.z as int,
    ) <= COORD_LIMIT
}

/// Every entry of the upper-left 3x3 block within `COORD_LIMIT`.
pub open spec fn spec_mat4_upper3_bounded(m: Mat4) -> bool {
    spec_mat3_bounded(spec_upper3_transpose(m))
}

/// The squared length of a vector with each coordinate clamped into the
/// range whose square fits the double-width intermediates.
pub open spec fn spec_sq_sum(v: Vec3) -> int {
    let cx = spec_clamp(v.x as int, -0x4000000000000000, 0x4000000000000000);
    let cy = spec_clamp(v.y as int, -0x4000000000000000, 0x4000000000000000);
    let cz = spec_clamp(v.z as int, -0x4000000000000000, 0x4000000000000000);
    cx * cx + cy * cy + cz * cz
}

/// The length of a vector in fixed-point units: the integer square root of
/// the squared length.
pub open spec fn spec_magnitude(v: Vec3) -> int {
    spec_isqrt(spec_sq_sum(v) as nat) as int
}

pub fn dot4(r: Vec4, v: Vec4) -> (d: i64)
    ensures
        d == spec_dot4(r, v),
{
    fx_add(
        fx_add(fx_mul(r.x, v.x), fx_mul(r.y, v.y)),
        fx_add(fx_mul(r.z, v.z), fx_mul(r.w, v.w)),
    )
}

pub fn dot3(r: Vec3, v: Vec3) -> (d: i64)
    ensures
        d == spec_dot3(r, v),
{
    fx_add(fx_add(fx_mul(r.x, v.x), fx_mul(r.y, v.y)), fx_mul(r.z, v.z))
}

pub fn mat4_mul_vec4(m: Mat4, v: Vec4) -> (r: Vec4)
    ensures
        r == spec_mat4_mul_vec4(m, v),
{
    Vec4 { x: dot4(m.r0, v), y: dot4(m.r1, v), z: dot4(m.r2, v), w: dot4(m.r3, v) }
}

pub fn mat3_mul_vec3(m: Mat3, v: Vec3) -> (r: Vec3)
    ensures
        r == spec_mat3_mul_vec3(m, v),
{
    Vec3 { x: dot3(m.r0, v), y: dot3(m.r1, v), z: dot3(m.r2, v) }
}

fn col4(m: Mat4, j: usize) -> (c: Vec4)
    requires
        j < 4,
    ensures
        c == spec_col4(m, j as int),
{
    if j == 0 {
        Vec4 { x: m.r0.x, y: m.r1.x, z: m.r2.x, w: m.r3.x }
    } else if j == 1 {
        Vec4 { x: m.r0.y, y: m.r1.y, z: m.r2.y, w: m.r3.y }
    } else if j == 2 {
        Vec4 { x: m.r0.z, y: m.r1.z, z: m.r2.z, w: m.r3.z }
    } else {
        Vec4 { x: m.r0.w, y: m.r1.w, z: m.r2.w, w: m.r3.w }
    }
}

pub fn mat4_mul_mat4(a: Mat4, b: Mat4) -> (r: Mat4)
    ensures
        r == spec_mat4_mul_mat4(a, b),
{
    let c0 = col4(b, 0);
    let c1 = col4(b, 1);
    let c2 = col4(b, 2);
    let c3 = col4(b, 3);
    Mat4 {
        r0: Vec4 { x: dot4(a.r0, c0), y: dot4(a.r0, c1), z: dot4(a.r0, c2), w: dot4(a.r0, c3) },
        r1: Vec4 { x: dot4(a.r1, c0), y: dot4(a.r1, c1), z: dot4(a.r1, c2), w: dot4(a.r1, c3) },
        r2: Vec4 { x: dot4(a.r2, c0), y: dot4(a.r2, c1), z: dot4(a.r2, c2), w: dot4(a.r2, c3) },
        r3: Vec4 { x: dot4(a.r3, c0), y: dot4(a.r3, c1), z: dot4(a.r3, c2), w: dot4(a.r3, c3) },
    }
}

impl Mat4 {
    pub fn identity() -> (m: Mat4)
        ensures
            m == spec_mat4_identity(),
    {
        Mat4 {
            r0: Vec4 { x: SCALE, y: 0, z: 0, w: 0 },
            r1: Vec4 { x: 0, y: SCALE, z: 0, w: 0 },
            r2: Vec4 { x: 0, y: 0, z: SCALE, w: 0 },
            r3: Vec4 { x: 0, y: 0, z: 0, w: SCALE },
        }
    }
}

impl Mat3 {
    pub fn identity() -> (m: Mat3)
        ensures
            m == spec_mat3_identity(),
    {
        Mat3 {
            r0: Vec3 { x: SCALE, y: 0, z: 0 },
            r1: Vec3 { x: 0, y: SCALE, z: 0 },
            r2: Vec3 { x: 0, y: 0, z: SCALE },
        }
    }
}

/// A raw 2x2 minor of bounded entries.
fn minor2(a: i64, b: i64, c: i64, d: i64) -> (m: i128)
    requires
        absi(a as int) <= COORD_LIMIT,
        absi(b as int) <= COORD_LIMIT,
        absi(c as int) <= COORD_LIMIT,
        absi(d as int) <= COORD_LIMIT,
    ensures
        m as int == (a as int) * (d as int) - (b as int) * (c as int),
        absi(m as int) <= 2 * COORD_LIMIT * COORD_LIMIT,
{
    proof {
        assert(absi((a as int) * (d as int)) <= (COORD_LIMIT as int) * (COORD_LIMIT as int)
            && absi((b as int) * (c as int)) <= (COORD_LIMIT as int) * (COORD_LIMIT as int))
            by (nonlinear_arith)
            requires
                absi(a as int) <= COORD_LIMIT,
                absi(b as int) <= COORD_LIMIT,
                absi(c as int) <= COORD_LIMIT,
                absi(d as int) <= COORD_LIMIT,
        ;
    }
    (a as i128) * (d as i128) - (b as i128) * (c as i128)
}

/// The raw determinant of a bounded 3x3 matrix.
fn det3_raw(m: Mat3) -> (d: i128)
    requires
        spec_mat3_bounded(m),
    ensures
        d as int == spec_det3_raw(m),
        absi(d as int) <= 6 * (COORD_LIMIT as int) * (COORD_LIMIT as int) * (COORD_LIMIT as int),
{
    let m0 = minor2(m.r1.y, m.r1.z, m.r2.y, m.r2.z);
    let m1 = minor2(m.r1.x, m.r1.z, m.r2.x, m.r2.z);
    let m2 = minor2(m.r1.x, m.r1.y, m.r2.x, m.r2.y);
    proof {
        assert((m.r0.x as int) * (m0 as int) == (m.r0.x as int) * ((m.r1.y as int) * (m.r2.z as int)
            - (m.r1.z as int) * (m.r2.y as int)) && absi((m.r0.x as int) * (m0 as int)) <= 2
            * (COORD_LIMIT as int) * (COORD_LIMIT as int) * (COORD_LIMIT as int))
            by (nonlinear_arith)
            requires
                absi(m.r0.x as int) <= COORD_LIMIT,
                absi(m0 as int) <= 2 * (COORD_LIMIT as int) * (COORD_LIMIT as int),
                m0 as int == (m.r1.y as int) * (m.r2.z as int) - (m.r1.z as int) * (m.r2.y as int),
        ;
        assert(absi((m.r0.y as int) * (m1 as int)) <= 2 * (COORD_LIMIT as int) * (
        COORD_LIMIT as int) * (COORD_LIMIT as int)) by (nonlinear_arith)
            requires
                absi(m.r0.y as int) <= COORD_LIMIT,
                absi(m1 as int) <= 2 * (COORD_LIMIT as int) * (COORD_LIMIT as int),
        ;
        assert(absi((m.r0.z as int) * (m2 as int)) <= 2 * (COORD_LIMIT as int) * (
        COORD_LIMIT as int) * (COORD_LIMIT as int)) by (nonlinear_arith)
            requires
                absi(m.r0.z as int) <= COORD_LIMIT,
                absi(m2 as int) <= 2 * (COORD_LIMIT as int) * (COORD_LIMIT as int),
        ;
    }
    (m.r0.x as i128) * m0 - (m.r0.y as i128) * m1 + (m.r0.z as i128) * m2
}

/// One entry of the fixed-point inverse.
fn inv_entry(c00: i64, c01: i64, c10: i64, c11: i64, det: i128) -> (e: i64)
    requires
        det != 0,
        absi(c00 as int) <= COORD_LIMIT,
        absi(c01 as int) <= COORD_LIMIT,
        absi(c10 as int) <= COORD_LIMIT,
        absi(c11 as int) <= COORD_LIMIT,
        det > i128::MIN,
    ensures
        e as int == spec_inv_entry(c00 as int, c01 as int, c10 as int, c11 as int, det as int),
{
    let m = minor2(c00, c01, c10, c11);
    proof {
        assert(absi((m as int) * (SCALE as int) * (SCALE as int)) <= 2 * (COORD_LIMIT as int) * (
        COORD_LIMIT as int) * (SCALE as int) * (SCALE as int)) by (nonlinear_arith)
            requires
                absi(m as int) <= 2 * (COORD_LIMIT as int) * (COORD_LIMIT as int),
        ;
    }
    let num: i128 = m * (SCALE as i128) * (SCALE as i128);
    mdiv_i128(num, det)
}

/// The normal matrix: the fixed-point inverse of the transposed upper-left
/// 3x3 block of the model matrix, or the identity when that block is
/// singular — the graceful-degrade policy of the transform stage.
pub fn normal_matrix(model: Mat4) -> (n: Mat3)
    requires
        spec_mat4_upper3_bounded(model),
    ensures
        n == spec_normal_matrix(model),
{
    let t = Mat3 {
        r0: Vec3 { x: model.r0.x, y: model.r1.x, z: model.r2.x },
        r1: Vec3 { x: model.r0.y, y: model.r1.y, z: model.r2.y },
        r2: Vec3 { x: model.r0.z, y: model.r1.z, z: model.r2.z },
    };
    let det = det3_raw(t);
    proof {
        assert(6 * (COORD_LIMIT as int) * (COORD_LIMIT as int) * (COORD_LIMIT as int)
            < 0x80000000000000000000000000000000) by (nonlinear_arith);
    }
    if det == 0 {
        Mat3::identity()
    } else {
        Mat3 {
            r0: Vec3 {
                x: inv_entry(t.r1.y, t.r1.z, t.r2.y, t.r2.z, det),
                y: inv_entry(t.r0.z, t.r0.y, t.r2.z, t.r2.y, det),
                z: inv_entry(t.r0.y, t.r0.z, t.r1.y, t.r1.z, det),
            },
            r1: Vec3 {
                x: inv_entry(t.r1.z, t.r1.x, t.r2.z, t.r2.x, det),
                y: inv_entry(t.r0.x, t.r0.z, t.r2.x, t.r2.z, det),
                z: inv_entry(t.r0.z, t.r0.x, t.r1.z, t.r1.x, det),
            },
            r2: Vec3 {
                x: inv_entry(t.r1.x, t.r1.y, t.r2.x, t.r2.y, det),
                y: inv_entry(t.r0.y, t.r0.x, t.r2.y, t.r2.x, det),
                z: inv_entry(t.r0.x, t.r0.y, t.r1.x, t.r1.y, det),
            },
        }
    }
}

/// The fixed-point length of a vector (coordinates clamped into the range
/// whose squares fit the intermediates; scene values sit far below it).
pub fn magnitude(v: Vec3) -> (r: i64)
    ensures
        r == spec_magnitude(v),
        r >= 0,
{
    let cx: i64 = fx_clamp(v.x, -0x4000000000000000, 0x4000000000000000);
    let cy: i64 = fx_clamp(v.y, -0x4000000000000000, 0x4000000000000000);
    let cz: i64 = fx_clamp(v.z, -0x4000000000000000, 0x4000000000000000);
    proof {
        lemma_i64_prod_fits(cx as int, cx as int);
        lemma_i64_prod_fits(cy as int, cy as int);
        lemma_i64_prod_fits(cz as int, cz as int);
        assert((cx as int) * (cx as int) >= 0 && (cx as int) * (cx as int)
            <= 0x10000000000000000000000000000000 && (cy as int) * (cy as int) >= 0 && (cy as int)
            * (cy as int) <= 0x10000000000000000000000000000000 && (cz as int) * (cz as int) >= 0
            && (cz as int) * (cz as int) <= 0x10000000000000000000000000000000)
            by (nonlinear_arith)
            requires
                absi(cx as int) <= 0x4000000000000000,
                absi(cy as int) <= 0x4000000000000000,
                absi(cz as int) <= 0x4000000000000000,
        ;
    }
    let sx: i128 = (cx as i128) * (cx as i128);
    let sy: i128 = (cy as i128) * (cy as i128);
    let sz: i128 = (cz as i128) * (cz as i128);
    let s: u128 = (sx + sy + sz) as u128;
    let r: u64 = isqrt(s);
    proof {
        lemma_isqrt_props(s as nat);
        assert(spec_isqrt(s as nat) < 0x8000000000000000) by (nonlinear_arith)
            requires
                spec_isqrt(s as nat) * spec_isqrt(s as nat) <= s as nat,
                (s as nat) < 0x40000000000000000000000000000000,
        ;
    }
    r as i64
}

} // verus!
