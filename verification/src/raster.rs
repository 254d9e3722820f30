//! The rasterizer: grouping a flat vertex sequence into triangles, and
//! turning a triangle of screen-space vertices into the fragments covering
//! its footprint, with barycentric interpolation of every attribute.
use vstd::prelude::*;
use crate::color::Color;
use crate::fragment::Fragment;
use crate::fx::{
    absi, fx_clamp, fx_div, fx_floor, mdiv, mdiv_i128, sat64, spec_clamp, spec_fx_div, SCALE,
};
use crate::geometry::{spec_magnitude, magnitude, Vec2, Vec3};
use crate::vertex::Vertex;

verus! {

/// Screen coordinates admitted by the rasterizer (fixed-point); a triangle
/// with a vertex beyond this yields no fragments.
pub const RASTER_LIMIT: i64 = 0x80000000;

/// Attribute values admitted by the rasterizer; a triangle carrying larger
/// attributes yields no fragments.
pub const ATTR_LIMIT: i64 = 0x10000000000;

/// A triangle of three transformed vertices.
#[derive(Clone, Copy, Debug, PartialEq, Eq, Structural)]
pub struct Triangle {
    pub a: Vertex,
    pub b: Vertex,
    pub c: Vertex,
}

/// Group a flat vertex sequence into consecutive non-overlapping triples;
/// a trailing partial triple is dropped silently, by design.
pub fn group_triangles(vertices: &Vec<Vertex>) -> (tris: Vec<Triangle>)
    ensures
        tris@.len() == vertices@.len() as int / 3,
        forall|k: int|
            0 <= k < tris@.len() ==> tris@[k] == (Triangle {
                a: vertices@[3 * k],
                b: vertices@[3 * k + 1],
                c: vertices@[3 * k + 2],
            }),
{
    let n = vertices.len();
    let mut tris: Vec<Triangle> = Vec::new();
    let mut i: usize = 0;
    while n - i >= 3
        invariant
            n == vertices@.len(),
            i % 3 == 0,
            i <= n,
            tris@.len() == i as int / 3,
            forall|k: int|
                0 <= k < tris@.len() ==> tris@[k] == (Triangle {
                    a: vertices@[3 * k],
                    b: vertices@[3 * k + 1],
                    c: vertices@[3 * k + 2],
                }),
        decreases n - i,
    {
        let t = Triangle { a: vertices[i], b: vertices[i + 1], c: vertices[i + 2] };
        tris.push(t);
        i += 3;
    }
    proof {
        assert(tris@.len() == vertices@.len() as int / 3);
    }
    tris
}

/// The doubled signed area form: the edge function of segment `(a, b)`
/// evaluated at point `(px, py)`.
pub open spec fn spec_edge(ax: int, ay: int, bx: int, by: int, px: int, py: int) -> int {
    (bx - ax) * (py - ay) - (by - ay) * (px - ax)
}

/// Twice the signed area of the triangle's screen footprint.
pub open spec fn spec_area(v0: Vertex, v1: Vertex, v2: Vertex) -> int {
    spec_edge(
        v0.transformed_position.x as int,
        v0.transformed_position.y as int,
        v1.transformed_position.x as int,
        v1.transformed_position.y as int,
        v2.transformed_position.x as int,
        v2.transformed_position.y as int,
    )
}

/// The three barycentric edge weights of pixel `(px, py)` (whose sample
/// point is the fixed-point position `px * SCALE, py * SCALE`).
pub open spec fn spec_w0(v0: Vertex, v1: Vertex, v2: Vertex, px: int, py: int) -> int {
    spec_edge(
        v1.transformed_position.x as int,
        v1.transformed_position.y as int,
        v2.transformed_position.x as int,
        v2.transformed_position.y as int,
        px * (SCALE as int),
        py * (SCALE as int),
    )
}

pub open spec fn spec_w1(v0: Vertex, v1: Vertex, v2: Vertex, px: int, py: int) -> int {
    spec_edge(
        v2.transformed_position.x as int,
        v2.transformed_position.y as int,
        v0.transformed_position.x as int,
        v0.transformed_position.y as int,
        px * (SCALE as int),
        py * (SCALE as int),
    )
}

pub open spec fn spec_w2(v0: Vertex, v1: Vertex, v2: Vertex, px: int, py: int) -> int {
    spec_edge(
        v0.transformed_position.x as int,
        v0.transformed_position.y as int,
        v1.transformed_position.x as int,
        v1.transformed_position.y as int,
        px * (SCALE as int),
        py * (SCALE as int),
    )
}

/// Pixel coverage, with an inclusive edge rule: the pixel's sample point
/// lies inside or on the triangle, which must not be degenerate.
pub open spec fn spec_covered(v0: Vertex, v1: Vertex, v2: Vertex, px: int, py: int) -> bool {
    let area = spec_area(v0, v1, v2);
    let w0 = spec_w0(v0, v1, v2, px, py);
    let w1 = spec_w1(v0, v1, v2, px, py);
    let w2 = spec_w2(v0, v1, v2, px, py);
    if area > 0 {
        w0 >= 0 && w1 >= 0 && w2 >= 0
    } else if area < 0 {
        w0 <= 0 && w1 <= 0 && w2 <= 0
    } else {
        false
    }
}

/// Barycentric partition law: the three edge weights of any pixel sum to
/// the triangle's doubled signed area, so interpolation is a genuine
/// weighted average (in particular, a constant attribute interpolates to
/// itself up to the division's truncation).
pub proof fn lemma_weights_partition_area(v0: Vertex, v1: Vertex, v2: Vertex, px: int, py: int)
    ensures
        spec_w0(v0, v1, v2, px, py) + spec_w1(v0, v1, v2, px, py) + spec_w2(v0, v1, v2, px, py)
            == spec_area(v0, v1, v2),
{
    let ax = v0.transformed_position.x as int;
    let ay = v0.transformed_position.y as int;
    let bx = v1.transformed_position.x as int;
    let by = v1.transformed_position.y as int;
    let cx = v2.transformed_position.x as int;
    let cy = v2.transformed_position.y as int;
    let sx = px * (SCALE as int);
    let sy = py * (SCALE as int);
    assert((cx - bx) * (sy - by) == cx * sy - by * cx - bx * sy + bx * by) by (nonlinear_arith);
    assert((cy - by) * (sx - bx) == cy * sx - bx * cy - by * sx + bx * by) by (nonlinear_arith);
    assert((ax - cx) * (sy - cy) == ax * sy - ax * cy - cx * sy + cx * cy) by (nonlinear_arith);
    assert((ay - cy) * (sx - cx) == ay * sx - ay * cx - cy * sx + cx * cy) by (nonlinear_arith);
    assert((bx - ax) * (sy - ay) == bx * sy - ay * bx - ax * sy + ax * ay) by (nonlinear_arith);
    assert((by - ay) * (sx - ax) == by * sx - ax * by - ay * sx + ax * ay) by (nonlinear_arith);
    assert((bx - ax) * (cy - ay) == bx * cy - ay * bx - ax * cy + ax * ay) by (nonlinear_arith);
    assert((by - ay) * (cx - ax) == by * cx - ax * by - ay * cx + ax * ay) by (nonlinear_arith);
}

/// Barycentric interpolation of one scalar attribute at a pixel, truncated
/// and saturated.
pub open spec fn spec_interp(
    v0: Vertex,
    v1: Vertex,
    v2: Vertex,
    px: int,
    py: int,
    a0: int,
    a1: int,
    a2: int,
) -> int {
    sat64(
        mdiv(
            spec_w0(v0, v1, v2, px, py) * a0 + spec_w1(v0, v1, v2, px, py) * a1 + spec_w2(
                v0,
                v1,
                v2,
                px,
                py,
            ) * a2,
            spec_area(v0, v1, v2),
        ),
    )
}

/// One interpolated color channel, clamped into its range.
pub open spec fn spec_interp_channel(
    v0: Vertex,
    v1: Vertex,
    v2: Vertex,
    px: int,
    py: int,
    a0: int,
    a1: int,
    a2: int,
) -> int {
    spec_clamp(spec_interp(v0, v1, v2, px, py, a0, a1, a2), 0, 255)
}

/// The lighting intensity of an interpolated normal against the fixed
/// light direction (straight along z), clamped to `[0, SCALE]`.
pub open spec fn spec_intensity(n: Vec3) -> int {
    let m = spec_magnitude(n);
    if m == 0 {
        0
    } else {
        spec_clamp(spec_fx_div(n.z as int, m), 0, SCALE as int)
    }
}

/// The fragment produced at a covered pixel: every attribute follows by
/// barycentric interpolation from the three vertices.
pub open spec fn spec_frag_at(v0: Vertex, v1: Vertex, v2: Vertex, px: int, py: int) -> Fragment {
    let nx = spec_interp(
        v0,
        v1,
        v2,
        px,
        py,
        v0.transformed_normal.x as int,
        v1.transformed_normal.x as int,
        v2.transformed_normal.x as int,
    );
    let ny = spec_interp(
        v0,
        v1,
        v2,
        px,
        py,
        v0.transformed_normal.y as int,
        v1.transformed_normal.y as int,
        v2.transformed_normal.y as int,
    );
    let nz = spec_interp(
        v0,
        v1,
        v2,
        px,
        py,
        v0.transformed_normal.z as int,
        v1.transformed_normal.z as int,
        v2.transformed_normal.z as int,
    );
    Fragment {
        x: px as i64,
        y: py as i64,
        depth: spec_interp(
            v0,
            v1,
            v2,
            px,
            py,
            v0.transformed_position.z as int,
            v1.transformed_position.z as int,
            v2.transformed_position.z as int,
        ) as i64,
        normal: Vec3 { x: nx as i64, y: ny as i64, z: nz as i64 },
        tex_coords: Vec2 {
            x: spec_interp(
                v0,
                v1,
                v2,
                px,
                py,
                v0.tex_coords.x as int,
                v1.tex_coords.x as int,
                v2.tex_coords.x as int,
            ) as i64,
            y: spec_interp(
                v0,
                v1,
                v2,
                px,
                py,
                v0.tex_coords.y as int,
                v1.tex_coords.y as int,
                v2.tex_coords.y as int,
            ) as i64,
        },
        vertex_position: Vec3 {
            x: spec_interp(
                v0,
                v1,
                v2,
                px,
                py,
                v0.position.x as int,
                v1.position.x as int,
                v2.position.x as int,
            ) as i64,
            y: spec_interp(
                v0,
                v1,
                v2,
                px,
                py,
                v0.position.y as int,
                v1.position.y as int,
                v2.position.y as int,
            ) as i64,
            z: spec_interp(
                v0,
                v1,
                v2,
                px,
                py,
                v0.position.z as int,
                v1.position.z as int,
                v2.position.z as int,
            ) as i64,
        },
        color: Color {
            r: spec_interp_channel(
                v0,
                v1,
                v2,
                px,
                py,
                v0.color.r as int,
                v1.color.r as int,
                v2.color.r as int,
            ) as u8,
            g: spec_interp_channel(
                v0,
                v1,
                v2,
                px,
                py,
                v0.color.g as int,
                v1.color.g as int,
                v2.color.g as int,
            ) as u8,
            b: spec_interp_channel(
                v0,
                v1,
                v2,
                px,
                py,
                v0.color.b as int,
                v1.color.b as int,
                v2.color.b as int,
            ) as u8,
        },
        intensity: spec_intensity(Vec3 { x: nx as i64, y: ny as i64, z: nz as i64 }) as i64,
    }
}

/// Whether one vertex's screen position and attributes are admitted.
pub open spec fn spec_vertex_in_range(v: Vertex) -> bool {
    &&& absi(v.transformed_position.x as int) <= RASTER_LIMIT
    &&& absi(v.transformed_position.y as int) <= RASTER_LIMIT
    &&& absi(v.transformed_position.z as int) <= ATTR_LIMIT
    &&& absi(v.transformed_normal.x as int) <= ATTR_LIMIT
    &&& absi(v.transformed_normal.y as int) <= ATTR_LIMIT
    &&& absi(v.transformed_normal.z as int) <= ATTR_LIMIT
    &&& absi(v.tex_coords.x as int) <= ATTR_LIMIT
    &&& absi(v.tex_coords.y as int) <= ATTR_LIMIT
    &&& absi(v.position.x as int) <= ATTR_LIMIT
    &&& absi(v.position.y as int) <= ATTR_LIMIT
    &&& absi(v.position.z as int) <= ATTR_LIMIT
}

pub open spec fn spec_tri_in_range(v0: Vertex, v1: Vertex, v2: Vertex) -> bool {
    spec_vertex_in_range(v0) && spec_vertex_in_range(v1) && spec_vertex_in_range(v2)
}

/// The fragments of one pixel row, columns `x0` up to `x1` (exclusive),
/// in left-to-right order.
pub open spec fn spec_row_frags(v0: Vertex, v1: Vertex, v2: Vertex, py: int, x0: int, x1: int)
    -> Seq<Fragment>
    decreases x1 - x0,
{
    if x1 <= x0 {
        Seq::empty()
    } else {
        spec_row_frags(v0, v1, v2, py, x0, x1 - 1) + if spec_covered(v0, v1, v2, x1 - 1, py) {
            seq![spec_frag_at(v0, v1, v2, x1 - 1, py)]
        } else {
            Seq::empty()
        }
    }
}

/// The fragments of the rows `y0` up to `y1` (exclusive), row-major.
pub open spec fn spec_rows_frags(
    v0: Vertex,
    v1: Vertex,
    v2: Vertex,
    y0: int,
    y1: int,
    x0: int,
    x1: int,
) -> Seq<Fragment>
    decreases y1 - y0,
{
    if y1 <= y0 {
        Seq::empty()
    } else {
        spec_rows_frags(v0, v1, v2, y0, y1 - 1, x0, x1) + spec_row_frags(v0, v1, v2, y1 - 1, x0, x1)
    }
}

/// The floor of a fixed-point coordinate as a pixel index.
pub open spec fn spec_px_floor(c: int) -> int {
    c / (SCALE as int)
}

pub open spec fn spec_min3(a: int, b: int, c: int) -> int {
    if a <= b && a <= c {
        a
    } else if b <= c {
        b
    } else {
        c
    }
}

pub open spec fn spec_max3(a: int, b: int, c: int) -> int {
    if a >= b && a >= c {
        a
    } else if b >= c {
        b
    } else {
        c
    }
}

/// The whole fragment sequence of one triangle: a row-major scan of its
/// screen bounding box. A triangle that is degenerate (zero signed area)
/// or out of the admitted range yields the empty sequence.
pub open spec fn spec_triangle_fragments(v0: Vertex, v1: Vertex, v2: Vertex) -> Seq<Fragment> {
    if !spec_tri_in_range(v0, v1, v2) || spec_area(v0, v1, v2) == 0 {
        Seq::empty()
    } else {
        let xs0 = spec_px_floor(v0.transformed_position.x as int);
        let xs1 = spec_px_floor(v1.transformed_position.x as int);
        let xs2 = spec_px_floor(v2.transformed_position.x as int);
        let ys0 = spec_px_floor(v0.transformed_position.y as int);
        let ys1 = spec_px_floor(v1.transformed_position.y as int);
        let ys2 = spec_px_floor(v2.transformed_position.y as int);
        spec_rows_frags(
            v0,
            v1,
            v2,
            spec_min3(ys0, ys1, ys2),
            spec_max3(ys0, ys1, ys2) + 2,
            spec_min3(xs0, xs1, xs2),
            spec_max3(xs0, xs1, xs2) + 2,
        )
    }
}

fn min3(a: i64, b: i64, c: i64) -> (r: i64)
    ensures
        r == spec_min3(a as int, b as int, c as int),
{
    if a <= b && a <= c {
        a
    } else if b <= c {
        b
    } else {
        c
    }
}

fn max3(a: i64, b: i64, c: i64) -> (r: i64)
    ensures
        r == spec_max3(a as int, b as int, c as int),
{
    if a >= b && a >= c {
        a
    } else if b >= c {
        b
    } else {
        c
    }
}

/// The edge function over double-width integers.
fn edge(ax: i64, ay: i64, bx: i64, by: i64, px: i128, py: i128) -> (e: i128)
    requires
        absi(ax as int) <= RASTER_LIMIT,
        absi(ay as int) <= RASTER_LIMIT,
        absi(bx as int) <= RASTER_LIMIT,
        absi(by as int) <= RASTER_LIMIT,
        absi(px as int) <= 2 * (RASTER_LIMIT as int),
        absi(py as int) <= 2 * (RASTER_LIMIT as int),
    ensures
        e as int == spec_edge(ax as int, ay as int, bx as int, by as int, px as int, py as int),
        absi(e as int) <= 18 * (RASTER_LIMIT as int) * (RASTER_LIMIT as int),
{
    let dx: i128 = (bx as i128) - (ax as i128);
    let dy: i128 = (by as i128) - (ay as i128);
    let qx: i128 = px - (ax as i128);
    let qy: i128 = py - (ay as i128);
    proof {
        assert(absi((dx as int) * (qy as int)) <= 9 * (RASTER_LIMIT as int) * (RASTER_LIMIT as int)
            && absi((dy as int) * (qx as int)) <= 9 * (RASTER_LIMIT as int) * (
        RASTER_LIMIT as int)) by (nonlinear_arith)
            requires
                absi(dx as int) <= 2 * (RASTER_LIMIT as int),
                absi(dy as int) <= 2 * (RASTER_LIMIT as int),
                absi(qx as int) <= 3 * (RASTER_LIMIT as int),
                absi(qy as int) <= 3 * (RASTER_LIMIT as int),
        ;
    }
    dx * qy - dy * qx
}

/// Barycentric interpolation of one attribute, over precomputed weights.
fn interp3(w0: i128, w1: i128, w2: i128, area: i128, a0: i64, a1: i64, a2: i64) -> (r: i64)
    requires
        area != 0,
        absi(area as int) <= 18 * (RASTER_LIMIT as int) * (RASTER_LIMIT as int),
        absi(w0 as int) <= 18 * (RASTER_LIMIT as int) * (RASTER_LIMIT as int),
        absi(w1 as int) <= 18 * (RASTER_LIMIT as int) * (RASTER_LIMIT as int),
        absi(w2 as int) <= 18 * (RASTER_LIMIT as int) * (RASTER_LIMIT as int),
        absi(a0 as int) <= ATTR_LIMIT,
        absi(a1 as int) <= ATTR_LIMIT,
        absi(a2 as int) <= ATTR_LIMIT,
    ensures
        r as int == sat64(
            mdiv((w0 as int) * (a0 as int) + (w1 as int) * (a1 as int) + (w2 as int) * (a2 as int),
            area as int),
        ),
{
    proof {
        assert(absi((w0 as int) * (a0 as int)) <= 0x480000000000000000000000000 && absi(
            (w1 as int) * (a1 as int),
        ) <= 0x480000000000000000000000000 && absi((w2 as int) * (a2 as int))
            <= 0x480000000000000000000000000 && absi(area as int)
            <= 0x48000000000000000) by (nonlinear_arith)
            requires
                absi(w0 as int) <= 18 * (RASTER_LIMIT as int) * (RASTER_LIMIT as int),
                absi(w1 as int) <= 18 * (RASTER_LIMIT as int) * (RASTER_LIMIT as int),
                absi(w2 as int) <= 18 * (RASTER_LIMIT as int) * (RASTER_LIMIT as int),
                absi(area as int) <= 18 * (RASTER_LIMIT as int) * (RASTER_LIMIT as int),
                absi(a0 as int) <= ATTR_LIMIT,
                absi(a1 as int) <= ATTR_LIMIT,
                absi(a2 as int) <= ATTR_LIMIT,
        ;
    }
    let num: i128 = w0 * (a0 as i128) + w1 * (a1 as i128) + w2 * (a2 as i128);
    proof {
        assert(num > i128::MIN && area > i128::MIN);
    }
    mdiv_i128(num, area)
}

fn interp_channel(w0: i128, w1: i128, w2: i128, area: i128, a0: u8, a1: u8, a2: u8) -> (r: u8)
    requires
        area != 0,
        absi(area as int) <= 18 * (RASTER_LIMIT as int) * (RASTER_LIMIT as int),
        absi(w0 as int) <= 18 * (RASTER_LIMIT as int) * (RASTER_LIMIT as int),
        absi(w1 as int) <= 18 * (RASTER_LIMIT as int) * (RASTER_LIMIT as int),
        absi(w2 as int) <= 18 * (RASTER_LIMIT as int) * (RASTER_LIMIT as int),
    ensures
        r as int == spec_clamp(
            sat64(
                mdiv(
                    (w0 as int) * (a0 as int) + (w1 as int) * (a1 as int) + (w2 as int) * (
                    a2 as int),
                    area as int,
                ),
            ),
            0,
            255,
        ),
{
    let v = interp3(w0, w1, w2, area, a0 as i64, a1 as i64, a2 as i64);
    fx_clamp(v, 0, 255) as u8
}

/// The lighting intensity of a normal against the fixed light direction.
pub fn intensity_of(n: Vec3) -> (r: i64)
    ensures
        r == spec_intensity(n),
        0 <= r <= SCALE,
{
    let m = magnitude(n);
    if m == 0 {
        0
    } else {
        fx_clamp(fx_div(n.z, m), 0, SCALE)
    }
}

/// Rasterize one triangle of transformed vertices into its fragments:
/// a row-major scan of the screen bounding box, one fragment per covered
/// pixel, each with barycentrically interpolated attributes. A degenerate
/// (zero-area) or out-of-range triangle produces no fragments at all.
pub fn triangle(v0: &Vertex, v1: &Vertex, v2: &Vertex) -> (frags: Vec<Fragment>)
    ensures
        frags@ == spec_triangle_fragments(*v0, *v1, *v2),
        spec_area(*v0, *v1, *v2) == 0 ==> frags@.len() == 0,
{
    let mut out: Vec<Fragment> = Vec::new();
    if !vertex_in_range(v0) || !vertex_in_range(v1) || !vertex_in_range(v2) {
        return out;
    }
    let t0 = v0.transformed_position;
    let t1 = v1.transformed_position;
    let t2 = v2.transformed_position;
    let area: i128 = edge(t0.x, t0.y, t1.x, t1.y, t2.x as i128, t2.y as i128);
    if area == 0 {
        return out;
    }
    let xmin: i64 = min3(fx_floor(t0.x), fx_floor(t1.x), fx_floor(t2.x));
    let xmax: i64 = max3(fx_floor(t0.x), fx_floor(t1.x), fx_floor(t2.x)) + 2;
    let ymin: i64 = min3(fx_floor(t0.y), fx_floor(t1.y), fx_floor(t2.y));
    let ymax: i64 = max3(fx_floor(t0.y), fx_floor(t1.y), fx_floor(t2.y)) + 2;
    let mut py: i64 = ymin;
    while py < ymax
        invariant
            spec_tri_in_range(*v0, *v1, *v2),
            t0 == v0.transformed_position,
            t1 == v1.transformed_position,
            t2 == v2.transformed_position,
            area as int == spec_area(*v0, *v1, *v2),
            area != 0,
            absi(area as int) <= 18 * (RASTER_LIMIT as int) * (RASTER_LIMIT as int),
            xmin == spec_min3(
                spec_px_floor(v0.transformed_position.x as int),
                spec_px_floor(v1.transformed_position.x as int),
                spec_px_floor(v2.transformed_position.x as int),
            ),
            xmax == spec_max3(
                spec_px_floor(v0.transformed_position.x as int),
                spec_px_floor(v1.transformed_position.x as int),
                spec_px_floor(v2.transformed_position.x as int),
            ) + 2,
            ymin == spec_min3(
                spec_px_floor(v0.transformed_position.y as int),
                spec_px_floor(v1.transformed_position.y as int),
                spec_px_floor(v2.transformed_position.y as int),
            ),
            ymax == spec_max3(
                spec_px_floor(v0.transformed_position.y as int),
                spec_px_floor(v1.transformed_position.y as int),
                spec_px_floor(v2.transformed_position.y as int),
            ) + 2,
            ymin <= py <= ymax,
            absi(xmin as int) <= RASTER_LIMIT as int / 65536 + 2,
            absi(xmax as int) <= RASTER_LIMIT as int / 65536 + 2,
            absi(py as int) <= RASTER_LIMIT as int / 65536 + 2,
            out@ == spec_rows_frags(
                *v0,
                *v1,
                *v2,
                ymin as int,
                py as int,
                xmin as int,
                xmax as int,
            ),
        decreases ymax - py,
    {
        let mut px: i64 = xmin;
        while px < xmax
            invariant
                spec_tri_in_range(*v0, *v1, *v2),
                t0 == v0.transformed_position,
                t1 == v1.transformed_position,
                t2 == v2.transformed_position,
                area as int == spec_area(*v0, *v1, *v2),
                area != 0,
                absi(area as int) <= 18 * (RASTER_LIMIT as int) * (RASTER_LIMIT as int),
                ymin <= py < ymax,
                ymin == spec_min3(
                    spec_px_floor(v0.transformed_position.y as int),
                    spec_px_floor(v1.transformed_position.y as int),
                    spec_px_floor(v2.transformed_position.y as int),
                ),
                xmin <= px <= xmax,
                absi(xmin as int) <= RASTER_LIMIT as int / 65536 + 2,
                absi(xmax as int) <= RASTER_LIMIT as int / 65536 + 2,
                absi(py as int) <= RASTER_LIMIT as int / 65536 + 2,
                out@ == spec_rows_frags(
                    *v0,
                    *v1,
                    *v2,
                    ymin as int,
                    py as int,
                    xmin as int,
                    xmax as int,
                ) + spec_row_frags(*v0, *v1, *v2, py as int, xmin as int, px as int),
            decreases xmax - px,
        {
            let sx: i128 = (px as i128) * (SCALE as i128);
            let sy: i128 = (py as i128) * (SCALE as i128);
            let w0 = edge(t1.x, t1.y, t2.x, t2.y, sx, sy);
            let w1 = edge(t2.x, t2.y, t0.x, t0.y, sx, sy);
            let w2 = edge(t0.x, t0.y, t1.x, t1.y, sx, sy);
            let covered = if area > 0 {
                w0 >= 0 && w1 >= 0 && w2 >= 0
            } else {
                w0 <= 0 && w1 <= 0 && w2 <= 0
            };
            if covered {
                let nx = interp3(
                    w0,
                    w1,
                    w2,
                    area,
                    v0.transformed_normal.x,
                    v1.transformed_normal.x,
                    v2.transformed_normal.x,
                );
                let ny = interp3(
                    w0,
                    w1,
                    w2,
                    area,
                    v0.transformed_normal.y,
                    v1.transformed_normal.y,
                    v2.transformed_normal.y,
                );
                let nz = interp3(
                    w0,
                    w1,
                    w2,
                    area,
                    v0.transformed_normal.z,
                    v1.transformed_normal.z,
                    v2.transformed_normal.z,
                );
                let normal = Vec3 { x: nx, y: ny, z: nz };
                let frag = Fragment {
                    x: px,
                    y: py,
                    depth: interp3(
                        w0,
                        w1,
                        w2,
                        area,
                        v0.transformed_position.z,
                        v1.transformed_position.z,
                        v2.transformed_position.z,
                    ),
                    normal,
                    tex_coords: Vec2 {
                        x: interp3(
                            w0,
                            w1,
                            w2,
                            area,
                            v0.tex_coords.x,
                            v1.tex_coords.x,
                            v2.tex_coords.x,
                        ),
                        y: interp3(
                            w0,
                            w1,
                            w2,
                            area,
                            v0.tex_coords.y,
                            v1.tex_coords.y,
                            v2.tex_coords.y,
                        ),
                    },
                    vertex_position: Vec3 {
                        x: interp3(w0, w1, w2, area, v0.position.x, v1.position.x, v2.position.x),
                        y: interp3(w0, w1, w2, area, v0.position.y, v1.position.y, v2.position.y),
                        z: interp3(w0, w1, w2, area, v0.position.z, v1.position.z, v2.position.z),
                    },
                    color: Color {
                        r: interp_channel(w0, w1, w2, area, v0.color.r, v1.color.r, v2.color.r),
                        g: interp_channel(w0, w1, w2, area, v0.color.g, v1.color.g, v2.color.g),
                        b: interp_channel(w0, w1, w2, area, v0.color.b, v1.color.b, v2.color.b),
                    },
                    intensity: intensity_of(normal),
                };
                proof {
                    assert(frag == spec_frag_at(*v0, *v1, *v2, px as int, py as int));
                }
                out.push(frag);
            }
            px += 1;
        }
        py += 1;
    }
    out
}

/// Runtime check of the admitted ranges, matching `spec_vertex_in_range`.
pub fn vertex_in_range(v: &Vertex) -> (b: bool)
    ensures
        b == spec_vertex_in_range(*v),
{
    let t = v.transformed_position;
    let n = v.transformed_normal;
    let p = v.position;
    -RASTER_LIMIT <= t.x && t.x <= RASTER_LIMIT && -RASTER_LIMIT <= t.y && t.y <= RASTER_LIMIT
        && -ATTR_LIMIT <= t.z && t.z <= ATTR_LIMIT && -ATTR_LIMIT <= n.x && n.x <= ATTR_LIMIT
        && -ATTR_LIMIT <= n.y && n.y <= ATTR_LIMIT && -ATTR_LIMIT <= n.z && n.z <= ATTR_LIMIT
        && -ATTR_LIMIT <= v.tex_coords.x && v.tex_coords.x <= ATTR_LIMIT
        && -ATTR_LIMIT <= v.tex_coords.y && v.tex_coords.y <= ATTR_LIMIT
        && -ATTR_LIMIT <= p.x && p.x <= ATTR_LIMIT && -ATTR_LIMIT <= p.y && p.y <= ATTR_LIMIT
        && -ATTR_LIMIT <= p.z && p.z <= ATTR_LIMIT
}

} // verus!
