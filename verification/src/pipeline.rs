//! The per-entity pipeline: building the viewport and model matrices, and
//! the orchestrator that transforms, rasterizes, shades and composites one
//! entity's vertex array into the framebuffer.
use vstd::prelude::*;
use crate::color::spec_color_hex;
use crate::fragment::Fragment;
use crate::framebuffer::{
    depth_monotonic, fb_state, lemma_depth_monotonic_trans, spec_apply_writes, spec_write_step,
    Framebuffer,
};
use crate::fx::{fx_cos, fx_sin, spec_fx_cos, spec_fx_sin, SCALE};
use crate::geometry::{
    mat4_mul_mat4, spec_mat4_mul_mat4, spec_mat4_mul_vec4, spec_mat4_upper3_bounded, Mat4, Vec3,
    Vec4,
};
use crate::raster::{group_triangles, spec_triangle_fragments, triangle, Triangle};
use crate::shaders::{
    fragment_shader, spec_fragment_shader, spec_vertex_shader, vertex_shader, Uniforms,
};
use crate::vertex::Vertex;

verus! {

/// The viewport matrix for a render target: maps normalized device
/// coordinates into pixels, with y pointing down the raster.
pub open spec fn spec_viewport_matrix(w: int, h: int) -> Mat4 {
    Mat4 {
        r0: Vec4 { x: (w * 32768) as i64, y: 0, z: 0, w: (w * 32768) as i64 },
        r1: Vec4 { x: 0, y: (-(h * 32768)) as i64, z: 0, w: (h * 32768) as i64 },
        r2: Vec4 { x: 0, y: 0, z: SCALE, w: 0 },
        r3: Vec4 { x: 0, y: 0, z: 0, w: SCALE },
    }
}

pub fn create_viewport_matrix(width: u32, height: u32) -> (m: Mat4)
    ensures
        m == spec_viewport_matrix(width as int, height as int),
{
    let hw: i64 = (width as i64) * 32768;
    let hh: i64 = (height as i64) * 32768;
    Mat4 {
        r0: Vec4 { x: hw, y: 0, z: 0, w: hw },
        r1: Vec4 { x: 0, y: -hh, z: 0, w: hh },
        r2: Vec4 { x: 0, y: 0, z: SCALE, w: 0 },
        r3: Vec4 { x: 0, y: 0, z: 0, w: SCALE },
    }
}

/// Viewport law: the normalized device coordinate origin lands on the
/// exact center of the render target — screen x is half the width and
/// screen y half the height, in fixed-point pixels.
pub proof fn lemma_viewport_center(w: int, h: int)
    ensures
        ({
            let s = spec_mat4_mul_vec4(
                spec_viewport_matrix(w, h),
                Vec4 { x: 0, y: 0, z: 0, w: SCALE },
            );
            &&& 0 <= w <= 0x100000000 ==> s.x == w * 32768
            &&& 0 <= h <= 0x100000000 ==> s.y == h * 32768
            &&& s.z == 0
        }),
{
    if 0 <= w <= 0x100000000 {
        assert((w * 32768) * 65536 / 65536 == w * 32768) by (nonlinear_arith)
            requires
                0 <= w <= 0x100000000,
        ;
    }
    if 0 <= h <= 0x100000000 {
        assert((h * 32768) * 65536 / 65536 == h * 32768) by (nonlinear_arith)
            requires
                0 <= h <= 0x100000000,
        ;
    }
}

/// The model matrix of an entity pose: rotations about the three axes
/// composed (`z`, then `y`, then `x` innermost), then uniform scale and
/// translation applied on top.
pub open spec fn spec_model_matrix(translation: Vec3, scale_factor: i64, rotation: Vec3) -> Mat4 {
    let sx = spec_fx_sin(rotation.x as int) as i64;
    let cx = spec_fx_cos(rotation.x as int) as i64;
    let sy = spec_fx_sin(rotation.y as int) as i64;
    let cy = spec_fx_cos(rotation.y as int) as i64;
    let sz = spec_fx_sin(rotation.z as int) as i64;
    let cz = spec_fx_cos(rotation.z as int) as i64;
    let rx = Mat4 {
        r0: Vec4 { x: SCALE, y: 0, z: 0, w: 0 },
        r1: Vec4 { x: 0, y: cx, z: (-sx) as i64, w: 0 },
        r2: Vec4 { x: 0, y: sx, z: cx, w: 0 },
        r3: Vec4 { x: 0, y: 0, z: 0, w: SCALE },
    };
    let ry = Mat4 {
        r0: Vec4 { x: cy, y: 0, z: sy, w: 0 },
        r1: Vec4 { x: 0, y: SCALE, z: 0, w: 0 },
        r2: Vec4 { x: (-sy) as i64, y: 0, z: cy, w: 0 },
        r3: Vec4 { x: 0, y: 0, z: 0, w: SCALE },
    };
    let rz = Mat4 {
        r0: Vec4 { x: cz, y: (-sz) as i64, z: 0, w: 0 },
        r1: Vec4 { x: sz, y: cz, z: 0, w: 0 },
        r2: Vec4 { x: 0, y: 0, z: SCALE, w: 0 },
        r3: Vec4 { x: 0, y: 0, z: 0, w: SCALE },
    };
    let rot = spec_mat4_mul_mat4(spec_mat4_mul_mat4(rz, ry), rx);
    let tr = Mat4 {
        r0: Vec4 { x: scale_factor, y: 0, z: 0, w: translation.x },
        r1: Vec4 { x: 0, y: scale_factor, z: 0, w: translation.y },
        r2: Vec4 { x: 0, y: 0, z: scale_factor, w: translation.z },
        r3: Vec4 { x: 0, y: 0, z: 0, w: SCALE },
    };
    spec_mat4_mul_mat4(tr, rot)
}

pub fn create_model_matrix(translation: Vec3, scale_factor: i64, rotation: Vec3) -> (m: Mat4)
    ensures
        m == spec_model_matrix(translation, scale_factor, rotation),
{
    let sx = fx_sin(rotation.x);
    let cx = fx_cos(rotation.x);
    let sy = fx_sin(rotation.y);
    let cy = fx_cos(rotation.y);
    let sz = fx_sin(rotation.z);
    let cz = fx_cos(rotation.z);
    let rx = Mat4 {
        r0: Vec4 { x: SCALE, y: 0, z: 0, w: 0 },
        r1: Vec4 { x: 0, y: cx, z: -sx, w: 0 },
        r2: Vec4 { x: 0, y: sx, z: cx, w: 0 },
        r3: Vec4 { x: 0, y: 0, z: 0, w: SCALE },
    };
    let ry = Mat4 {
        r0: Vec4 { x: cy, y: 0, z: sy, w: 0 },
        r1: Vec4 { x: 0, y: SCALE, z: 0, w: 0 },
        r2: Vec4 { x: -sy, y: 0, z: cy, w: 0 },
        r3: Vec4 { x: 0, y: 0, z: 0, w: SCALE },
    };
    let rz = Mat4 {
        r0: Vec4 { x: cz, y: -sz, z: 0, w: 0 },
        r1: Vec4 { x: sz, y: cz, z: 0, w: 0 },
        r2: Vec4 { x: 0, y: 0, z: SCALE, w: 0 },
        r3: Vec4 { x: 0, y: 0, z: 0, w: SCALE },
    };
    let rot = mat4_mul_mat4(mat4_mul_mat4(rz, ry), rx);
    let tr = Mat4 {
        r0: Vec4 { x: scale_factor, y: 0, z: 0, w: translation.x },
        r1: Vec4 { x: 0, y: scale_factor, z: 0, w: translation.y },
        r2: Vec4 { x: 0, y: 0, z: scale_factor, w: translation.z },
        r3: Vec4 { x: 0, y: 0, z: 0, w: SCALE },
    };
    mat4_mul_mat4(tr, rot)
}

/// The drawing command of one fragment: its pixel, its interpolated
/// depth, and the selected shader's packed color.
pub open spec fn spec_frag_write(f: Fragment, u: Uniforms, idx: u32) -> (int, int, i64, u32) {
    (f.x as int, f.y as int, f.depth, spec_color_hex(spec_fragment_shader(f, u, idx)) as u32)
}

/// The drawing commands of a fragment sequence: one per fragment whose
/// pixel lies on the raster (negative or too-large coordinates are dropped
/// before the depth test, never wrapped).
pub open spec fn spec_frag_writes(
    frags: Seq<Fragment>,
    u: Uniforms,
    idx: u32,
    w: int,
    h: int,
) -> Seq<(int, int, i64, u32)>
    decreases frags.len(),
{
    if frags.len() == 0 {
        Seq::empty()
    } else {
        spec_frag_writes(frags.drop_last(), u, idx, w, h) + ({
            let f = frags.last();
            if 0 <= f.x && 0 <= f.y && (f.x as int) < w && (f.y as int) < h {
                seq![spec_frag_write(f, u, idx)]
            } else {
                Seq::empty()
            }
        })
    }
}

/// The drawing commands of the first `k` consecutive vertex triples of a
/// transformed vertex sequence, each rasterized into its fragments.
pub open spec fn spec_tri_writes(
    tv: Seq<Vertex>,
    k: int,
    u: Uniforms,
    idx: u32,
    w: int,
    h: int,
) -> Seq<(int, int, i64, u32)>
    decreases k,
{
    if k <= 0 {
        Seq::empty()
    } else {
        spec_tri_writes(tv, k - 1, u, idx, w, h) + spec_frag_writes(
            spec_triangle_fragments(tv[3 * (k - 1)], tv[3 * (k - 1) + 1], tv[3 * (k - 1) + 2]),
            u,
            idx,
            w,
            h,
        )
    }
}

/// Every drawing command of one entity's render call: each vertex through
/// the vertex transform, the transformed vertices grouped into
/// `len / 3` consecutive triples (a trailing partial triple dropped), each
/// triple rasterized in order, and each on-raster fragment shaded by the
/// selected shader and depth-tested at its pixel.
pub open spec fn spec_render_writes(
    u: Uniforms,
    verts: Seq<Vertex>,
    idx: u32,
    w: int,
    h: int,
) -> Seq<(int, int, i64, u32)> {
    spec_tri_writes(
        verts.map(|i: int, v: Vertex| spec_vertex_shader(v, u)),
        verts.len() as int / 3,
        u,
        idx,
        w,
        h,
    )
}

/// Render one entity: transform every vertex, group consecutive triples
/// into triangles, rasterize each into fragments, shade each fragment by
/// the selected shader, and composite the results through the depth test.
/// The final buffer contents and draw color are exactly the fold of the
/// pipeline's drawing commands over the starting state; dimensions and
/// background are untouched.
pub fn render(
    framebuffer: &mut Framebuffer,
    uniforms: &Uniforms,
    vertex_array: &Vec<Vertex>,
    current_shader: u32,
)
    requires
        old(framebuffer).wf(),
        spec_mat4_upper3_bounded(uniforms.model_matrix),
    ensures
        final(framebuffer).wf(),
        final(framebuffer).width == old(framebuffer).width,
        final(framebuffer).height == old(framebuffer).height,
        final(framebuffer).background_color == old(framebuffer).background_color,
        depth_monotonic(*old(framebuffer), *final(framebuffer)),
        fb_state(*final(framebuffer)) == spec_apply_writes(
            old(framebuffer).width as int,
            old(framebuffer).height as int,
            fb_state(*old(framebuffer)),
            spec_render_writes(
                *uniforms,
                vertex_array@,
                current_shader,
                old(framebuffer).width as int,
                old(framebuffer).height as int,
            ),
        ),
{
    let ghost wi = old(framebuffer).width as int;
    let ghost hi = old(framebuffer).height as int;
    let ghost s0 = fb_state(*old(framebuffer));
    let mut transformed: Vec<Vertex> = Vec::new();
    let mut i: usize = 0;
    let n = vertex_array.len();
    while i < n
        invariant
            n == vertex_array@.len(),
            i <= n,
            spec_mat4_upper3_bounded(uniforms.model_matrix),
            transformed@.len() == i as int,
            forall|j: int|
                0 <= j < i ==> transformed@[j] == spec_vertex_shader(
                    vertex_array@[j],
                    *uniforms,
                ),
        decreases n - i,
    {
        let t = vertex_shader(&vertex_array[i], uniforms);
        transformed.push(t);
        i += 1;
    }
    proof {
        assert(transformed@ =~= vertex_array@.map(
            |j: int, v: Vertex| spec_vertex_shader(v, *uniforms),
        ));
    }
    let ghost tmap = transformed@;
    let tris = group_triangles(&transformed);
    let mut k: usize = 0;
    let nt = tris.len();
    while k < nt
        invariant
            wi == old(framebuffer).width as int,
            hi == old(framebuffer).height as int,
            s0 == fb_state(*old(framebuffer)),
            nt == tris@.len(),
            nt == tmap.len() as int / 3,
            k <= nt,
            forall|kk: int|
                0 <= kk < nt ==> tris@[kk] == (Triangle {
                    a: tmap[3 * kk],
                    b: tmap[3 * kk + 1],
                    c: tmap[3 * kk + 2],
                }),
            framebuffer.wf(),
            framebuffer.width == old(framebuffer).width,
            framebuffer.height == old(framebuffer).height,
            framebuffer.background_color == old(framebuffer).background_color,
            depth_monotonic(*old(framebuffer), *framebuffer),
            fb_state(*framebuffer) == spec_apply_writes(
                wi,
                hi,
                s0,
                spec_tri_writes(tmap, k as int, *uniforms, current_shader, wi, hi),
            ),
        decreases nt - k,
    {
        let tri = tris[k];
        let frags = triangle(&tri.a, &tri.b, &tri.c);
        let ghost base = spec_tri_writes(tmap, k as int, *uniforms, current_shader, wi, hi);
        let mut j: usize = 0;
        let nf = frags.len();
        while j < nf
            invariant
                wi == old(framebuffer).width as int,
                hi == old(framebuffer).height as int,
                s0 == fb_state(*old(framebuffer)),
                nf == frags@.len(),
                j <= nf,
                base == spec_tri_writes(tmap, k as int, *uniforms, current_shader, wi, hi),
                framebuffer.wf(),
                framebuffer.width == old(framebuffer).width,
                framebuffer.height == old(framebuffer).height,
                framebuffer.background_color == old(framebuffer).background_color,
                depth_monotonic(*old(framebuffer), *framebuffer),
                fb_state(*framebuffer) == spec_apply_writes(
                    wi,
                    hi,
                    s0,
                    base + spec_frag_writes(
                        frags@.subrange(0, j as int),
                        *uniforms,
                        current_shader,
                        wi,
                        hi,
                    ),
                ),
            decreases nf - j,
        {
            let frag = frags[j];
            let ghost ws = base + spec_frag_writes(
                frags@.subrange(0, j as int),
                *uniforms,
                current_shader,
                wi,
                hi,
            );
            proof {
                assert(frags@.subrange(0, j as int + 1).drop_last() =~= frags@.subrange(
                    0,
                    j as int,
                ));
                assert(frags@.subrange(0, j as int + 1).last() == frag);
            }
            let mut plotted = false;
            if frag.x >= 0 && frag.y >= 0 && (frag.x as u64) < (framebuffer.width as u64) && (
            frag.y as u64) < (framebuffer.height as u64) {
                plotted = true;
                let x = frag.x as usize;
                let y = frag.y as usize;
                let ghost scur = fb_state(*framebuffer);
                let ghost wr = spec_frag_write(frag, *uniforms, current_shader);
                let shaded = fragment_shader(&frag, uniforms, current_shader);
                framebuffer.set_current_color(shaded.to_hex());
                let ghost prev = *framebuffer;
                framebuffer.point(x, y, frag.depth);
                proof {
                    lemma_depth_monotonic_trans(*old(framebuffer), prev, *framebuffer);
                    assert(fb_state(*framebuffer) == spec_write_step(wi, hi, scur, wr));
                    assert((ws + seq![wr]).drop_last() =~= ws);
                    assert(spec_frag_writes(
                        frags@.subrange(0, j as int + 1),
                        *uniforms,
                        current_shader,
                        wi,
                        hi,
                    ) == spec_frag_writes(
                        frags@.subrange(0, j as int),
                        *uniforms,
                        current_shader,
                        wi,
                        hi,
                    ) + seq![wr]);
                    assert(base + spec_frag_writes(
                        frags@.subrange(0, j as int + 1),
                        *uniforms,
                        current_shader,
                        wi,
                        hi,
                    ) =~= ws + seq![wr]);
                }
            }
            proof {
                if !plotted {
                    assert(spec_frag_writes(
                        frags@.subrange(0, j as int + 1),
                        *uniforms,
                        current_shader,
                        wi,
                        hi,
                    ) =~= spec_frag_writes(
                        frags@.subrange(0, j as int),
                        *uniforms,
                        current_shader,
                        wi,
                        hi,
                    ));
                }
            }
            j += 1;
        }
        proof {
            assert(frags@.subrange(0, nf as int) =~= frags@);
            assert(spec_tri_writes(tmap, k as int + 1, *uniforms, current_shader, wi, hi) == base
                + spec_frag_writes(
                spec_triangle_fragments(tmap[3 * (k as int)], tmap[3 * (k as int) + 1], tmap[3 * (
                k as int) + 2]),
                *uniforms,
                current_shader,
                wi,
                hi,
            ));
        }
        k += 1;
    }
}

} // verus!
