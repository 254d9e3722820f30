//! The skybox: a fixed set of random point stars on a sphere, projected
//! each frame and plotted directly at a fixed far depth, bypassing the
//! triangle rasterizer.
use vstd::prelude::*;
use crate::color::Color;
use crate::framebuffer::{
    depth_monotonic, fb_state, lemma_apply_append, lemma_apply_ignores_current, lemma_apply_push,
    lemma_depth_monotonic_trans, spec_apply_writes, spec_write_step, Framebuffer,
};
use crate::fx::{
    fx_add, fx_cos, fx_div, fx_floor, fx_mul, fx_sin, spec_fx_add, spec_fx_cos, spec_fx_div,
    spec_fx_mul, spec_fx_sin, PI_FX, SCALE, TAU_FX,
};
use crate::geometry::{spec_mat4_mul_vec4, mat4_mul_vec4, Vec3, Vec4};
use crate::shaders::Uniforms;

verus! {

/// The fixed depth stars are plotted at: far enough that every piece of
/// scene geometry wins the depth test against them, yet still drawn over
/// the cleared background.
pub const STAR_DEPTH: i64 = 65536000;

/// The fixed radius of the star sphere, in fixed-point units.
pub const STAR_RADIUS: i64 = 6553600;

#[derive(Clone, Copy, Debug, PartialEq, Eq, Structural)]
pub struct Star {
    /// Position on the star sphere.
    pub position: Vec3,
    /// Brightness in `[0, SCALE]`.
    pub brightness: i64,
    /// Discrete size class: 1, 2 or 3 plotted pixel patterns.
    pub size: u8,
}

/// Relies on rand::random: a fresh uniformly random 32-bit value; nothing
/// can be promised of its outcome.
#[verifier::external_body]
fn random_u32() -> u32 {
    rand::random::<u32>()
}

/// The invariant of every generated star: brightness and size class in
/// range.
pub open spec fn star_wf(s: Star) -> bool {
    &&& 0 <= s.brightness <= SCALE
    &&& 1 <= s.size <= 3
}

/// A star's position lies on the star sphere: it is the spherical point of
/// some azimuth in `[0, TAU_FX)` and polar angle in `[0, PI_FX]` at the
/// fixed radius.
pub open spec fn star_on_sphere(s: Star) -> bool {
    exists|theta: int, phi: int|
        {
            &&& 0 <= theta < TAU_FX
            &&& 0 <= phi <= PI_FX
            &&& s.position.x as int == spec_fx_mul(
                spec_fx_mul(STAR_RADIUS as int, spec_fx_sin(phi)),
                #[trigger] spec_fx_cos(theta),
            )
            &&& s.position.y as int == spec_fx_mul(STAR_RADIUS as int, #[trigger] spec_fx_cos(phi))
            &&& s.position.z as int == spec_fx_mul(
                spec_fx_mul(STAR_RADIUS as int, spec_fx_sin(phi)),
                spec_fx_sin(theta),
            )
        }
}

pub struct Skybox {
    pub stars: Vec<Star>,
}

/// One star pixel plotted at the fixed far depth: exactly one drawing
/// command in the current color, carrying the compositing law along from
/// the frame's starting state.
fn star_point(fb: &mut Framebuffer, x: usize, y: usize, Ghost(start): Ghost<Framebuffer>)
    requires
        old(fb).wf(),
        depth_monotonic(start, *old(fb)),
    ensures
        final(fb).wf(),
        final(fb).width == old(fb).width,
        final(fb).height == old(fb).height,
        final(fb).background_color == old(fb).background_color,
        final(fb).current_color == old(fb).current_color,
        depth_monotonic(start, *final(fb)),
        fb_state(*final(fb)) == spec_write_step(
            old(fb).width as int,
            old(fb).height as int,
            fb_state(*old(fb)),
            (x as int, y as int, STAR_DEPTH, old(fb).current_color),
        ),
{
    let ghost prev = *fb;
    fb.point(x, y, STAR_DEPTH);
    proof {
        lemma_depth_monotonic_trans(start, prev, *fb);
    }
}

/// The gray level a star's brightness maps to, one channel in `0..=255`.
pub open spec fn spec_star_gray(s: Star) -> int {
    (s.brightness as int) * 255 / (SCALE as int)
}

/// The packed gray pixel value a star draws with.
pub open spec fn spec_star_color(s: Star) -> int {
    spec_star_gray(s) * 0x10000 + spec_star_gray(s) * 0x100 + spec_star_gray(s)
}

/// The drawing commands of one star: nothing if it projects off the
/// raster; otherwise its size-class footprint at the fixed far depth in
/// its brightness gray — one pixel, a 2x2 block, or a plus shape whose
/// left and upper arms are dropped at the raster's edge.
pub open spec fn spec_star_writes(u: Uniforms, s: Star, camera: Vec3, w: int, h: int) -> Seq<
    (int, int, i64, u32),
> {
    let pr = spec_project_star(u, s.position, camera, w, h);
    if pr is None {
        Seq::empty()
    } else {
        let x = pr->Some_0.0;
        let y = pr->Some_0.1;
        let c = spec_star_color(s) as u32;
        if s.size == 1 {
            seq![(x, y, STAR_DEPTH, c)]
        } else if s.size == 2 {
            seq![
                (x, y, STAR_DEPTH, c),
                (x + 1, y, STAR_DEPTH, c),
                (x, y + 1, STAR_DEPTH, c),
                (x + 1, y + 1, STAR_DEPTH, c),
            ]
        } else {
            seq![(x, y, STAR_DEPTH, c)] + (if x > 0 {
                seq![(x - 1, y, STAR_DEPTH, c)]
            } else {
                Seq::empty()
            }) + seq![(x + 1, y, STAR_DEPTH, c)] + (if y > 0 {
                seq![(x, y - 1, STAR_DEPTH, c)]
            } else {
                Seq::empty()
            }) + seq![(x, y + 1, STAR_DEPTH, c)]
        }
    }
}

/// The drawing commands of a whole star sequence, star by star in order.
pub open spec fn spec_skybox_writes(
    u: Uniforms,
    stars: Seq<Star>,
    camera: Vec3,
    w: int,
    h: int,
) -> Seq<(int, int, i64, u32)>
    decreases stars.len(),
{
    if stars.len() == 0 {
        Seq::empty()
    } else {
        spec_skybox_writes(u, stars.drop_last(), camera, w, h) + spec_star_writes(
            u,
            stars.last(),
            camera,
            w,
            h,
        )
    }
}

impl Skybox {
    pub open spec fn wf(self) -> bool {
        forall|i: int| 0 <= i < self.stars@.len() ==> star_wf(self.stars@[i])
    }

    /// Generate `star_count` stars at random spherical angles on the fixed
    /// radius, with random brightness in `[0, SCALE]` and a random size
    /// class in `1..=3`.
    pub fn new(star_count: usize) -> (s: Skybox)
        ensures
            s.wf(),
            s.stars@.len() == star_count,
            forall|i: int| 0 <= i < s.stars@.len() ==> star_on_sphere(#[trigger] s.stars@[i]),
    {
        let mut stars: Vec<Star> = Vec::new();
        let mut i: usize = 0;
        while i < star_count
            invariant
                i <= star_count,
                stars@.len() == i,
                forall|j: int| 0 <= j < stars@.len() ==> star_wf(stars@[j]),
                forall|j: int| 0 <= j < stars@.len() ==> star_on_sphere(#[trigger] stars@[j]),
            decreases star_count - i,
        {
            let theta: i64 = (random_u32() as i64) % TAU_FX;
            let phi: i64 = (random_u32() as i64) % (PI_FX + 1);
            let sp = fx_sin(phi);
            let cp = fx_cos(phi);
            let x = fx_mul(fx_mul(STAR_RADIUS, sp), fx_cos(theta));
            let y = fx_mul(STAR_RADIUS, cp);
            let z = fx_mul(fx_mul(STAR_RADIUS, sp), fx_sin(theta));
            let brightness: i64 = (random_u32() as i64) % (SCALE + 1);
            let size: u8 = 1 + (random_u32() % 3) as u8;
            let star = Star { position: Vec3 { x, y, z }, brightness, size };
            proof {
                assert(star.position.x as int == spec_fx_mul(
                    spec_fx_mul(STAR_RADIUS as int, spec_fx_sin(phi as int)),
                    spec_fx_cos(theta as int),
                ) && star.position.y as int == spec_fx_mul(
                    STAR_RADIUS as int,
                    spec_fx_cos(phi as int),
                ) && star.position.z as int == spec_fx_mul(
                    spec_fx_mul(STAR_RADIUS as int, spec_fx_sin(phi as int)),
                    spec_fx_sin(theta as int),
                ));
                assert(star_on_sphere(star));
            }
            stars.push(star);
            i += 1;
        }
        Skybox { stars }
    }

    /// Project every star and plot its pixel footprint at the fixed far
    /// depth; stars behind the camera or off the raster contribute nothing.
    /// The final buffer contents and draw color are exactly the fold of the
    /// stars' drawing commands over the starting state; dimensions and
    /// background are untouched.
    #[verifier::rlimit(60)]
    pub fn render(&self, framebuffer: &mut Framebuffer, uniforms: &Uniforms, camera_position: Vec3)
        requires
            old(framebuffer).wf(),
            old(framebuffer).width <= 0x7fffffffffffffff,
            old(framebuffer).height <= 0x7fffffffffffffff,
            self.wf(),
        ensures
            final(framebuffer).wf(),
            final(framebuffer).width == old(framebuffer).width,
            final(framebuffer).height == old(framebuffer).height,
            final(framebuffer).background_color == old(framebuffer).background_color,
            depth_monotonic(*old(framebuffer), *final(framebuffer)),
            fb_state(*final(framebuffer)) == spec_apply_writes(
                old(framebuffer).width as int,
                old(framebuffer).height as int,
                fb_state(*old(framebuffer)),
                spec_skybox_writes(
                    *uniforms,
                    self.stars@,
                    camera_position,
                    old(framebuffer).width as int,
                    old(framebuffer).height as int,
                ),
            ),
    {
        let ghost wi = old(framebuffer).width as int;
        let ghost hi = old(framebuffer).height as int;
        let ghost s0 = fb_state(*old(framebuffer));
        let n = self.stars.len();
        let mut i: usize = 0;
        while i < n
            invariant
                wi == old(framebuffer).width as int,
                hi == old(framebuffer).height as int,
                s0 == fb_state(*old(framebuffer)),
                n == self.stars@.len(),
                i <= n,
                self.wf(),
                framebuffer.wf(),
                framebuffer.width <= 0x7fffffffffffffff,
                framebuffer.height <= 0x7fffffffffffffff,
                framebuffer.width == old(framebuffer).width,
                framebuffer.height == old(framebuffer).height,
                framebuffer.background_color == old(framebuffer).background_color,
                depth_monotonic(*old(framebuffer), *framebuffer),
                fb_state(*framebuffer) == spec_apply_writes(
                    wi,
                    hi,
                    s0,
                    spec_skybox_writes(
                        *uniforms,
                        self.stars@.subrange(0, i as int),
                        camera_position,
                        wi,
                        hi,
                    ),
                ),
            decreases n - i,
        {
            let star = self.stars[i];
            let w = framebuffer.width;
            let h = framebuffer.height;
            let ghost done = spec_skybox_writes(
                *uniforms,
                self.stars@.subrange(0, i as int),
                camera_position,
                wi,
                hi,
            );
            let ghost sw = spec_star_writes(*uniforms, star, camera_position, wi, hi);
            proof {
                assert(self.stars@.subrange(0, i as int + 1).drop_last() =~= self.stars@.subrange(
                    0,
                    i as int,
                ));
                assert(self.stars@.subrange(0, i as int + 1).last() == star);
                lemma_apply_append(wi, hi, s0, done, sw);
            }
            if let Option::Some((x, y)) = project_star(
                star.position,
                camera_position,
                uniforms,
                w,
                h,
            ) {
                let ghost sst = fb_state(*framebuffer);
                let gray: u8 = ((star.brightness * 255) / SCALE) as u8;
                let color = Color::new(gray, gray, gray);
                let hex = color.to_hex();
                let ghost c = hex;
                proof {
                    assert(gray as int == spec_star_gray(star));
                    assert(c as int == spec_star_color(star));
                }
                framebuffer.set_current_color(hex);
                let ghost sst2 = fb_state(*framebuffer);
                let ghost start = *old(framebuffer);
                let ghost mut acc: Seq<(int, int, i64, u32)> = Seq::empty();
                if star.size == 1 {
                    star_point(framebuffer, x, y, Ghost(start));
                    proof {
                        let wr = (x as int, y as int, STAR_DEPTH, c);
                        lemma_apply_push(wi, hi, sst2, acc, wr);
                        acc = acc.push(wr);
                        assert(fb_state(*framebuffer) == spec_apply_writes(wi, hi, sst2, acc));
                    }
                } else if star.size == 2 {
                    star_point(framebuffer, x, y, Ghost(start));
                    proof {
                        let wr = (x as int, y as int, STAR_DEPTH, c);
                        lemma_apply_push(wi, hi, sst2, acc, wr);
                        acc = acc.push(wr);
                        assert(fb_state(*framebuffer) == spec_apply_writes(wi, hi, sst2, acc));
                    }
                    star_point(framebuffer, x + 1, y, Ghost(start));
                    proof {
                        let wr = (x as int + 1, y as int, STAR_DEPTH, c);
                        lemma_apply_push(wi, hi, sst2, acc, wr);
                        acc = acc.push(wr);
                        assert(fb_state(*framebuffer) == spec_apply_writes(wi, hi, sst2, acc));
                    }
                    star_point(framebuffer, x, y + 1, Ghost(start));
                    proof {
                        let wr = (x as int, y as int + 1, STAR_DEPTH, c);
                        lemma_apply_push(wi, hi, sst2, acc, wr);
                        acc = acc.push(wr);
                        assert(fb_state(*framebuffer) == spec_apply_writes(wi, hi, sst2, acc));
                    }
                    star_point(framebuffer, x + 1, y + 1, Ghost(start));
                    proof {
                        let wr = (x as int + 1, y as int + 1, STAR_DEPTH, c);
                        lemma_apply_push(wi, hi, sst2, acc, wr);
                        acc = acc.push(wr);
                        assert(fb_state(*framebuffer) == spec_apply_writes(wi, hi, sst2, acc));
                    }
                } else {
                    star_point(framebuffer, x, y, Ghost(start));
                    proof {
                        let wr = (x as int, y as int, STAR_DEPTH, c);
                        lemma_apply_push(wi, hi, sst2, acc, wr);
                        acc = acc.push(wr);
                        assert(fb_state(*framebuffer) == spec_apply_writes(wi, hi, sst2, acc));
                    }
                    if x > 0 {
                        star_point(framebuffer, x - 1, y, Ghost(start));
                        proof {
                            let wr = (x as int - 1, y as int, STAR_DEPTH, c);
                            lemma_apply_push(wi, hi, sst2, acc, wr);
                            acc = acc.push(wr);
                            assert(fb_state(*framebuffer) == spec_apply_writes(wi, hi, sst2, acc));
                        }
                    }
                    star_point(framebuffer, x + 1, y, Ghost(start));
                    proof {
                        let wr = (x as int + 1, y as int, STAR_DEPTH, c);
                        lemma_apply_push(wi, hi, sst2, acc, wr);
                        acc = acc.push(wr);
                        assert(fb_state(*framebuffer) == spec_apply_writes(wi, hi, sst2, acc));
                    }
                    if y > 0 {
                        star_point(framebuffer, x, y - 1, Ghost(start));
                        proof {
                            let wr = (x as int, y as int - 1, STAR_DEPTH, c);
                            lemma_apply_push(wi, hi, sst2, acc, wr);
                            acc = acc.push(wr);
                            assert(fb_state(*framebuffer) == spec_apply_writes(wi, hi, sst2, acc));
                        }
                    }
                    star_point(framebuffer, x, y + 1, Ghost(start));
                    proof {
                        let wr = (x as int, y as int + 1, STAR_DEPTH, c);
                        lemma_apply_push(wi, hi, sst2, acc, wr);
                        acc = acc.push(wr);
                        assert(fb_state(*framebuffer) == spec_apply_writes(wi, hi, sst2, acc));
                    }
                }
                proof {
                    assert(acc =~= sw);
                    lemma_apply_ignores_current(wi, hi, sst2, sst, sw);
                }
            } else {
                proof {
                    assert(sw =~= Seq::<(int, int, i64, u32)>::empty());
                    assert(done + sw =~= done);
                }
            }
            proof {
                assert(spec_skybox_writes(
                    *uniforms,
                    self.stars@.subrange(0, i as int + 1),
                    camera_position,
                    wi,
                    hi,
                ) == done + sw);
            }
            i += 1;
        }
        proof {
            assert(self.stars@.subrange(0, n as int) =~= self.stars@);
        }
    }
}

/// The clip-space position of a star translated by the camera (stars ride
/// with the camera, simulating infinite distance).
pub open spec fn spec_star_clip(u: Uniforms, position: Vec3, camera: Vec3) -> Vec4 {
    let rel = Vec3 {
        x: spec_fx_add(position.x as int, camera.x as int) as i64,
        y: spec_fx_add(position.y as int, camera.y as int) as i64,
        z: spec_fx_add(position.z as int, camera.z as int) as i64,
    };
    spec_mat4_mul_vec4(
        u.projection_matrix,
        spec_mat4_mul_vec4(u.view_matrix, Vec4 { x: rel.x, y: rel.y, z: rel.z, w: SCALE }),
    )
}

/// The screen position of a star with positive clip `w`.
pub open spec fn spec_star_screen(u: Uniforms, clip: Vec4) -> Vec4 {
    spec_mat4_mul_vec4(
        u.viewport_matrix,
        Vec4 {
            x: spec_fx_div(clip.x as int, clip.w as int) as i64,
            y: spec_fx_div(clip.y as int, clip.w as int) as i64,
            z: spec_fx_div(clip.z as int, clip.w as int) as i64,
            w: SCALE,
        },
    )
}

/// Where a star lands on the raster, if anywhere: stars behind the camera
/// (clip `w <= 0`), with negative projected depth, or off the raster are
/// skipped.
pub open spec fn spec_project_star(
    u: Uniforms,
    position: Vec3,
    camera: Vec3,
    w: int,
    h: int,
) -> Option<(int, int)> {
    let clip = spec_star_clip(u, position, camera);
    if clip.w <= 0 {
        Option::None
    } else {
        let screen = spec_star_screen(u, clip);
        if screen.z < 0 {
            Option::None
        } else {
            let px = (screen.x as int) / (SCALE as int);
            let py = (screen.y as int) / (SCALE as int);
            if px < 0 || py < 0 || px >= w || py >= h {
                Option::None
            } else {
                Option::Some((px, py))
            }
        }
    }
}

/// Project one star against the render target. A star directly behind the
/// camera (clip `w <= 0`) is always skipped.
pub fn project_star(
    position: Vec3,
    camera: Vec3,
    uniforms: &Uniforms,
    width: usize,
    height: usize,
) -> (r: Option<(usize, usize)>)
    requires
        width <= 0x7fffffffffffffff,
        height <= 0x7fffffffffffffff,
    ensures
        ({
            let sp = spec_project_star(*uniforms, position, camera, width as int, height as int);
            &&& (r is None <==> sp is None)
            &&& (r is Some ==> sp == Option::Some(
                (r->Some_0.0 as int, r->Some_0.1 as int),
            ))
            &&& (spec_star_clip(*uniforms, position, camera).w <= 0 ==> r is None)
        }),
{
    let rel = Vec3 {
        x: fx_add(position.x, camera.x),
        y: fx_add(position.y, camera.y),
        z: fx_add(position.z, camera.z),
    };
    let pos4 = Vec4 { x: rel.x, y: rel.y, z: rel.z, w: SCALE };
    let vv = mat4_mul_vec4(uniforms.view_matrix, pos4);
    let clip = mat4_mul_vec4(uniforms.projection_matrix, vv);
    if clip.w <= 0 {
        return Option::None;
    }
    let ndc = Vec4 {
        x: fx_div(clip.x, clip.w),
        y: fx_div(clip.y, clip.w),
        z: fx_div(clip.z, clip.w),
        w: SCALE,
    };
    let screen = mat4_mul_vec4(uniforms.viewport_matrix, ndc);
    if screen.z < 0 {
        return Option::None;
    }
    let px = fx_floor(screen.x);
    let py = fx_floor(screen.y);
    if px < 0 || py < 0 {
        return Option::None;
    }
    let wi = width as i64;
    let hi = height as i64;
    if px >= wi || py >= hi {
        return Option::None;
    }
    Option::Some((px as usize, py as usize))
}

} // verus!
