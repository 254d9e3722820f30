//! The shading stages: the vertex transform and the procedural fragment
//! shaders. Every shader is a pure function of the fragment and the
//! uniforms: its contract pins the exact color, so identical inputs give
//! identical output.
use vstd::prelude::*;
use crate::color::{spec_color_add, spec_color_lerp, spec_color_scale, Color};
use crate::fragment::Fragment;
use crate::fx::{
    fx_abs, fx_add, fx_clamp, fx_div, fx_mul, fx_scale, fx_sin, fx_sub, spec_clamp, spec_fx_abs,
    spec_fx_add, spec_fx_div, spec_fx_mul, spec_fx_scale, spec_fx_sin, spec_fx_sub,
    spec_time_scaled, time_scaled, SCALE,
};
use crate::geometry::{
    magnitude, mat3_mul_vec3, mat4_mul_vec4, normal_matrix, spec_magnitude, spec_mat3_mul_vec3,
    spec_mat4_mul_vec4, spec_mat4_upper3_bounded, spec_normal_matrix, Mat4, Vec3, Vec4,
};
use crate::noise::{spec_noise2, spec_noise3, Noise};
use crate::vertex::Vertex;

use rand::Rng;
use rand::SeedableRng;

verus! {

/// The read-only per-draw-call bundle: transform matrices, the animation
/// clock, and a shared noise generator handle.
#[derive(Clone, Copy, Debug, PartialEq, Eq, Structural)]
pub struct Uniforms {
    pub model_matrix: Mat4,
    pub view_matrix: Mat4,
    pub projection_matrix: Mat4,
    pub viewport_matrix: Mat4,
    pub time: u32,
    pub noise: Noise,
}

/// The clip-space position of a model-space point: projection, view and
/// model matrices applied in turn.
pub open spec fn spec_clip_position(u: Uniforms, p: Vec3) -> Vec4 {
    spec_mat4_mul_vec4(
        u.projection_matrix,
        spec_mat4_mul_vec4(
            u.view_matrix,
            spec_mat4_mul_vec4(u.model_matrix, Vec4 { x: p.x, y: p.y, z: p.z, w: SCALE }),
        ),
    )
}

/// Perspective division and the viewport transform. A clip position with
/// zero `w` degrades to the screen origin rather than failing.
pub open spec fn spec_screen_position(u: Uniforms, clip: Vec4) -> Vec3 {
    if clip.w != 0 {
        let ndc = Vec4 {
            x: spec_fx_div(clip.x as int, clip.w as int) as i64,
            y: spec_fx_div(clip.y as int, clip.w as int) as i64,
            z: spec_fx_div(clip.z as int, clip.w as int) as i64,
            w: SCALE,
        };
        let s = spec_mat4_mul_vec4(u.viewport_matrix, ndc);
        Vec3 { x: s.x, y: s.y, z: s.z }
    } else {
        Vec3 { x: 0, y: 0, z: 0 }
    }
}

/// The whole vertex transform stage: the screen position and the normal
/// carried through the normal matrix; model-space fields pass unchanged.
pub open spec fn spec_vertex_shader(v: Vertex, u: Uniforms) -> Vertex {
    Vertex {
        position: v.position,
        normal: v.normal,
        tex_coords: v.tex_coords,
        color: v.color,
        transformed_position: spec_screen_position(u, spec_clip_position(u, v.position)),
        transformed_normal: spec_mat3_mul_vec3(spec_normal_matrix(u.model_matrix), v.normal),
    }
}

/// Transform one vertex into screen space, carrying its attributes along.
pub fn vertex_shader(vertex: &Vertex, uniforms: &Uniforms) -> (out: Vertex)
    requires
        spec_mat4_upper3_bounded(uniforms.model_matrix),
    ensures
        out == spec_vertex_shader(*vertex, *uniforms),
        out.position == vertex.position,
        out.normal == vertex.normal,
        out.tex_coords == vertex.tex_coords,
        out.color == vertex.color,
{
    let p = vertex.position;
    let pos4 = Vec4 { x: p.x, y: p.y, z: p.z, w: SCALE };
    let mv = mat4_mul_vec4(uniforms.model_matrix, pos4);
    let vv = mat4_mul_vec4(uniforms.view_matrix, mv);
    let clip = mat4_mul_vec4(uniforms.projection_matrix, vv);
    let screen = if clip.w != 0 {
        let ndc = Vec4 {
            x: fx_div(clip.x, clip.w),
            y: fx_div(clip.y, clip.w),
            z: fx_div(clip.z, clip.w),
            w: SCALE,
        };
        let s = mat4_mul_vec4(uniforms.viewport_matrix, ndc);
        Vec3 { x: s.x, y: s.y, z: s.z }
    } else {
        Vec3 { x: 0, y: 0, z: 0 }
    };
    let nm = normal_matrix(uniforms.model_matrix);
    let tn = mat3_mul_vec3(nm, vertex.normal);
    Vertex {
        position: vertex.position,
        normal: vertex.normal,
        tex_coords: vertex.tex_coords,
        color: vertex.color,
        transformed_position: screen,
        transformed_normal: tn,
    }
}

/// Noise scaled from `[-SCALE, SCALE]` into the unit range `[0, SCALE]`.
pub open spec fn spec_unit_noise(nv: int) -> int {
    spec_fx_add(spec_fx_mul(nv, 32768), 32768)
}

fn unit_noise(nv: i64) -> (r: i64)
    ensures
        r == spec_unit_noise(nv as int),
{
    fx_add(fx_mul(nv, 32768), 32768)
}

/// The distance-based atmospheric glow factor: full at the origin, gone
/// ten units out.
pub open spec fn spec_glow_factor(pos: Vec3) -> int {
    spec_clamp(
        spec_fx_sub(SCALE as int, spec_fx_div(spec_magnitude(pos), 655360)),
        0,
        SCALE as int,
    )
}

fn glow_factor(pos: Vec3) -> (r: i64)
    ensures
        r == spec_glow_factor(pos),
{
    fx_clamp(fx_sub(SCALE, fx_div(magnitude(pos), 655360)), 0, SCALE)
}

/// Molten surface: two offset solid-noise samples averaged, with a
/// time-driven pulsation fed into the depth coordinate, blended from a
/// dark to a bright tone and lit by the fragment intensity.
pub open spec fn spec_lava_shader(f: Fragment, u: Uniforms) -> Color {
    let t = spec_time_scaled(u.time as int, 100);
    let pulsate = spec_fx_mul(spec_fx_sin(spec_fx_mul(t, 13107)), 32768);
    let n1 = spec_noise3(
        u.noise.seed,
        spec_fx_scale(f.vertex_position.x as int, 1000),
        spec_fx_scale(f.vertex_position.y as int, 1000),
        spec_fx_scale(spec_fx_add(f.depth as int, pulsate), 1000),
    );
    let n2 = spec_noise3(
        u.noise.seed,
        spec_fx_scale(spec_fx_add(f.vertex_position.x as int, 1000 * (SCALE as int)), 1000),
        spec_fx_scale(spec_fx_add(f.vertex_position.y as int, 1000 * (SCALE as int)), 1000),
        spec_fx_scale(spec_fx_add(spec_fx_add(f.depth as int, 1000 * (SCALE as int)), pulsate), 1000),
    );
    let nv = spec_fx_mul(spec_fx_add(n1, n2), 32768);
    let dark = Color { r: 130, g: 20, b: 0 };
    let bright = Color { r: 255, g: 240, b: 0 };
    spec_color_scale(spec_color_lerp(dark, bright, nv), f.intensity as int)
}

pub fn lava_planet_shader(fragment: &Fragment, uniforms: &Uniforms) -> (c: Color)
    ensures
        c == spec_lava_shader(*fragment, *uniforms),
{
    let t = time_scaled(uniforms.time, 100);
    let pulsate = fx_mul(fx_sin(fx_mul(t, 13107)), 32768);
    let p = fragment.vertex_position;
    let n1 = uniforms.noise.noise3(
        fx_scale(p.x, 1000),
        fx_scale(p.y, 1000),
        fx_scale(fx_add(fragment.depth, pulsate), 1000),
    );
    let n2 = uniforms.noise.noise3(
        fx_scale(fx_add(p.x, 1000 * SCALE), 1000),
        fx_scale(fx_add(p.y, 1000 * SCALE), 1000),
        fx_scale(fx_add(fx_add(fragment.depth, 1000 * SCALE), pulsate), 1000),
    );
    let nv = fx_mul(fx_add(n1, n2), 32768);
    let dark = Color::new(130, 20, 0);
    let bright = Color::new(255, 240, 0);
    dark.lerp(bright, nv).scale(fragment.intensity)
}

/// The per-fragment seed of the banded gas planet's random draw.
pub open spec fn spec_gas_seed(f: Fragment, u: Uniforms) -> u64 {
    spec_fx_abs(
        spec_fx_mul(
            spec_fx_mul(spec_fx_scale(SCALE as int, u.time as int), f.vertex_position.y as int),
            f.vertex_position.x as int,
        ),
    ) as u64
}

/// What rand's seeded generator draws in `0..=100` for a given seed: a
/// pure function of the seed alone.
pub uninterp spec fn percent_draw(seed: u64) -> u8;

/// Relies on rand's `StdRng`: `seed_from_u64` builds the generator from
/// the seed alone and `gen_range(0..=100)` then draws deterministically
/// from it, so the result is a function of the seed, within `0..=100`.
#[verifier::external_body]
fn seeded_percent(seed: u64) -> (r: u8)
    ensures
        r == percent_draw(seed),
        r <= 100,
{
    let mut rng = rand::rngs::StdRng::seed_from_u64(seed);
    rng.gen_range(0..=100)
}

/// The gas planet's color for a given percentage draw: a cloud mix picked
/// by the draw, an inverted-noise shadow, and a height-based glow.
pub open spec fn spec_gas_planet_with_draw(f: Fragment, u: Uniforms, draw: u8) -> Color {
    let base = Color { r: 70, g: 130, b: 180 };
    let cloud = Color { r: 255, g: 255, b: 255 };
    let shadow = Color { r: 50, g: 50, b: 100 };
    let glow = Color { r: 200, g: 200, b: 255 };
    let nv = spec_noise2(
        u.noise.seed,
        spec_fx_scale(f.vertex_position.x as int, 5),
        spec_fx_scale(f.vertex_position.z as int, 5),
    );
    let half = spec_unit_noise(nv);
    let cloud_factor = spec_fx_mul(half, half);
    let planet_color = if draw < 50 {
        spec_color_add(
            spec_color_scale(base, spec_fx_sub(SCALE as int, cloud_factor)),
            spec_color_scale(cloud, cloud_factor),
        )
    } else {
        spec_color_scale(cloud, cloud_factor)
    };
    let shadow_factor = spec_clamp(spec_fx_sub(SCALE as int, nv), 0, i64::MAX as int);
    let shadow_effect = spec_color_scale(spec_color_scale(shadow, shadow_factor), 19661);
    let glow_f = spec_fx_sub(
        SCALE as int,
        spec_clamp(spec_fx_div(f.vertex_position.y as int, 655360), 0, SCALE as int),
    );
    let final_glow = spec_color_scale(spec_color_scale(glow, glow_f), 6554);
    spec_color_add(spec_color_add(planet_color, shadow_effect), final_glow)
}

/// The gas planet's color once the seeded draw is fixed; public so the
/// draw-dependent logic is checkable for every draw value.
pub fn gas_planet_with_draw(fragment: &Fragment, uniforms: &Uniforms, draw: u8) -> (c: Color)
    ensures
        c == spec_gas_planet_with_draw(*fragment, *uniforms, draw),
{
    let base = Color::new(70, 130, 180);
    let cloud = Color::new(255, 255, 255);
    let shadow = Color::new(50, 50, 100);
    let glow = Color::new(200, 200, 255);
    let p = fragment.vertex_position;
    let nv = uniforms.noise.noise2(fx_scale(p.x, 5), fx_scale(p.z, 5));
    let half = unit_noise(nv);
    let cloud_factor = fx_mul(half, half);
    let planet_color = if draw < 50 {
        base.scale(fx_sub(SCALE, cloud_factor)).add(cloud.scale(cloud_factor))
    } else {
        cloud.scale(cloud_factor)
    };
    let shadow_factor = fx_clamp(fx_sub(SCALE, nv), 0, i64::MAX);
    let shadow_effect = shadow.scale(shadow_factor).scale(19661);
    let glow_f = fx_sub(SCALE, fx_clamp(fx_div(p.y, 655360), 0, SCALE));
    let final_glow = glow.scale(glow_f).scale(6554);
    planet_color.add(shadow_effect).add(final_glow)
}

/// Cloud-banded gas planet: a per-fragment seeded draw picks the dominant
/// mix between base and cloud colors.
pub open spec fn spec_gas_planet_color(f: Fragment, u: Uniforms) -> Color {
    spec_gas_planet_with_draw(f, u, percent_draw(spec_gas_seed(f, u)))
}

pub fn gas_planet_color(fragment: &Fragment, uniforms: &Uniforms) -> (c: Color)
    ensures
        c == spec_gas_planet_color(*fragment, *uniforms),
{
    let tf = fx_scale(SCALE, uniforms.time as i64);
    let s1 = fx_mul(tf, fragment.vertex_position.y);
    let s2 = fx_mul(s1, fragment.vertex_position.x);
    let seed = fx_abs(s2) as u64;
    let draw = seeded_percent(seed);
    gas_planet_with_draw(fragment, uniforms, draw)
}

/// The sun: scrolling planar noise picks bright surface or dark spots,
/// blended over a red-orange base, plus a distance glow lit by intensity.
pub open spec fn spec_sun_shader(f: Fragment, u: Uniforms) -> Color {
    let t = spec_time_scaled(u.time as int, 100);
    let nv = spec_noise2(
        u.noise.seed,
        spec_fx_add(spec_fx_scale(f.vertex_position.x as int, 50), t),
        spec_fx_add(spec_fx_scale(f.vertex_position.y as int, 50), t),
    );
    let bright = Color { r: 255, g: 255, b: 102 };
    let dark_spot = Color { r: 139, g: 0, b: 0 };
    let base = Color { r: 255, g: 69, b: 0 };
    let glow = Color { r: 255, g: 69, b: 0 };
    let noise_color = if nv < 39322 {
        bright
    } else {
        dark_spot
    };
    let glow_f = spec_glow_factor(f.vertex_position);
    let final_glow = spec_color_scale(spec_color_scale(glow, glow_f), 6554);
    let final_color = spec_color_lerp(base, noise_color, spec_clamp(nv, 0, SCALE as int));
    spec_color_add(final_color, spec_color_scale(final_glow, f.intensity as int))
}

pub fn sun_shader(fragment: &Fragment, uniforms: &Uniforms) -> (c: Color)
    ensures
        c == spec_sun_shader(*fragment, *uniforms),
{
    let t = time_scaled(uniforms.time, 100);
    let p = fragment.vertex_position;
    let nv = uniforms.noise.noise2(fx_add(fx_scale(p.x, 50), t), fx_add(fx_scale(p.y, 50), t));
    let bright = Color::new(255, 255, 102);
    let dark_spot = Color::new(139, 0, 0);
    let base = Color::new(255, 69, 0);
    let glow = Color::new(255, 69, 0);
    let noise_color = if nv < 39322 {
        bright
    } else {
        dark_spot
    };
    let glow_f = glow_factor(p);
    let final_glow = glow.scale(glow_f).scale(6554);
    let final_color = base.lerp(noise_color, fx_clamp(nv, 0, SCALE));
    final_color.add(final_glow.scale(fragment.intensity))
}

/// Rocky planet: high-frequency solid noise models craters, squared and
/// blended between surface and crater tones, lit by intensity.
pub open spec fn spec_rocky_shader(f: Fragment, u: Uniforms) -> Color {
    let base = Color { r: 139, g: 69, b: 19 };
    let crater = Color { r: 105, g: 105, b: 105 };
    let cn = spec_fx_abs(
        spec_noise3(
            u.noise.seed,
            spec_fx_scale(f.vertex_position.x as int, 10),
            spec_fx_scale(f.vertex_position.y as int, 10),
            spec_fx_scale(f.vertex_position.z as int, 10),
        ),
    );
    let c0 = spec_clamp(spec_fx_sub(cn, 32768), 0, SCALE as int);
    let crater_factor = spec_fx_mul(c0, c0);
    spec_color_scale(spec_color_lerp(base, crater, crater_factor), f.intensity as int)
}

pub fn rocky_planet_shader(fragment: &Fragment, uniforms: &Uniforms) -> (c: Color)
    ensures
        c == spec_rocky_shader(*fragment, *uniforms),
{
    let base = Color::new(139, 69, 19);
    let crater = Color::new(105, 105, 105);
    let p = fragment.vertex_position;
    let cn = fx_abs(uniforms.noise.noise3(fx_scale(p.x, 10), fx_scale(p.y, 10), fx_scale(p.z, 10)));
    let c0 = fx_clamp(fx_sub(cn, 32768), 0, SCALE);
    let crater_factor = fx_mul(c0, c0);
    base.lerp(crater, crater_factor).scale(fragment.intensity)
}

/// Banded gas giant: horizontal sine bands modulated by solid-noise
/// turbulence, plus a distance glow.
pub open spec fn spec_gas_giant_shader(f: Fragment, u: Uniforms) -> Color {
    let base = Color { r: 70, g: 130, b: 180 };
    let band = Color { r: 255, g: 255, b: 255 };
    let glow = Color { r: 200, g: 200, b: 255 };
    let band_factor = spec_fx_abs(spec_fx_sin(spec_fx_scale(f.vertex_position.y as int, 10)));
    let turbulence = spec_fx_abs(
        spec_noise3(
            u.noise.seed,
            spec_fx_scale(f.vertex_position.x as int, 5),
            spec_fx_scale(f.vertex_position.y as int, 5),
            spec_time_scaled(u.time as int, 100),
        ),
    );
    let gas = spec_color_lerp(base, band, spec_fx_mul(band_factor, turbulence));
    let final_glow = spec_color_scale(
        spec_color_scale(glow, spec_glow_factor(f.vertex_position)),
        6554,
    );
    spec_color_add(gas, final_glow)
}

pub fn gas_giant_shader(fragment: &Fragment, uniforms: &Uniforms) -> (c: Color)
    ensures
        c == spec_gas_giant_shader(*fragment, *uniforms),
{
    let base = Color::new(70, 130, 180);
    let band = Color::new(255, 255, 255);
    let glow = Color::new(200, 200, 255);
    let p = fragment.vertex_position;
    let band_factor = fx_abs(fx_sin(fx_scale(p.y, 10)));
    let turbulence = fx_abs(
        uniforms.noise.noise3(fx_scale(p.x, 5), fx_scale(p.y, 5), time_scaled(uniforms.time, 100)),
    );
    let gas = base.lerp(band, fx_mul(band_factor, turbulence));
    let final_glow = glow.scale(glow_factor(p)).scale(6554);
    gas.add(final_glow)
}

/// Ice planet: solid noise squared into a blend between a white-blue base
/// and an icy blue, plus a distance glow.
pub open spec fn spec_ice_shader(f: Fragment, u: Uniforms) -> Color {
    let base = Color { r: 240, g: 248, b: 255 };
    let ice = Color { r: 173, g: 216, b: 230 };
    let glow = Color { r: 200, g: 200, b: 255 };
    let nv = spec_noise3(
        u.noise.seed,
        spec_fx_scale(f.vertex_position.x as int, 5),
        spec_fx_scale(f.vertex_position.y as int, 5),
        spec_fx_scale(f.vertex_position.z as int, 5),
    );
    let half = spec_unit_noise(nv);
    let ice_factor = spec_fx_mul(half, half);
    let color = spec_color_lerp(base, ice, ice_factor);
    let final_glow = spec_color_scale(
        spec_color_scale(glow, spec_glow_factor(f.vertex_position)),
        6554,
    );
    spec_color_add(color, final_glow)
}

pub fn ice_planet_shader(fragment: &Fragment, uniforms: &Uniforms) -> (c: Color)
    ensures
        c == spec_ice_shader(*fragment, *uniforms),
{
    let base = Color::new(240, 248, 255);
    let ice = Color::new(173, 216, 230);
    let glow = Color::new(200, 200, 255);
    let p = fragment.vertex_position;
    let nv = uniforms.noise.noise3(fx_scale(p.x, 5), fx_scale(p.y, 5), fx_scale(p.z, 5));
    let half = unit_noise(nv);
    let ice_factor = fx_mul(half, half);
    let color = base.lerp(ice, ice_factor);
    let final_glow = glow.scale(glow_factor(p)).scale(6554);
    color.add(final_glow)
}

/// Water waves: a time-shifted radial sine ripple blends two blue tones,
/// lit by intensity.
pub open spec fn spec_wave_shader(f: Fragment, u: Uniforms) -> Color {
    let t = spec_fx_mul(spec_fx_scale(SCALE as int, u.time as int), 19661);
    let d = spec_magnitude(Vec3 { x: f.vertex_position.x, y: f.vertex_position.y, z: 0 });
    let ripple = spec_fx_mul(spec_fx_sin(spec_fx_scale(spec_fx_sub(d, t), 10)), 4588);
    let base = Color { r: 70, g: 130, b: 180 };
    let ripple_color = Color { r: 173, g: 216, b: 230 };
    let cf = spec_clamp(ripple, 0, SCALE as int);
    spec_color_scale(spec_color_lerp(base, ripple_color, cf), f.intensity as int)
}

pub fn wave_shader(fragment: &Fragment, uniforms: &Uniforms) -> (c: Color)
    ensures
        c == spec_wave_shader(*fragment, *uniforms),
{
    let t = fx_mul(fx_scale(SCALE, uniforms.time as i64), 19661);
    let p = fragment.vertex_position;
    let d = magnitude(Vec3 { x: p.x, y: p.y, z: 0 });
    let ripple = fx_mul(fx_sin(fx_scale(fx_sub(d, t), 10)), 4588);
    let base = Color::new(70, 130, 180);
    let ripple_color = Color::new(173, 216, 230);
    let cf = fx_clamp(ripple, 0, SCALE);
    base.lerp(ripple_color, cf).scale(fragment.intensity)
}

/// The moon: planar noise against a pulsating crater threshold picks one
/// of three gray tones, lit by intensity.
pub open spec fn spec_moon_shader(f: Fragment, u: Uniforms) -> Color {
    let t = spec_time_scaled(u.time as int, 10);
    let pulsate = spec_fx_mul(spec_fx_sin(spec_fx_mul(t, 32768)), 3277);
    let sn = spec_noise2(
        u.noise.seed,
        spec_fx_add(spec_fx_scale(f.vertex_position.x as int, 50), t),
        spec_fx_add(spec_fx_scale(f.vertex_position.y as int, 50), t),
    );
    let gray = Color { r: 200, g: 200, b: 200 };
    let bright_crater = Color { r: 220, g: 220, b: 220 };
    let dynamic = Color { r: 250, g: 250, b: 250 };
    let ct = spec_fx_add(26214, pulsate);
    let base = if sn > ct {
        gray
    } else if sn > spec_fx_sub(ct, 6554) {
        bright_crater
    } else {
        dynamic
    };
    spec_color_scale(base, f.intensity as int)
}

pub fn moon_shader(fragment: &Fragment, uniforms: &Uniforms) -> (c: Color)
    ensures
        c == spec_moon_shader(*fragment, *uniforms),
{
    let t = time_scaled(uniforms.time, 10);
    let pulsate = fx_mul(fx_sin(fx_mul(t, 32768)), 3277);
    let p = fragment.vertex_position;
    let sn = uniforms.noise.noise2(fx_add(fx_scale(p.x, 50), t), fx_add(fx_scale(p.y, 50), t));
    let gray = Color::new(200, 200, 200);
    let bright_crater = Color::new(220, 220, 220);
    let dynamic = Color::new(250, 250, 250);
    let ct = fx_add(26214, pulsate);
    let base = if sn > ct {
        gray
    } else if sn > fx_sub(ct, 6554) {
        bright_crater
    } else {
        dynamic
    };
    base.scale(fragment.intensity)
}

/// Atmosphere: time-scrolled solid noise blends sky blue toward white.
pub open spec fn spec_atmospheric_shader(f: Fragment, u: Uniforms) -> Color {
    let nv = spec_noise3(
        u.noise.seed,
        spec_fx_scale(f.vertex_position.x as int, 5),
        spec_fx_scale(f.vertex_position.y as int, 5),
        spec_time_scaled(u.time as int, 50),
    );
    let base = Color { r: 70, g: 130, b: 180 };
    let cloud = Color { r: 255, g: 255, b: 255 };
    spec_color_lerp(base, cloud, spec_unit_noise(nv))
}

pub fn atmospheric_shader(fragment: &Fragment, uniforms: &Uniforms) -> (c: Color)
    ensures
        c == spec_atmospheric_shader(*fragment, *uniforms),
{
    let p = fragment.vertex_position;
    let nv = uniforms.noise.noise3(
        fx_scale(p.x, 5),
        fx_scale(p.y, 5),
        time_scaled(uniforms.time, 50),
    );
    let base = Color::new(70, 130, 180);
    let cloud = Color::new(255, 255, 255);
    base.lerp(cloud, unit_noise(nv))
}

/// A dynamic land-and-water surface: time-scrolled solid noise blends
/// green land toward blue water.
pub open spec fn spec_dynamic_surface_shader(f: Fragment, u: Uniforms) -> Color {
    let nv = spec_noise3(
        u.noise.seed,
        spec_fx_scale(f.vertex_position.x as int, 3),
        spec_fx_scale(f.vertex_position.z as int, 3),
        spec_time_scaled(u.time as int, 100),
    );
    let land = Color { r: 34, g: 139, b: 34 };
    let water = Color { r: 30, g: 144, b: 255 };
    spec_color_lerp(land, water, spec_unit_noise(nv))
}

pub fn dynamic_surface_shader(fragment: &Fragment, uniforms: &Uniforms) -> (c: Color)
    ensures
        c == spec_dynamic_surface_shader(*fragment, *uniforms),
{
    let p = fragment.vertex_position;
    let nv = uniforms.noise.noise3(
        fx_scale(p.x, 3),
        fx_scale(p.z, 3),
        time_scaled(uniforms.time, 100),
    );
    let land = Color::new(34, 139, 34);
    let water = Color::new(30, 144, 255);
    land.lerp(water, unit_noise(nv))
}

/// Earth with clouds: a latitude threshold picks polar snow, surface noise
/// picks land, desert or ocean, and an independent cloud layer is blended
/// on top; the whole is lit by intensity.
pub open spec fn spec_earth_clouds_shader(f: Fragment, u: Uniforms) -> Color {
    let t = spec_time_scaled(u.time as int, 10);
    let x = f.vertex_position.x as int;
    let y = f.vertex_position.y as int;
    let sn = spec_noise2(
        u.noise.seed,
        spec_fx_add(spec_fx_scale(x, 80), t),
        spec_fx_scale(y, 80),
    );
    let ocean = Color { r: 0, g: 105, b: 148 };
    let land = Color { r: 34, g: 139, b: 34 };
    let desert = Color { r: 210, g: 180, b: 140 };
    let snow = Color { r: 255, g: 250, b: 250 };
    let base = if spec_fx_abs(y) > 45875 {
        snow
    } else if sn > 26214 {
        land
    } else if sn > 19661 {
        desert
    } else {
        ocean
    };
    let t_half = spec_fx_mul(t, 32768);
    let cn = spec_noise2(
        u.noise.seed,
        spec_fx_add(spec_fx_scale(x, 100), t_half),
        spec_fx_add(spec_fx_scale(y, 100), t_half),
    );
    let cloud = Color { r: 255, g: 255, b: 255 };
    let sky = Color { r: 135, g: 206, b: 250 };
    let cloud_intensity = spec_fx_sub(spec_clamp(cn, 26214, 45875), 26214);
    let final_color = if cn > 39322 {
        spec_color_lerp(base, cloud, spec_fx_mul(cloud_intensity, 32768))
    } else {
        spec_color_lerp(base, sky, 6554)
    };
    spec_color_scale(final_color, f.intensity as int)
}

pub fn earth_clouds(fragment: &Fragment, uniforms: &Uniforms) -> (c: Color)
    ensures
        c == spec_earth_clouds_shader(*fragment, *uniforms),
{
    let t = time_scaled(uniforms.time, 10);
    let p = fragment.vertex_position;
    let sn = uniforms.noise.noise2(fx_add(fx_scale(p.x, 80), t), fx_scale(p.y, 80));
    let ocean = Color::new(0, 105, 148);
    let land = Color::new(34, 139, 34);
    let desert = Color::new(210, 180, 140);
    let snow = Color::new(255, 250, 250);
    let base = if fx_abs(p.y) > 45875 {
        snow
    } else if sn > 26214 {
        land
    } else if sn > 19661 {
        desert
    } else {
        ocean
    };
    let t_half = fx_mul(t, 32768);
    let cn = uniforms.noise.noise2(
        fx_add(fx_scale(p.x, 100), t_half),
        fx_add(fx_scale(p.y, 100), t_half),
    );
    let cloud = Color::new(255, 255, 255);
    let sky = Color::new(135, 206, 250);
    let cloud_intensity = fx_sub(fx_clamp(cn, 26214, 45875), 26214);
    let final_color = if cn > 39322 {
        base.lerp(cloud, fx_mul(cloud_intensity, 32768))
    } else {
        base.lerp(sky, 6554)
    };
    final_color.scale(fragment.intensity)
}

/// The default passthrough: the fragment's interpolated base color.
pub fn default_shader(fragment: &Fragment, _uniforms: &Uniforms) -> (c: Color)
    ensures
        c == fragment.color,
{
    fragment.color
}

/// The color the shading dispatch assigns: indices 0 through 10 select the
/// eleven procedural shaders; any other index passes the base color
/// through unchanged.
#[verifier::opaque]
pub open spec fn spec_fragment_shader(f: Fragment, u: Uniforms, idx: u32) -> Color {
    if idx == 0 {
        spec_lava_shader(f, u)
    } else if idx == 1 {
        spec_gas_planet_color(f, u)
    } else if idx == 2 {
        spec_sun_shader(f, u)
    } else if idx == 3 {
        spec_rocky_shader(f, u)
    } else if idx == 4 {
        spec_gas_giant_shader(f, u)
    } else if idx == 5 {
        spec_ice_shader(f, u)
    } else if idx == 6 {
        spec_wave_shader(f, u)
    } else if idx == 7 {
        spec_moon_shader(f, u)
    } else if idx == 8 {
        spec_atmospheric_shader(f, u)
    } else if idx == 9 {
        spec_dynamic_surface_shader(f, u)
    } else if idx == 10 {
        spec_earth_clouds_shader(f, u)
    } else {
        f.color
    }
}

/// Shading dispatch: pure in its inputs, so identical fragment, uniforms
/// and index always give the identical color; an unrecognized index
/// returns the fragment's base color exactly.
pub fn fragment_shader(fragment: &Fragment, uniforms: &Uniforms, current_shader: u32) -> (c: Color)
    ensures
        c == spec_fragment_shader(*fragment, *uniforms, current_shader),
        current_shader > 10 ==> c == fragment.color,
{
    proof {
        reveal(spec_fragment_shader);
    }
    match current_shader {
        0 => lava_planet_shader(fragment, uniforms),
        1 => gas_planet_color(fragment, uniforms),
        2 => sun_shader(fragment, uniforms),
        3 => rocky_planet_shader(fragment, uniforms),
        4 => gas_giant_shader(fragment, uniforms),
        5 => ice_planet_shader(fragment, uniforms),
        6 => wave_shader(fragment, uniforms),
        7 => moon_shader(fragment, uniforms),
        8 => atmospheric_shader(fragment, uniforms),
        9 => dynamic_surface_shader(fragment, uniforms),
        10 => earth_clouds(fragment, uniforms),
        _ => default_shader(fragment, uniforms),
    }
}

} // verus!
