use softrender::color::Color;
use softrender::fragment::Fragment;
use softrender::framebuffer::{Framebuffer, DEPTH_SENTINEL};
use softrender::fx::{fx_add, fx_cos, fx_div, fx_floor, fx_lerp, fx_mul, fx_sin, fx_sub, SCALE};
use softrender::geometry::{magnitude, mat4_mul_vec4, normal_matrix, Mat4, Vec2, Vec3, Vec4};
use softrender::noise::Noise;
use softrender::pipeline::{create_model_matrix, create_viewport_matrix, render};
use softrender::raster::{group_triangles, triangle, vertex_in_range};
use softrender::shaders::{
    fragment_shader, gas_planet_with_draw, vertex_shader, Uniforms,
};
use softrender::skybox::{project_star, Skybox, Star, STAR_DEPTH};
use softrender::vertex::Vertex;

fn fx(v: i64) -> i64 {
    v * SCALE
}

fn identity_uniforms() -> Uniforms {
    Uniforms {
        model_matrix: Mat4::identity(),
        view_matrix: Mat4::identity(),
        projection_matrix: Mat4::identity(),
        viewport_matrix: Mat4::identity(),
        time: 7,
        noise: Noise::with_seed(1337),
    }
}

fn sample_fragment() -> Fragment {
    Fragment {
        x: 3,
        y: 4,
        depth: fx(2),
        normal: Vec3 { x: 0, y: 0, z: SCALE },
        tex_coords: Vec2 { x: SCALE / 2, y: SCALE / 2 },
        vertex_position: Vec3 { x: fx(1), y: fx(1), z: fx(1) },
        color: Color::new(10, 20, 30),
        intensity: SCALE,
    }
}

fn model_vertex(x: i64, y: i64, z: i64, color: Color) -> Vertex {
    Vertex::new(
        Vec3 { x, y, z },
        Vec3 { x: 0, y: 0, z: SCALE },
        Vec2 { x: 0, y: 0 },
        color,
    )
}

#[test]
fn depth_test_nearest_wins() {
    let mut fb = Framebuffer::new(4, 4);
    fb.set_background_color(0x111111);
    fb.clear();
    fb.set_current_color(0xFF0000);
    fb.point(1, 1, fx(10));
    assert_eq!(fb.buffer[1 * 4 + 1], 0xFF0000);
    assert_eq!(fb.zbuffer[1 * 4 + 1], fx(10));

    // A later call with a larger depth must not change the pixel.
    fb.set_current_color(0x00FF00);
    fb.point(1, 1, fx(20));
    assert_eq!(fb.buffer[1 * 4 + 1], 0xFF0000);
    assert_eq!(fb.zbuffer[1 * 4 + 1], fx(10));

    // An equal depth must not change it either (strictly-nearer wins).
    fb.point(1, 1, fx(10));
    assert_eq!(fb.buffer[1 * 4 + 1], 0xFF0000);

    // A strictly smaller depth wins.
    fb.set_current_color(0x0000FF);
    fb.point(1, 1, fx(5));
    assert_eq!(fb.buffer[1 * 4 + 1], 0x0000FF);
    assert_eq!(fb.zbuffer[1 * 4 + 1], fx(5));

    // Out-of-bounds plots are dropped silently.
    fb.point(9, 9, fx(1));
}

#[test]
fn clear_idempotence() {
    let mut fb = Framebuffer::new(5, 3);
    fb.set_background_color(0x335577);
    fb.set_current_color(0xABCDEF);
    fb.point(2, 2, fx(1));
    fb.clear();
    let colors_once = fb.buffer.clone();
    let depths_once = fb.zbuffer.clone();
    fb.clear();
    assert_eq!(fb.buffer, colors_once);
    assert_eq!(fb.zbuffer, depths_once);
    assert!(fb.buffer.iter().all(|&c| c == 0x335577));
    assert!(fb.zbuffer.iter().all(|&d| d == DEPTH_SENTINEL));
}

#[test]
fn triangulation_counts_and_order() {
    let mut vs: Vec<Vertex> = Vec::new();
    for i in 0..7 {
        vs.push(model_vertex(fx(i), fx(2 * i), 0, Color::new(i as u8, 0, 0)));
    }
    let tris = group_triangles(&vs);
    // floor(7 / 3) triangles; the trailing vertex is dropped.
    assert_eq!(tris.len(), 2);
    for i in 0..2 {
        assert_eq!(tris[i].a, vs[3 * i]);
        assert_eq!(tris[i].b, vs[3 * i + 1]);
        assert_eq!(tris[i].c, vs[3 * i + 2]);
    }
}

#[test]
fn degenerate_triangle_yields_no_fragments() {
    let mut v0 = model_vertex(0, 0, 0, Color::new(1, 2, 3));
    let mut v1 = v0;
    let mut v2 = v0;
    v0.transformed_position = Vec3 { x: fx(0), y: fx(0), z: 0 };
    v1.transformed_position = Vec3 { x: fx(5), y: fx(5), z: 0 };
    v2.transformed_position = Vec3 { x: fx(10), y: fx(10), z: 0 };
    assert!(vertex_in_range(&v0));
    let frags = triangle(&v0, &v1, &v2);
    assert_eq!(frags.len(), 0);
}

#[test]
fn nondegenerate_triangle_covers_interior() {
    let color = Color::new(9, 9, 9);
    let mut v0 = model_vertex(0, 0, 0, color);
    let mut v1 = v0;
    let mut v2 = v0;
    v0.transformed_position = Vec3 { x: fx(0), y: fx(0), z: fx(3) };
    v1.transformed_position = Vec3 { x: fx(10), y: fx(0), z: fx(3) };
    v2.transformed_position = Vec3 { x: fx(5), y: fx(10), z: fx(3) };
    v0.transformed_normal = Vec3 { x: 0, y: 0, z: SCALE };
    v1.transformed_normal = Vec3 { x: 0, y: 0, z: SCALE };
    v2.transformed_normal = Vec3 { x: 0, y: 0, z: SCALE };
    let frags = triangle(&v0, &v1, &v2);
    assert!(!frags.is_empty());
    let center = frags.iter().find(|f| f.x == 5 && f.y == 5).expect("center pixel covered");
    // Constant attributes interpolate to themselves.
    assert_eq!(center.color, color);
    assert_eq!(center.depth, fx(3));
    // The flat normal against the z light gives full intensity.
    assert_eq!(center.intensity, SCALE);
}

#[test]
fn color_addition_saturates() {
    let c = Color::new(200, 200, 200).add(Color::new(200, 200, 200));
    assert_eq!(c, Color::new(255, 255, 255));
    let d = Color::new(10, 250, 0).add(Color::new(10, 10, 5));
    assert_eq!(d, Color::new(20, 255, 5));
}

#[test]
fn color_scale_and_lerp_are_clamped() {
    assert_eq!(Color::new(100, 100, 100).scale(SCALE / 2), Color::new(50, 50, 50));
    assert_eq!(Color::new(100, 100, 100).scale(-SCALE), Color::new(0, 0, 0));
    assert_eq!(Color::new(10, 10, 10).scale(100 * SCALE), Color::new(255, 255, 255));
    let l = Color::new(0, 0, 0).lerp(Color::new(100, 200, 40), SCALE / 2);
    assert_eq!(l, Color::new(50, 100, 20));
}

#[test]
fn color_hex_round_trip() {
    let c = Color::new(12, 34, 56);
    assert_eq!(Color::from_hex(c.to_hex()), c);
    assert_eq!(c.to_hex(), 0x0C2238);
}

#[test]
fn shader_determinism() {
    let frag = sample_fragment();
    let uni = identity_uniforms();
    for idx in 0..12u32 {
        let a = fragment_shader(&frag, &uni, idx);
        let b = fragment_shader(&frag, &uni, idx);
        assert_eq!(a, b, "shader {} must be deterministic", idx);
    }
}

#[test]
fn default_shader_passes_base_color_through() {
    let frag = sample_fragment();
    let uni = identity_uniforms();
    assert_eq!(fragment_shader(&frag, &uni, 99), Color::new(10, 20, 30));
}

#[test]
fn gas_planet_draw_changes_the_mix() {
    let frag = sample_fragment();
    let uni = identity_uniforms();
    let below = gas_planet_with_draw(&frag, &uni, 0);
    let above = gas_planet_with_draw(&frag, &uni, 60);
    assert_ne!(below, above);
}

#[test]
fn noise_is_deterministic_and_in_range() {
    let n = Noise::with_seed(42);
    for i in 0..50 {
        let v = n.noise3(fx(i) / 7, fx(2 * i) / 5, fx(3 * i) / 11);
        assert_eq!(v, n.noise3(fx(i) / 7, fx(2 * i) / 5, fx(3 * i) / 11));
        assert!(-SCALE <= v && v <= SCALE);
        let w = n.noise2(fx(i) / 3, fx(i) / 9);
        assert!(-SCALE <= w && w <= SCALE);
    }
    // Different seeds disagree somewhere.
    let m = Noise::with_seed(43);
    let mut differs = false;
    for i in 0..50 {
        if n.noise3(fx(i), fx(i), 0) != m.noise3(fx(i), fx(i), 0) {
            differs = true;
        }
    }
    assert!(differs);
}

#[test]
fn trig_basics() {
    assert_eq!(fx_sin(0), 0);
    // The rounded rational approximation is exact at the quarter turn.
    assert_eq!(fx_sin(102944), SCALE);
    assert_eq!(fx_cos(0), SCALE);
    for k in -20..20i64 {
        let v = fx_sin(k * 37761);
        assert!(-SCALE <= v && v <= SCALE);
    }
}

#[test]
fn magnitude_of_pythagorean_triple() {
    let m = magnitude(Vec3 { x: fx(3), y: fx(4), z: 0 });
    assert_eq!(m, fx(5));
    assert_eq!(magnitude(Vec3 { x: 0, y: 0, z: 0 }), 0);
}

#[test]
fn viewport_maps_ndc_origin_to_center() {
    let m = create_viewport_matrix(800, 600);
    let s = mat4_mul_vec4(m, Vec4 { x: 0, y: 0, z: 0, w: SCALE });
    assert_eq!(s.x, 400 * SCALE);
    assert_eq!(s.y, 300 * SCALE);
    assert_eq!(s.z, 0);
    assert_eq!(fx_floor(s.x), 400);
    assert_eq!(fx_floor(s.y), 300);
}

#[test]
fn normal_matrix_falls_back_to_identity_when_singular() {
    // A model matrix whose upper-left 3x3 block is all zeros is singular.
    let zero = Mat4 {
        r0: Vec4 { x: 0, y: 0, z: 0, w: fx(1) },
        r1: Vec4 { x: 0, y: 0, z: 0, w: fx(2) },
        r2: Vec4 { x: 0, y: 0, z: 0, w: fx(3) },
        r3: Vec4 { x: 0, y: 0, z: 0, w: SCALE },
    };
    let n = normal_matrix(zero);
    assert_eq!(n.r0, Vec3 { x: SCALE, y: 0, z: 0 });
    assert_eq!(n.r1, Vec3 { x: 0, y: SCALE, z: 0 });
    assert_eq!(n.r2, Vec3 { x: 0, y: 0, z: SCALE });
    // The identity model matrix inverts to the identity normal matrix.
    let n2 = normal_matrix(Mat4::identity());
    assert_eq!(n2.r0, Vec3 { x: SCALE, y: 0, z: 0 });
    assert_eq!(n2.r1, Vec3 { x: 0, y: SCALE, z: 0 });
    assert_eq!(n2.r2, Vec3 { x: 0, y: 0, z: SCALE });
}

#[test]
fn vertex_shader_carries_attributes_and_projects() {
    let v = model_vertex(0, 0, 0, Color::new(50, 60, 70));
    let mut uni = identity_uniforms();
    uni.viewport_matrix = create_viewport_matrix(10, 10);
    let out = vertex_shader(&v, &uni);
    assert_eq!(out.position, v.position);
    assert_eq!(out.normal, v.normal);
    assert_eq!(out.color, v.color);
    // The model-space origin lands on the screen center.
    assert_eq!(out.transformed_position.x, fx(5));
    assert_eq!(out.transformed_position.y, fx(5));
}

#[test]
fn star_behind_camera_is_skipped() {
    // With identity matrices the clip w of a star equals SCALE (positive),
    // so build a projection whose w row copies the z coordinate: a star
    // with negative z then projects with w <= 0 and must be skipped.
    let mut uni = identity_uniforms();
    uni.projection_matrix = Mat4 {
        r0: Vec4 { x: SCALE, y: 0, z: 0, w: 0 },
        r1: Vec4 { x: 0, y: SCALE, z: 0, w: 0 },
        r2: Vec4 { x: 0, y: 0, z: SCALE, w: 0 },
        r3: Vec4 { x: 0, y: 0, z: SCALE, w: 0 },
    };
    uni.viewport_matrix = create_viewport_matrix(20, 20);
    let behind = Vec3 { x: 0, y: 0, z: -fx(5) };
    let cam = Vec3 { x: 0, y: 0, z: 0 };
    assert_eq!(project_star(behind, cam, &uni, 20, 20), None);

    // The same star in front of the camera lands on the raster.
    let ahead = Vec3 { x: 0, y: 0, z: fx(5) };
    assert!(project_star(ahead, cam, &uni, 20, 20).is_some());

    // Rendering a skybox of only the behind star leaves the buffer alone.
    let mut fb = Framebuffer::new(20, 20);
    fb.set_background_color(0x010203);
    fb.clear();
    let before = fb.buffer.clone();
    let sky = Skybox {
        stars: vec![Star { position: behind, brightness: SCALE, size: 3 }],
    };
    sky.render(&mut fb, &uni, cam);
    assert_eq!(fb.buffer, before);

    // While a visible star is plotted at the fixed far depth.
    let sky2 = Skybox {
        stars: vec![Star { position: ahead, brightness: SCALE, size: 1 }],
    };
    sky2.render(&mut fb, &uni, cam);
    assert!(fb.buffer.iter().any(|&c| c == 0xFFFFFF));
    assert!(fb.zbuffer.iter().any(|&d| d == STAR_DEPTH));
}

#[test]
fn skybox_generates_requested_star_count() {
    let sky = Skybox::new(100);
    assert_eq!(sky.stars.len(), 100);
    for s in &sky.stars {
        assert!(0 <= s.brightness && s.brightness <= SCALE);
        assert!(1 <= s.size && s.size <= 3);
    }
}

#[test]
fn render_draws_a_triangle_through_the_pipeline() {
    let mut fb = Framebuffer::new(10, 10);
    fb.set_background_color(0x000000);
    fb.clear();
    let mut uni = identity_uniforms();
    uni.viewport_matrix = create_viewport_matrix(10, 10);
    let color = Color::new(9, 9, 9);
    let vs = vec![
        model_vertex(-SCALE, -SCALE, 0, color),
        model_vertex(SCALE, -SCALE, 0, color),
        model_vertex(0, SCALE, 0, color),
    ];
    render(&mut fb, &uni, &vs, 99);
    // The screen center is inside the triangle and default-shaded.
    assert_eq!(fb.buffer[5 * 10 + 5], 0x090909);
    // A corner outside the triangle keeps the background.
    assert_eq!(fb.buffer[0], 0x000000);
}

#[test]
fn model_matrix_with_zero_rotation_scales_and_translates() {
    // With sin(0) == 0 and cos(0) == SCALE exactly, a zero rotation is
    // neutral: the result is exactly the scale-and-translation matrix.
    let m = create_model_matrix(
        Vec3 { x: fx(1), y: fx(2), z: fx(3) },
        2 * SCALE,
        Vec3 { x: 0, y: 0, z: 0 },
    );
    assert_eq!(m.r0, Vec4 { x: 2 * SCALE, y: 0, z: 0, w: fx(1) });
    assert_eq!(m.r1, Vec4 { x: 0, y: 2 * SCALE, z: 0, w: fx(2) });
    assert_eq!(m.r2, Vec4 { x: 0, y: 0, z: 2 * SCALE, w: fx(3) });
    assert_eq!(m.r3, Vec4 { x: 0, y: 0, z: 0, w: SCALE });
    let p = mat4_mul_vec4(m, Vec4 { x: fx(1), y: fx(1), z: fx(1), w: SCALE });
    assert_eq!(p, Vec4 { x: fx(3), y: fx(4), z: fx(5), w: SCALE });
}

#[test]
fn fixed_point_exact_values() {
    // 1.5 * 0.5 == 0.75 in fixed point.
    assert_eq!(fx_mul(3 * SCALE / 2, SCALE / 2), 3 * SCALE / 4);
    // 3 / 2 == 1.5; division truncates toward zero.
    assert_eq!(fx_div(3 * SCALE, 2 * SCALE), 3 * SCALE / 2);
    assert_eq!(fx_div(-3 * SCALE, 2 * SCALE), -(3 * SCALE / 2));
    assert_eq!(fx_mul(-3 * SCALE, 2 * SCALE), -6 * SCALE);
    // Halfway interpolation.
    assert_eq!(fx_lerp(fx(10), fx(20), SCALE / 2), fx(15));
    // Saturation instead of wrapping at the ends of the range.
    assert_eq!(fx_add(i64::MAX, 1), i64::MAX);
    assert_eq!(fx_sub(i64::MIN, 1), i64::MIN);
    assert_eq!(fx_mul(i64::MAX, i64::MAX), i64::MAX);
}

#[test]
fn planar_noise_is_solid_noise_on_zero_plane() {
    let n = Noise::with_seed(5);
    for i in 0..20 {
        assert_eq!(n.noise2(fx(i) / 3, fx(7 - i) / 2), n.noise3(fx(i) / 3, fx(7 - i) / 2, 0));
    }
}
