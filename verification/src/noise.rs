//! A deterministic integer value-noise provider: lattice values from a
//! bit-mixing hash of the seed and cell coordinates, blended trilinearly.
//! Identical seed and coordinates always give the identical sample, and
//! every sample lies in `[-SCALE, SCALE]`.
use vstd::prelude::*;
use crate::fx::{
    fx_clamp, fx_floor, fx_fract, fx_lerp, spec_clamp, spec_fx_lerp, SCALE,
};

verus! {

/// First multiplier of the 64-bit finalizing hash.
pub const MIX_A: u64 = 0xbf58476d1ce4e5b9;

/// Second multiplier of the 64-bit finalizing hash.
pub const MIX_B: u64 = 0x94d049bb133111eb;

/// Lattice cell indices are clamped into this range before hashing; every
/// fixed-point coordinate floors into it already.
pub const CELL_LIMIT: i64 = 0x800000000000;

/// A shared, read-only noise generator handle: all state is the seed.
#[derive(Clone, Copy, Debug, PartialEq, Eq, Structural)]
pub struct Noise {
    pub seed: u64,
}

/// A 64-bit product reduced modulo 2^64.
pub open spec fn spec_mulmod64(a: u64, b: u64) -> u64 {
    (((a as int) * (b as int)) % 0x10000000000000000) as u64
}

/// The finalizing bit-mix hash.
pub open spec fn spec_mix64(x: u64) -> u64 {
    let a = x ^ (x >> 30);
    let b = spec_mulmod64(a, MIX_A);
    let c = b ^ (b >> 27);
    let d = spec_mulmod64(c, MIX_B);
    d ^ (d >> 31)
}

/// A cell index offset into the nonnegative range for hashing.
pub open spec fn spec_cell_u64(i: int) -> u64 {
    (spec_clamp(i, -(CELL_LIMIT as int), CELL_LIMIT as int) + CELL_LIMIT) as u64
}

/// The lattice value of one cell: a hash of seed and coordinates, folded
/// into `[-SCALE, SCALE]`.
pub open spec fn spec_lattice3(seed: u64, ix: int, iy: int, iz: int) -> int {
    let h = spec_mix64(
        seed ^ spec_mix64(spec_cell_u64(ix) ^ spec_mix64(
            spec_cell_u64(iy) ^ spec_mix64(spec_cell_u64(iz)),
        )),
    );
    (h as int) % (2 * (SCALE as int) + 1) - (SCALE as int)
}

/// A linear interpolation clamped into the noise range.
pub open spec fn spec_nlerp(a: int, b: int, t: int) -> int {
    spec_clamp(spec_fx_lerp(a, b, t), -(SCALE as int), SCALE as int)
}

/// Trilinear value noise at a fixed-point position.
pub open spec fn spec_noise3(seed: u64, x: int, y: int, z: int) -> int {
    let s = SCALE as int;
    let ix = x / s;
    let iy = y / s;
    let iz = z / s;
    let tx = x % s;
    let ty = y % s;
    let tz = z % s;
    let c00 = spec_nlerp(
        spec_lattice3(seed, ix, iy, iz),
        spec_lattice3(seed, ix + 1, iy, iz),
        tx,
    );
    let c10 = spec_nlerp(
        spec_lattice3(seed, ix, iy + 1, iz),
        spec_lattice3(seed, ix + 1, iy + 1, iz),
        tx,
    );
    let c01 = spec_nlerp(
        spec_lattice3(seed, ix, iy, iz + 1),
        spec_lattice3(seed, ix + 1, iy, iz + 1),
        tx,
    );
    let c11 = spec_nlerp(
        spec_lattice3(seed, ix, iy + 1, iz + 1),
        spec_lattice3(seed, ix + 1, iy + 1, iz + 1),
        tx,
    );
    let c0 = spec_nlerp(c00, c10, ty);
    let c1 = spec_nlerp(c01, c11, ty);
    spec_nlerp(c0, c1, tz)
}

/// Planar noise is the solid noise on the zero plane.
pub open spec fn spec_noise2(seed: u64, x: int, y: int) -> int {
    spec_noise3(seed, x, y, 0)
}

/// Products of 64-bit values fit the unsigned double-width type.
proof fn lemma_u64_prod_fits(a: int, b: int)
    requires
        0 <= a < 0x10000000000000000,
        0 <= b < 0x10000000000000000,
    ensures
        0 <= a * b < 0x100000000000000000000000000000000,
{
    assert(0 <= a * b < 0x100000000000000000000000000000000) by (nonlinear_arith)
        requires
            0 <= a < 0x10000000000000000,
            0 <= b < 0x10000000000000000,
    ;
}

fn mulmod64(a: u64, b: u64) -> (r: u64)
    ensures
        r == spec_mulmod64(a, b),
{
    proof {
        lemma_u64_prod_fits(a as int, b as int);
    }
    let p: u128 = (a as u128) * (b as u128);
    (p % 0x10000000000000000) as u64
}

fn mix64(x: u64) -> (r: u64)
    ensures
        r == spec_mix64(x),
{
    let a = x ^ (x >> 30);
    let b = mulmod64(a, MIX_A);
    let c = b ^ (b >> 27);
    let d = mulmod64(c, MIX_B);
    d ^ (d >> 31)
}

fn cell_u64(i: i64) -> (r: u64)
    ensures
        r == spec_cell_u64(i as int),
{
    let c = fx_clamp(i, -CELL_LIMIT, CELL_LIMIT);
    (c + CELL_LIMIT) as u64
}

fn lattice3(seed: u64, ix: i64, iy: i64, iz: i64) -> (v: i64)
    ensures
        v as int == spec_lattice3(seed, ix as int, iy as int, iz as int),
        -SCALE <= v <= SCALE,
{
    let h = mix64(seed ^ mix64(cell_u64(ix) ^ mix64(cell_u64(iy) ^ mix64(cell_u64(iz)))));
    let m: u64 = h % (2 * (SCALE as u64) + 1);
    (m as i64) - SCALE
}

fn nlerp(a: i64, b: i64, t: i64) -> (r: i64)
    ensures
        r as int == spec_nlerp(a as int, b as int, t as int),
        -SCALE <= r <= SCALE,
{
    fx_clamp(fx_lerp(a, b, t), -SCALE, SCALE)
}

impl Noise {
    /// A generator from its seed.
    pub fn with_seed(seed: u64) -> (n: Noise)
        ensures
            n == (Noise { seed }),
    {
        Noise { seed }
    }

    /// Solid (3D) value noise at a fixed-point position: deterministic in
    /// `(seed, x, y, z)` and always within `[-SCALE, SCALE]`.
    pub fn noise3(&self, x: i64, y: i64, z: i64) -> (v: i64)
        ensures
            v as int == spec_noise3(self.seed, x as int, y as int, z as int),
            -SCALE <= v <= SCALE,
    {
        let ix = fx_floor(x);
        let iy = fx_floor(y);
        let iz = fx_floor(z);
        let tx = fx_fract(x);
        let ty = fx_fract(y);
        let tz = fx_fract(z);
        let c00 = nlerp(
            lattice3(self.seed, ix, iy, iz),
            lattice3(self.seed, ix + 1, iy, iz),
            tx,
        );
        let c10 = nlerp(
            lattice3(self.seed, ix, iy + 1, iz),
            lattice3(self.seed, ix + 1, iy + 1, iz),
            tx,
        );
        let c01 = nlerp(
            lattice3(self.seed, ix, iy, iz + 1),
            lattice3(self.seed, ix + 1, iy, iz + 1),
            tx,
        );
        let c11 = nlerp(
            lattice3(self.seed, ix, iy + 1, iz + 1),
            lattice3(self.seed, ix + 1, iy + 1, iz + 1),
            tx,
        );
        let c0 = nlerp(c00, c10, ty);
        let c1 = nlerp(c01, c11, ty);
        nlerp(c0, c1, tz)
    }

    /// Planar (2D) value noise: the solid noise on the zero plane.
    pub fn noise2(&self, x: i64, y: i64) -> (v: i64)
        ensures
            v as int == spec_noise2(self.seed, x as int, y as int),
            -SCALE <= v <= SCALE,
    {
        self.noise3(x, y, 0)
    }
}

} // verus!
