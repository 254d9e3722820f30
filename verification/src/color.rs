//! An RGB color with 8-bit channels. Every operation clamps each channel
//! into `[0, 255]`: arithmetic that would overflow saturates, never wraps.
use vstd::prelude::*;
use crate::fx::{spec_clamp, tdiv, SCALE};

verus! {

#[derive(Clone, Copy, Debug, PartialEq, Eq, Structural)]
pub struct Color {
    pub r: u8,
    pub g: u8,
    pub b: u8,
}

/// One channel of a saturating sum.
pub open spec fn spec_add_channel(a: int, b: int) -> int {
    if a + b > 255 {
        255
    } else {
        a + b
    }
}

/// One channel scaled by a fixed-point factor, clamped into range.
pub open spec fn spec_scale_channel(c: int, t: int) -> int {
    spec_clamp(tdiv(c * t, SCALE as int), 0, 255)
}

/// One channel interpolated from `a` toward `b` by the fixed-point factor
/// `t`, clamped into range.
pub open spec fn spec_lerp_channel(a: int, b: int, t: int) -> int {
    spec_clamp(a + tdiv((b - a) * t, SCALE as int), 0, 255)
}

/// The whole color scaled by a fixed-point factor.
pub open spec fn spec_color_scale(c: Color, t: int) -> Color {
    Color {
        r: spec_scale_channel(c.r as int, t) as u8,
        g: spec_scale_channel(c.g as int, t) as u8,
        b: spec_scale_channel(c.b as int, t) as u8,
    }
}

/// The whole color added channel-wise, saturating.
pub open spec fn spec_color_add(a: Color, b: Color) -> Color {
    Color {
        r: spec_add_channel(a.r as int, b.r as int) as u8,
        g: spec_add_channel(a.g as int, b.g as int) as u8,
        b: spec_add_channel(a.b as int, b.b as int) as u8,
    }
}

/// The whole color interpolated toward `o` by `t`.
pub open spec fn spec_color_lerp(c: Color, o: Color, t: int) -> Color {
    Color {
        r: spec_lerp_channel(c.r as int, o.r as int, t) as u8,
        g: spec_lerp_channel(c.g as int, o.g as int, t) as u8,
        b: spec_lerp_channel(c.b as int, o.b as int, t) as u8,
    }
}

/// The packed 0x00RRGGBB form.
pub open spec fn spec_color_hex(c: Color) -> int {
    (c.r as int) * 0x10000 + (c.g as int) * 0x100 + (c.b as int)
}

fn scale_channel(c: u8, t: i64) -> (r: u8)
    ensures
        r as int == spec_scale_channel(c as int, t as int),
{
    proof {
        crate::fx::lemma_i64_prod_fits(c as int, t as int);
    }
    let p: i128 = (c as i128) * (t as i128);
    let q: i128 = p / (SCALE as i128);
    if q < 0 {
        0
    } else if q > 255 {
        255
    } else {
        q as u8
    }
}

fn lerp_channel(a: u8, b: u8, t: i64) -> (r: u8)
    ensures
        r as int == spec_lerp_channel(a as int, b as int, t as int),
{
    let d: i128 = (b as i128) - (a as i128);
    proof {
        crate::fx::lemma_i64_prod_fits(d as int, t as int);
    }
    let p: i128 = d * (t as i128);
    let q: i128 = (a as i128) + p / (SCALE as i128);
    if q < 0 {
        0
    } else if q > 255 {
        255
    } else {
        q as u8
    }
}

impl Color {
    /// A color from its three channels.
    pub fn new(r: u8, g: u8, b: u8) -> (c: Color)
        ensures
            c == (Color { r, g, b }),
    {
        Color { r, g, b }
    }

    /// Channel-wise saturating addition: a channel that would pass 255
    /// stays at 255.
    pub fn add(self, o: Color) -> (c: Color)
        ensures
            c == spec_color_add(self, o),
            c.r as int == spec_add_channel(self.r as int, o.r as int),
            c.g as int == spec_add_channel(self.g as int, o.g as int),
            c.b as int == spec_add_channel(self.b as int, o.b as int),
    {
        let r: u16 = self.r as u16 + o.r as u16;
        let g: u16 = self.g as u16 + o.g as u16;
        let b: u16 = self.b as u16 + o.b as u16;
        Color {
            r: if r > 255 {
                255
            } else {
                r as u8
            },
            g: if g > 255 {
                255
            } else {
                g as u8
            },
            b: if b > 255 {
                255
            } else {
                b as u8
            },
        }
    }

    /// The color scaled by a fixed-point factor (`SCALE` is unit gain),
    /// clamped per channel.
    pub fn scale(self, t: i64) -> (c: Color)
        ensures
            c == spec_color_scale(self, t as int),
    {
        Color {
            r: scale_channel(self.r, t),
            g: scale_channel(self.g, t),
            b: scale_channel(self.b, t),
        }
    }

    /// Linear interpolation toward `o` by the fixed-point factor `t`,
    /// clamped per channel.
    pub fn lerp(self, o: Color, t: i64) -> (c: Color)
        ensures
            c == spec_color_lerp(self, o, t as int),
    {
        Color {
            r: lerp_channel(self.r, o.r, t),
            g: lerp_channel(self.g, o.g, t),
            b: lerp_channel(self.b, o.b, t),
        }
    }

    /// The packed 0x00RRGGBB pixel value.
    pub fn to_hex(self) -> (h: u32)
        ensures
            h as int == spec_color_hex(self),
    {
        (self.r as u32) * 0x10000 + (self.g as u32) * 0x100 + (self.b as u32)
    }

    /// The color held in a packed 0x00RRGGBB pixel value.
    pub fn from_hex(h: u32) -> (c: Color)
        ensures
            c.r as int == (h as int / 0x10000) % 0x100,
            c.g as int == (h as int / 0x100) % 0x100,
            c.b as int == h as int % 0x100,
    {
        Color {
            r: ((h / 0x10000) % 0x100) as u8,
            g: ((h / 0x100) % 0x100) as u8,
            b: (h % 0x100) as u8,
        }
    }
}

/// Packing then unpacking a color gives the same channels back.
pub proof fn lemma_hex_round_trip(c: Color)
    ensures
        (spec_color_hex(c) / 0x10000) % 0x100 == c.r as int,
        (spec_color_hex(c) / 0x100) % 0x100 == c.g as int,
        spec_color_hex(c) % 0x100 == c.b as int,
{
    let h = spec_color_hex(c);
    assert((c.r as int * 0x10000 + c.g as int * 0x100 + c.b as int) / 0x10000
        == c.r as int) by (nonlinear_arith)
        requires
            (c.r as int) < 0x100,
            (c.g as int) < 0x100,
            (c.b as int) < 0x100,
    ;
    assert((c.r as int * 0x10000 + c.g as int * 0x100 + c.b as int) / 0x100
        == c.r as int * 0x100 + c.g as int) by (nonlinear_arith)
        requires
            (c.r as int) < 0x100,
            (c.g as int) < 0x100,
            (c.b as int) < 0x100,
    ;
    assert((c.r as int * 0x100 + c.g as int) % 0x100 == c.g as int)
        by (nonlinear_arith)
        requires
            (c.g as int) < 0x100,
    ;
    assert((c.r as int * 0x10000 + c.g as int * 0x100 + c.b as int) % 0x100
        == c.b as int) by (nonlinear_arith)
        requires
            (c.g as int) < 0x100,
            (c.b as int) < 0x100,
    ;
}

} // verus!
