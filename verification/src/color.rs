//! Colors. Scene colors are HSLA; the conversion to straight sRGBA happens at
//! the rasterization boundary, when commands are planned, never earlier.
//! Every channel is held in thousandths of full intensity.

use vstd::prelude::*;

verus! {

/// A scene color: hue, saturation, lightness and alpha, each in `0..=1000`
/// (the hue in thousandths of a full turn).
#[derive(Clone, Copy, Debug, PartialEq, Eq, Structural)]
pub struct Hsla {
    pub h: u16,
    pub s: u16,
    pub l: u16,
    pub a: u16,
}

/// A device color: red, green, blue and alpha, each in `0..=1000`.
#[derive(Clone, Copy, Debug, PartialEq, Eq, Structural)]
pub struct Rgba {
    pub r: u16,
    pub g: u16,
    pub b: u16,
    pub a: u16,
}

impl Rgba {
    pub open spec fn wf(self) -> bool {
        &&& self.r <= 1000
        &&& self.g <= 1000
        &&& self.b <= 1000
        &&& self.a <= 1000
    }
}

/// The chroma of the standard HSL-to-RGB conversion, in thousandths:
/// `(1 - |2l - 1|) * s`.
pub open spec fn spec_chroma(c: Hsla) -> int {
    (1000 - (if 2 * c.l >= 1000 {
        2 * c.l - 1000
    } else {
        1000 - 2 * c.l
    })) * c.s / 1000
}

/// The secondary component: the chroma scaled by how far the hue sits from
/// the nearest primary-color axis.
pub open spec fn spec_second(c: Hsla) -> int {
    spec_chroma(c) * (1000 - (if (6 * c.h) % 2000 >= 1000 {
        (6 * c.h) % 2000 - 1000
    } else {
        1000 - (6 * c.h) % 2000
    })) / 1000
}

/// The lightness offset added to every channel.
pub open spec fn spec_light(c: Hsla) -> int {
    c.l - spec_chroma(c) / 2
}

/// Which sixth of the color wheel the hue falls in.
pub open spec fn spec_sextant(c: Hsla) -> int {
    ((6 * c.h) / 1000) % 6
}

/// The red, green and blue channels (in thousandths) of the standard
/// HSL-to-RGB conversion, before the lightness offset.
pub open spec fn spec_rgb_base(c: Hsla) -> (int, int, int) {
    let ch = spec_chroma(c);
    let x = spec_second(c);
    if spec_sextant(c) == 0 {
        (ch, x, 0)
    } else if spec_sextant(c) == 1 {
        (x, ch, 0)
    } else if spec_sextant(c) == 2 {
        (0, ch, x)
    } else if spec_sextant(c) == 3 {
        (0, x, ch)
    } else if spec_sextant(c) == 4 {
        (x, 0, ch)
    } else {
        (ch, 0, x)
    }
}

/// The full conversion from a scene color to a device color.
pub open spec fn hsla_to_rgba_spec(c: Hsla) -> Rgba {
    let (r, g, b) = spec_rgb_base(c);
    let m = spec_light(c);
    Rgba { r: (r + m) as u16, g: (g + m) as u16, b: (b + m) as u16, a: c.a }
}

impl Hsla {
    pub open spec fn wf(self) -> bool {
        &&& self.h <= 1000
        &&& self.s <= 1000
        &&& self.l <= 1000
        &&& self.a <= 1000
    }

    pub fn new(h: u16, s: u16, l: u16, a: u16) -> (r: Hsla)
        ensures
            r == (Hsla { h, s, l, a }),
    {
        Hsla { h, s, l, a }
    }

    /// Opaque white.
    pub fn white() -> (r: Hsla)
        ensures
            r == (Hsla { h: 0, s: 0, l: 1000, a: 1000 }),
            r.wf(),
    {
        Hsla { h: 0, s: 0, l: 1000, a: 1000 }
    }

    /// Opaque black.
    pub fn black() -> (r: Hsla)
        ensures
            r == (Hsla { h: 0, s: 0, l: 0, a: 1000 }),
            r.wf(),
    {
        Hsla { h: 0, s: 0, l: 0, a: 1000 }
    }

    /// Convert to a straight (non-premultiplied) device color.
    pub fn to_rgba(&self) -> (r: Rgba)
        requires
            self.wf(),
        ensures
            r == hsla_to_rgba_spec(*self),
            r.wf(),
    {
        proof {
            lemma_to_rgba_wf(*self);
        }
        let l: i32 = self.l as i32;
        let s: i32 = self.s as i32;
        let h6: i32 = 6 * (self.h as i32);
        let d: i32 = if 2 * l >= 1000 {
            2 * l - 1000
        } else {
            1000 - 2 * l
        };
        let chroma: i32 = (1000 - d) * s / 1000;
        let tm: i32 = h6 % 2000;
        let dx: i32 = if tm >= 1000 {
            tm - 1000
        } else {
            1000 - tm
        };
        let x: i32 = chroma * (1000 - dx) / 1000;
        let m: i32 = l - chroma / 2;
        let sextant: i32 = (h6 / 1000) % 6;
        let rr: i32;
        let gg: i32;
        let bb: i32;
        if sextant == 0 {
            rr = chroma;
            gg = x;
            bb = 0;
        } else if sextant == 1 {
            rr = x;
            gg = chroma;
            bb = 0;
        } else if sextant == 2 {
            rr = 0;
            gg = chroma;
            bb = x;
        } else if sextant == 3 {
            rr = 0;
            gg = x;
            bb = chroma;
        } else if sextant == 4 {
            rr = x;
            gg = 0;
            bb = chroma;
        } else {
            rr = chroma;
            gg = 0;
            bb = x;
        }
        Rgba { r: (rr + m) as u16, g: (gg + m) as u16, b: (bb + m) as u16, a: self.a }
    }
}

/// Scaling a value in `0..=max` by a fraction in thousandths never leaves
/// `0..=max`.
proof fn lemma_scale_bound(u: int, s: int)
    requires
        0 <= u,
        0 <= s <= 1000,
    ensures
        0 <= u * s / 1000 <= u,
{
    assert(0 <= u * s / 1000 <= u) by (nonlinear_arith)
        requires
            0 <= u,
            0 <= s <= 1000,
    ;
}

/// `c <= 2k` bounds the rounded-up half: `c - c / 2 <= k`.
proof fn lemma_half_bound(c: int, k: int)
    requires
        0 <= c,
        c <= 2 * k,
    ensures
        c - c / 2 <= k,
{
    assert(c - c / 2 <= k) by (nonlinear_arith)
        requires
            0 <= c,
            c <= 2 * k,
    ;
}

/// Every channel of the conversion stays in `0..=1000`, so the casts in
/// `hsla_to_rgba_spec` never wrap and the result is well formed.
pub proof fn lemma_to_rgba_wf(c: Hsla)
    requires
        c.wf(),
    ensures
        ({
            let (r, g, b) = spec_rgb_base(c);
            let m = spec_light(c);
            &&& 0 <= r + m <= 1000
            &&& 0 <= g + m <= 1000
            &&& 0 <= b + m <= 1000
        }),
        hsla_to_rgba_spec(c).wf(),
{
    let cap = 1000 - (if 2 * c.l >= 1000 {
        2 * c.l - 1000
    } else {
        1000 - 2 * c.l
    });
    let ch = spec_chroma(c);
    lemma_scale_bound(cap, c.s as int);
    assert(0 <= ch <= cap);
    let dx = if (6 * c.h) % 2000 >= 1000 {
        (6 * c.h) % 2000 - 1000
    } else {
        1000 - (6 * c.h) % 2000
    };
    assert(0 <= dx <= 1000) by {
        assert(0 <= (6 * c.h) % 2000 < 2000);
    }
    lemma_scale_bound(ch, 1000 - dx);
    let x = spec_second(c);
    assert(0 <= x <= ch);
    let m = spec_light(c);
    assert(0 <= ch / 2 <= ch) by (nonlinear_arith)
        requires
            0 <= ch,
    ;
    if 2 * c.l >= 1000 {
        assert(cap == 2000 - 2 * c.l);
        lemma_half_bound(ch, 1000 - c.l);
        assert(ch - ch / 2 <= 1000 - c.l);
    } else {
        assert(cap == 2 * c.l);
        lemma_half_bound(ch, c.l as int);
        assert(ch - ch / 2 <= c.l);
    }
    assert(0 <= m);
    assert(ch + m <= 1000);
}

/// With no saturation the conversion is an exact grey: all three channels
/// equal the lightness.
pub proof fn lemma_grey_conversion(c: Hsla)
    requires
        c.wf(),
        c.s == 0,
    ensures
        hsla_to_rgba_spec(c).r == c.l,
        hsla_to_rgba_spec(c).g == c.l,
        hsla_to_rgba_spec(c).b == c.l,
        hsla_to_rgba_spec(c).a == c.a,
{
    let cap = 1000 - (if 2 * c.l >= 1000 {
        2 * c.l - 1000
    } else {
        1000 - 2 * c.l
    });
    assert(spec_chroma(c) == cap * 0 / 1000);
    assert(spec_chroma(c) == 0) by (nonlinear_arith)
        requires
            spec_chroma(c) == cap * 0 / 1000,
    ;
    assert(spec_second(c) == 0 * (1000 - (if (6 * c.h) % 2000 >= 1000 {
        (6 * c.h) % 2000 - 1000
    } else {
        1000 - (6 * c.h) % 2000
    })) / 1000);
    assert(spec_second(c) == 0) by (nonlinear_arith)
        requires
            spec_second(c) == 0 * (1000 - (if (6 * c.h) % 2000 >= 1000 {
                (6 * c.h) % 2000 - 1000
            } else {
                1000 - (6 * c.h) % 2000
            })) / 1000,
    ;
    assert(spec_light(c) == c.l);
}

} // verus!
