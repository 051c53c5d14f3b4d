use vstd::prelude::*;

verus! {

/// One color channel, held as the exact rational `num / den`.
///
/// The demo's channels are quotients of cursor coordinates by window
/// dimensions, so every value that arises is an exact rational; holding the
/// numerator and denominator keeps the arithmetic exact and provable.
#[derive(Clone, Copy, Debug, PartialEq, Eq, Structural)]
pub struct Channel {
    pub num: u128,
    pub den: u128,
}

impl Channel {
    /// A channel is well formed when its denominator is nonzero.
    pub open spec fn wf(self) -> bool {
        self.den > 0
    }

    /// The channel stands for exactly the rational `n / d`.
    pub open spec fn is_ratio(self, n: int, d: int) -> bool {
        &&& self.den > 0
        &&& d > 0
        &&& self.num * d == n * self.den
    }

    /// The channel is exactly the sum of the rationals `p` and `q`.
    pub open spec fn is_sum_of(self, p: Channel, q: Channel) -> bool {
        &&& self.den > 0
        &&& p.den > 0
        &&& q.den > 0
        &&& self.num * (p.den * q.den) == (p.num * q.den + q.num * p.den) * self.den
    }
}

/// A clear color: four channels, red, green, blue, alpha.
#[derive(Clone, Copy, Debug, PartialEq, Eq, Structural)]
pub struct Color {
    pub r: Channel,
    pub g: Channel,
    pub b: Channel,
    pub a: Channel,
}

impl Color {
    pub open spec fn wf(self) -> bool {
        &&& self.r.wf()
        &&& self.g.wf()
        &&& self.b.wf()
        &&& self.a.wf()
    }
}

/// The clear color the demo starts with: (0.1, 0.2, 0.3, 1.0).
pub open spec fn initial_color() -> Color {
    Color {
        r: Channel { num: 1, den: 10 },
        g: Channel { num: 2, den: 10 },
        b: Channel { num: 3, den: 10 },
        a: Channel { num: 1, den: 1 },
    }
}

/// The clear color for a cursor at `(x, y)` in a window of size
/// `width` x `height`: red is `x / width`, green is `y / height`, blue is
/// their sum `(x * height + y * width) / (width * height)`, alpha is one.
pub open spec fn cursor_color(x: u32, y: u32, width: u32, height: u32) -> Color
    recommends
        width > 0,
        height > 0,
{
    Color {
        r: Channel { num: x as u128, den: width as u128 },
        g: Channel { num: y as u128, den: height as u128 },
        b: Channel {
            num: (x * height + y * width) as u128,
            den: (width * height) as u128,
        },
        a: Channel { num: 1, den: 1 },
    }
}

/// Computes the clear color for a cursor position within a window of
/// nonzero size.
pub fn compute_cursor_color(x: u32, y: u32, width: u32, height: u32) -> (c: Color)
    requires
        width > 0,
        height > 0,
    ensures
        c == cursor_color(x, y, width, height),
        c.wf(),
{
    let xl: u128 = x as u128;
    let yl: u128 = y as u128;
    let wl: u128 = width as u128;
    let hl: u128 = height as u128;
    proof {
        assert(xl * hl <= 0xffff_ffff_u128 * 0xffff_ffff_u128) by (nonlinear_arith)
            requires
                xl <= 0xffff_ffff,
                hl <= 0xffff_ffff,
        ;
        assert(yl * wl <= 0xffff_ffff_u128 * 0xffff_ffff_u128) by (nonlinear_arith)
            requires
                yl <= 0xffff_ffff,
                wl <= 0xffff_ffff,
        ;
        assert(wl * hl <= 0xffff_ffff_u128 * 0xffff_ffff_u128 && wl * hl > 0) by (nonlinear_arith)
            requires
                0 < wl <= 0xffff_ffff,
                0 < hl <= 0xffff_ffff,
        ;
    }
    let blue_num: u128 = xl * hl + yl * wl;
    let blue_den: u128 = wl * hl;
    Color {
        r: Channel { num: xl, den: wl },
        g: Channel { num: yl, den: hl },
        b: Channel { num: blue_num, den: blue_den },
        a: Channel { num: 1, den: 1 },
    }
}

/// Law: for any cursor position `(x, y)` in a window of nonzero size
/// `width` x `height`, the resulting clear color's red channel is exactly
/// `x / width`, its green channel is exactly `y / height`, its blue channel
/// is exactly the sum of the two, and its alpha channel is exactly one.
pub proof fn lemma_cursor_color_ratios(x: u32, y: u32, width: u32, height: u32)
    requires
        width > 0,
        height > 0,
    ensures
        cursor_color(x, y, width, height).r.is_ratio(x as int, width as int),
        cursor_color(x, y, width, height).g.is_ratio(y as int, height as int),
        cursor_color(x, y, width, height).b.is_sum_of(
            cursor_color(x, y, width, height).r,
            cursor_color(x, y, width, height).g,
        ),
        cursor_color(x, y, width, height).a.is_ratio(1, 1),
        cursor_color(x, y, width, height).wf(),
{
    let c = cursor_color(x, y, width, height);
    assert(c.b.den > 0 && c.b.num * (c.r.den * c.g.den) == (c.r.num * c.g.den + c.g.num * c.r.den)
        * c.b.den) by (nonlinear_arith)
        requires
            0 < width <= 0xffff_ffff,
            0 < height <= 0xffff_ffff,
            0 <= x <= 0xffff_ffff,
            0 <= y <= 0xffff_ffff,
            c == cursor_color(x, y, width, height),
    ;
}

} // verus!
