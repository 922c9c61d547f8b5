//! The mapping from game coordinates to screen pixels.
//!
//! The cluster's extent is scaled by one factor for both axes, so that
//! circles stay round, and centred in the square drawing region in the
//! middle of the screen. The factor is the rational number
//! `19 * draw_size / (20 * side)`, where `draw_size` is the side of the
//! drawing region and `side` the longer side of the extent: nineteen
//! twentieths of the region are used and the rest is margin. Scaled values
//! are rounded to the nearest pixel, halves away from zero. The y axis is
//! not flipped: larger game coordinates lie further right and further down.

use vstd::prelude::*;

verus! {

/// The integer nearest to `n / d`, halves rounded away from zero.
pub open spec fn round_div(n: int, d: int) -> int
    recommends
        d > 0,
{
    if n >= 0 {
        (2 * n + d) / (2 * d)
    } else {
        -((2 * (-n) + d) / (2 * d))
    }
}

/// The smaller of two numbers.
pub open spec fn lesser(a: int, b: int) -> int {
    if a <= b {
        a
    } else {
        b
    }
}

/// The larger of two numbers.
pub open spec fn greater(a: int, b: int) -> int {
    if a >= b {
        a
    } else {
        b
    }
}

/// Side of the square drawing region of a screen.
pub open spec fn draw_size_of(screen_width: int, screen_height: int) -> int {
    lesser(screen_width, screen_height)
}

/// The side of an extent that fixes the scale: its longer one, and 1 where
/// the extent has no side of positive length.
pub open spec fn scale_side(extent: (u32, u32)) -> int {
    greater(1, greater(extent.0 as int, extent.1 as int))
}

/// A length of the game, scaled to pixels: `v * 19 * draw_size / (20 * side)`,
/// rounded.
pub open spec fn scale_length(v: int, draw_size: int, side: int) -> int {
    round_div(v * (19 * draw_size), 20 * side)
}

/// Pixel offset along one axis: half of what the screen has more than the
/// drawing region, plus half of what the region has more than the scaled
/// extent.
pub open spec fn centering_offset(screen: int, draw_size: int, scaled_extent: int) -> int {
    (screen - draw_size) / 2 + (draw_size - scaled_extent) / 2
}

/// Radius in pixels of a planet's circle: the 175th part of the drawing
/// region's side.
pub open spec fn radius_of(draw_size: int) -> int {
    draw_size / 175
}

/// `round_div(n, d)` is the integer nearest to `n / d`: twice its distance
/// from `n / d` is at most one, and where it is exactly one, the quotient
/// lies on the side away from zero.
pub proof fn lemma_round_div_nearest(n: int, d: int)
    requires
        d > 0,
    ensures
        n >= 0 ==> 2 * n - d < 2 * (round_div(n, d) * d) <= 2 * n + d,
        n < 0 ==> 2 * n - d <= 2 * (round_div(n, d) * d) < 2 * n + d,
        n >= 0 ==> round_div(n, d) >= 0,
        n <= 0 ==> round_div(n, d) <= 0,
{
    let m = if n >= 0 { n } else { -n };
    let q = (2 * m + d) / (2 * d);
    assert(0 <= (2 * m + d) - (2 * d) * q < 2 * d && q >= 0 && (2 * d) * q == 2 * (q * d)
        && (-q) * d == -(q * d) && (m == 0 ==> q == 0)) by (nonlinear_arith)
        requires
            d > 0,
            m >= 0,
            q == (2 * m + d) / (2 * d),
    ;
}

/// Rounding is exact on whole quotients.
pub proof fn lemma_round_div_exact(k: int, d: int)
    requires
        d > 0,
    ensures
        round_div(k * d, d) == k,
{
    lemma_round_div_nearest(k * d, d);
    let r = round_div(k * d, d);
    assert(r == k) by (nonlinear_arith)
        requires
            d > 0,
            2 * (k * d) - d <= 2 * (r * d) <= 2 * (k * d) + d,
            k * d >= 0 ==> 2 * (k * d) - d < 2 * (r * d),
            k * d < 0 ==> 2 * (r * d) < 2 * (k * d) + d,
    ;
}

/// Rounding keeps the order of the numerators.
pub proof fn lemma_round_div_monotonic(a: int, b: int, d: int)
    requires
        d > 0,
        a <= b,
    ensures
        round_div(a, d) <= round_div(b, d),
{
    lemma_round_div_nearest(a, d);
    lemma_round_div_nearest(b, d);
    let ra = round_div(a, d);
    let rb = round_div(b, d);
    if ra > rb {
        assert(ra * d >= rb * d + d) by (nonlinear_arith)
            requires
                d > 0,
                ra >= rb + 1,
        ;
    }
}

/// A quotient between two whole numbers is rounded to a number between
/// them.
pub proof fn lemma_round_div_between(n: int, d: int, lo: int, hi: int)
    requires
        d > 0,
        lo * d <= n <= hi * d,
    ensures
        lo <= round_div(n, d) <= hi,
{
    lemma_round_div_exact(lo, d);
    lemma_round_div_exact(hi, d);
    lemma_round_div_monotonic(lo * d, n, d);
    lemma_round_div_monotonic(n, hi * d, d);
}

/// The parameters of the mapping, fixed once per session.
#[derive(Clone, Copy, Debug, PartialEq, Eq)]
pub struct Transform {
    draw_size: u32,
    side: u32,
    offset_x: u32,
    offset_y: u32,
}

impl Transform {
    /// The scale has a positive denominator.
    #[verifier::type_invariant]
    pub closed spec fn wf(self) -> bool {
        self.side >= 1
    }

    /// Side of the square drawing region, in pixels.
    pub closed spec fn spec_draw_size(self) -> int {
        self.draw_size as int
    }

    /// The side of the extent that fixes the scale; at least 1.
    pub closed spec fn spec_side(self) -> int {
        self.side as int
    }

    /// Pixel offsets along x and y.
    pub closed spec fn spec_offsets(self) -> (int, int) {
        (self.offset_x as int, self.offset_y as int)
    }

    /// Numerator of the scale factor.
    pub open spec fn scale_num(self) -> int {
        19 * self.spec_draw_size()
    }

    /// Denominator of the scale factor.
    pub open spec fn scale_den(self) -> int {
        20 * self.spec_side()
    }

    /// A game length in pixels: `round(v * scale)`.
    pub open spec fn scaled(self, v: int) -> int {
        round_div(v * self.scale_num(), self.scale_den())
    }

    /// Screen column of a game x coordinate: `round(x * scale) + offset_x`.
    pub open spec fn screen_x(self, x: int) -> int {
        self.scaled(x) + self.spec_offsets().0
    }

    /// Screen row of a game y coordinate: `round(y * scale) + offset_y`.
    pub open spec fn screen_y(self, y: int) -> int {
        self.scaled(y) + self.spec_offsets().1
    }

    /// Screen position of a game position.
    pub open spec fn screen_position(self, coord: (i32, i32)) -> (int, int) {
        (self.screen_x(coord.0 as int), self.screen_y(coord.1 as int))
    }

    /// Radius in pixels of a planet's circle.
    pub open spec fn spec_radius(self) -> int {
        radius_of(self.spec_draw_size())
    }

    /// These are the parameters for a screen of the given size and a
    /// cluster of the given extent.
    pub open spec fn fits(self, screen_width: u32, screen_height: u32, extent: (u32, u32)) -> bool {
        let draw_size = draw_size_of(screen_width as int, screen_height as int);
        let side = scale_side(extent);
        &&& self.wf()
        &&& self.spec_draw_size() == draw_size
        &&& self.spec_side() == side
        &&& self.spec_offsets().0 == centering_offset(
            screen_width as int,
            draw_size,
            scale_length(extent.0 as int, draw_size, side),
        )
        &&& self.spec_offsets().1 == centering_offset(
            screen_height as int,
            draw_size,
            scale_length(extent.1 as int, draw_size, side),
        )
    }

    /// Derives the parameters from the screen's size and the cluster's
    /// extent (width and height in game units).
    pub fn new(screen_width: u32, screen_height: u32, extent: (u32, u32)) -> (transform: Transform)
        ensures
            transform.fits(screen_width, screen_height, extent),
    {
        let draw_size = if screen_width <= screen_height {
            screen_width
        } else {
            screen_height
        };
        let longer = if extent.0 >= extent.1 {
            extent.0
        } else {
            extent.1
        };
        let side = if longer >= 1 {
            longer
        } else {
            1
        };
        let scaled_width = scale_value(extent.0 as i64, draw_size, side);
        let scaled_height = scale_value(extent.1 as i64, draw_size, side);
        proof {
            lemma_scaled_extent_fits(extent.0 as int, draw_size as int, side as int);
            lemma_scaled_extent_fits(extent.1 as int, draw_size as int, side as int);
        }
        let margin_x = ((draw_size as i128 - scaled_width) / 2) as u32;
        let margin_y = ((draw_size as i128 - scaled_height) / 2) as u32;
        Transform {
            draw_size,
            side,
            offset_x: (screen_width - draw_size) / 2 + margin_x,
            offset_y: (screen_height - draw_size) / 2 + margin_y,
        }
    }

    /// Side of the square drawing region, in pixels.
    pub fn draw_size(self) -> (size: u32)
        ensures
            size == self.spec_draw_size(),
    {
        self.draw_size
    }

    /// Pixel offsets along x and y.
    pub fn offsets(self) -> (offsets: (u32, u32))
        ensures
            offsets.0 == self.spec_offsets().0,
            offsets.1 == self.spec_offsets().1,
    {
        (self.offset_x, self.offset_y)
    }

    /// Radius in pixels of a planet's circle.
    pub fn radius(self) -> (radius: u32)
        ensures
            radius == self.spec_radius(),
    {
        self.draw_size / 175
    }

    /// Maps a game position to its screen position.
    pub fn apply(self, coord: (i32, i32)) -> (pixel: (i64, i64))
        ensures
            pixel.0 == self.screen_x(coord.0 as int),
            pixel.1 == self.screen_y(coord.1 as int),
    {
        proof {
            use_type_invariant(self);
            lemma_scaled_coordinate_bound(coord.0 as int, self.draw_size as int, self.side as int);
            lemma_scaled_coordinate_bound(coord.1 as int, self.draw_size as int, self.side as int);
        }
        let x = scale_value(coord.0 as i64, self.draw_size, self.side) + self.offset_x as i128;
        let y = scale_value(coord.1 as i64, self.draw_size, self.side) + self.offset_y as i128;
        (x as i64, y as i64)
    }
}

/// `round(v * 19 * draw_size / (20 * side))` in exact integer arithmetic.
fn scale_value(v: i64, draw_size: u32, side: u32) -> (scaled: i128)
    requires
        side >= 1,
        -0x1_0000_0000 <= v <= 0x1_0000_0000,
    ensures
        scaled == scale_length(v as int, draw_size as int, side as int),
{
    let num: i128 = 19 * (draw_size as i128);
    let den: i128 = 20 * (side as i128);
    assert(-0x1_0000_0000 * (19 * 0x1_0000_0000) <= v * num <= 0x1_0000_0000 * (19
        * 0x1_0000_0000)) by (nonlinear_arith)
        requires
            -0x1_0000_0000 <= v <= 0x1_0000_0000,
            0 <= num <= 19 * 0x1_0000_0000,
    ;
    let n: i128 = (v as i128) * num;
    if n >= 0 {
        (2 * n + den) / (2 * den)
    } else {
        -((2 * (-n) + den) / (2 * den))
    }
}

/// A side of the extent, scaled, is no longer than the drawing region.
proof fn lemma_scaled_extent_fits(v: int, draw_size: int, side: int)
    requires
        0 <= v <= side,
        1 <= side,
        0 <= draw_size,
    ensures
        0 <= scale_length(v, draw_size, side) <= draw_size,
        20 * scale_length(v, draw_size, side) <= 19 * draw_size + 10,
{
    let n = v * (19 * draw_size);
    let d = 20 * side;
    let r = round_div(n, d);
    assert(0 <= n <= 19 * draw_size * side) by (nonlinear_arith)
        requires
            n == v * (19 * draw_size),
            0 <= v <= side,
            0 <= draw_size,
    ;
    lemma_round_div_nearest(n, d);
    assert(40 * r <= 38 * draw_size + 20) by (nonlinear_arith)
        requires
            2 * (r * d) <= 2 * n + d,
            d == 20 * side,
            n <= 19 * draw_size * side,
            side >= 1,
    ;
}

/// A scaled coordinate, with an offset added, fits in 64 bits.
proof fn lemma_scaled_coordinate_bound(v: int, draw_size: int, side: int)
    requires
        -0x8000_0000 <= v <= 0x7fff_ffff,
        0 <= draw_size <= 0xffff_ffff,
        1 <= side,
    ensures
        -0x7fff_fffe_0000_0000 <= scale_length(v, draw_size, side) <= 0x7fff_fffe_0000_0000,
{
    let bound: int = 0x7fff_fffe_0000_0000;
    let n = v * (19 * draw_size);
    let d = 20 * side;
    assert(-bound * d <= n <= bound * d) by (nonlinear_arith)
        requires
            n == v * (19 * draw_size),
            d == 20 * side,
            -0x8000_0000 <= v <= 0x7fff_ffff,
            0 <= draw_size <= 0xffff_ffff,
            1 <= side,
            bound == 0x7fff_fffe_0000_0000,
    ;
    lemma_round_div_between(n, d, -bound, bound);
}

/// Scaling is uniform: two game values lie as far apart on the screen
/// along x as they do along y.
pub proof fn lemma_scaling_uniform(transform: Transform, a: int, b: int)
    ensures
        transform.screen_x(a) - transform.screen_x(b) == transform.screen_y(a)
            - transform.screen_y(b),
        transform.screen_x(a) - transform.screen_x(b) == transform.scaled(a) - transform.scaled(b),
{
}

/// Neither axis is flipped: a larger game coordinate never lies further
/// left, nor further up.
pub proof fn lemma_orientation_kept(transform: Transform, a: int, b: int)
    requires
        transform.wf(),
        a <= b,
    ensures
        transform.screen_x(a) <= transform.screen_x(b),
        transform.screen_y(a) <= transform.screen_y(b),
{
    let num = transform.scale_num();
    assert(a * num <= b * num) by (nonlinear_arith)
        requires
            a <= b,
            num >= 0,
    ;
    lemma_round_div_monotonic(a * num, b * num, transform.scale_den());
}

/// The scaled extent is centred in the drawing region: its origin lies as
/// far from the region's left and upper edge as its far corner lies from
/// the right and lower edge, or one pixel less where the space left over
/// is odd.
pub proof fn lemma_extent_centred(
    transform: Transform,
    screen_width: u32,
    screen_height: u32,
    extent: (u32, u32),
)
    requires
        transform.fits(screen_width, screen_height, extent),
    ensures
        ({
            let draw_size = draw_size_of(screen_width as int, screen_height as int);
            let left = (screen_width - draw_size) / 2;
            let top = (screen_height - draw_size) / 2;
            let before_x = transform.screen_x(0) - left;
            let after_x = left + draw_size - transform.screen_x(extent.0 as int);
            let before_y = transform.screen_y(0) - top;
            let after_y = top + draw_size - transform.screen_y(extent.1 as int);
            &&& 0 <= before_x <= after_x <= before_x + 1
            &&& 0 <= before_y <= after_y <= before_y + 1
        }),
{
    let draw_size = draw_size_of(screen_width as int, screen_height as int);
    let side = scale_side(extent);
    lemma_scaled_extent_fits(extent.0 as int, draw_size, side);
    lemma_scaled_extent_fits(extent.1 as int, draw_size, side);
    assert(transform.scaled(0) == 0) by {
        lemma_round_div_nearest(0, transform.scale_den());
    }
}

/// A planet inside the cluster's extent is drawn whole: its circle lies
/// inside the square drawing region in the middle of the screen, and so
/// on the screen.
pub proof fn lemma_extent_stays_visible(
    transform: Transform,
    screen_width: u32,
    screen_height: u32,
    extent: (u32, u32),
    coord: (i32, i32),
)
    requires
        transform.fits(screen_width, screen_height, extent),
        0 <= coord.0 <= extent.0,
        0 <= coord.1 <= extent.1,
    ensures
        ({
            let draw_size = draw_size_of(screen_width as int, screen_height as int);
            let left = (screen_width - draw_size) / 2;
            let top = (screen_height - draw_size) / 2;
            let radius = transform.spec_radius();
            let (x, y) = transform.screen_position(coord);
            &&& 0 <= left <= x - radius
            &&& x + radius <= left + draw_size <= screen_width
            &&& 0 <= top <= y - radius
            &&& y + radius <= top + draw_size <= screen_height
        }),
{
    let draw_size = draw_size_of(screen_width as int, screen_height as int);
    let side = scale_side(extent);
    lemma_scaled_extent_fits(extent.0 as int, draw_size, side);
    lemma_scaled_extent_fits(extent.1 as int, draw_size, side);
    lemma_orientation_kept(transform, coord.0 as int, extent.0 as int);
    lemma_orientation_kept(transform, coord.1 as int, extent.1 as int);
}

} // verus!
