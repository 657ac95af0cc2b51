//! Pixel geometry of a window and the conversions between surface units
//! (what the compositor speaks) and pixels (what is drawn).

use vstd::prelude::*;

verus! {

/// The dots per inch of a surface whose scale factor is one.
pub const DEFAULT_DPI: usize = 96;

/// The size of a window's content in pixels, and its resolution.
#[derive(Clone, Copy, Debug, PartialEq, Eq, Structural)]
pub struct Dimensions {
    pub pixel_width: usize,
    pub pixel_height: usize,
    pub dpi: usize,
}

/// The smallest `q` with `q * divisor >= value`, for a positive divisor.
pub open spec fn ceil_div(value: int, divisor: int) -> int
    recommends
        divisor > 0,
{
    if value % divisor == 0 {
        value / divisor
    } else {
        value / divisor + 1
    }
}

impl Dimensions {
    /// The dimensions can be scaled without leaving `i32`: the resolution is
    /// at least the default one, and every field fits the protocol's integers.
    pub open spec fn wf(self) -> bool {
        &&& DEFAULT_DPI <= self.dpi <= i32::MAX
        &&& self.pixel_width <= i32::MAX
        &&& self.pixel_height <= i32::MAX
    }

    /// How many pixels one surface unit covers along each axis.
    pub open spec fn dpi_factor(self) -> int {
        self.dpi as int / DEFAULT_DPI as int
    }

    /// A length in surface units, in pixels.
    pub open spec fn to_pixels(self, surface: int) -> int {
        surface * self.dpi_factor()
    }

    /// A length in pixels, in surface units, rounded up so that no pixel row
    /// is lost.
    pub open spec fn to_surface(self, pixels: int) -> int {
        ceil_div(pixels, self.dpi_factor())
    }

    /// The dimensions of a new window of the given pixel size.
    pub fn new(pixel_width: usize, pixel_height: usize) -> (d: Dimensions)
        ensures
            d == (Dimensions { pixel_width, pixel_height, dpi: DEFAULT_DPI }),
            (pixel_width <= i32::MAX && pixel_height <= i32::MAX) ==> d.wf(),
    {
        Dimensions { pixel_width, pixel_height, dpi: DEFAULT_DPI }
    }

    /// How many pixels one surface unit covers along each axis.
    pub fn get_dpi_factor(&self) -> (factor: i32)
        requires
            self.wf(),
        ensures
            factor == self.dpi_factor(),
            1 <= factor,
    {
        (self.dpi / DEFAULT_DPI) as i32
    }

    /// A length in surface units, in pixels.
    pub fn surface_to_pixels(&self, surface: i32) -> (pixels: i32)
        requires
            self.wf(),
            i32::MIN <= self.to_pixels(surface as int) <= i32::MAX,
        ensures
            pixels == self.to_pixels(surface as int),
            0 <= surface ==> 0 <= pixels,
    {
        let factor: i32 = self.get_dpi_factor();
        assert(0 <= surface ==> 0 <= surface * factor) by (nonlinear_arith)
            requires
                1 <= factor,
        ;
        surface * factor
    }

    /// A length in pixels, in surface units: rounded up, otherwise the last
    /// row of pixels could be lost.
    pub fn pixels_to_surface(&self, pixels: i32) -> (surface: i32)
        requires
            self.wf(),
            0 <= pixels,
        ensures
            surface == self.to_surface(pixels as int),
            0 <= surface <= pixels,
    {
        let factor: i32 = self.get_dpi_factor();
        let quotient: i32 = pixels / factor;
        if pixels % factor == 0 {
            quotient
        } else {
            proof {
                lemma_quotient_below(pixels as int, factor as int);
            }
            quotient + 1
        }
    }
}

/// A quotient by a positive divisor that leaves a remainder is strictly
/// below the dividend.
pub proof fn lemma_quotient_below(value: int, divisor: int)
    requires
        0 <= value,
        1 <= divisor,
        value % divisor != 0,
    ensures
        0 <= value / divisor < value,
{
    assert(value == divisor * (value / divisor) + value % divisor) by (nonlinear_arith)
        requires
            divisor > 0,
    ;
    assert(0 <= value / divisor) by (nonlinear_arith)
        requires
            0 <= value,
            divisor > 0,
    ;
    assert(value / divisor <= divisor * (value / divisor)) by (nonlinear_arith)
        requires
            0 <= value / divisor,
            1 <= divisor,
    ;
    assert(0 < value % divisor) by (nonlinear_arith)
        requires
            value % divisor != 0,
            divisor > 0,
    ;
}

} // verus!
