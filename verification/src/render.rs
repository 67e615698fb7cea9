//! The frame renderer: a deterministic diagonal gradient rasterized into a
//! row-major buffer of packed 32-bit ARGB pixels.

use vstd::arithmetic::div_mod::lemma_fundamental_div_mod_converse;
use vstd::arithmetic::div_mod::lemma_mod_bound;
use vstd::arithmetic::div_mod::lemma_multiply_divide_lt;
use vstd::arithmetic::mul::lemma_mul_upper_bound;
use vstd::prelude::*;

verus! {

/// Largest width or height, in pixels, that the presentation backend accepts
/// on one axis.
pub const MAX_SURFACE_DIM: u32 = 65535;

/// The fixed blue channel bias of the gradient.
pub const BLUE_BIAS: u32 = 128;

/// A requested dimension after clamping to the presentation backend's
/// per-axis ceiling.
pub open spec fn clamped_dim(d: u32) -> u32 {
    if d > MAX_SURFACE_DIM {
        MAX_SURFACE_DIM
    } else {
        d
    }
}

/// Clamp one surface axis to the backend's per-axis ceiling.
pub fn clamp_dim(d: u32) -> (r: u32)
    ensures
        r == clamped_dim(d),
{
    if d > MAX_SURFACE_DIM {
        MAX_SURFACE_DIM
    } else {
        d
    }
}

/// One color channel of the gradient: the position scaled by 255 over the
/// surface extent, rounded down. For `0 <= p < extent` this lies in 0..=254.
pub open spec fn channel_value(p: int, extent: int) -> int
    recommends
        0 <= p < extent,
{
    p * 255 / extent
}

/// The packed ARGB pixel the gradient assigns to position (x, y) on a
/// surface of extent (w, h): alpha 255, red from the column, green from the
/// row, blue the fixed bias.
pub open spec fn pixel_at(x: int, y: int, w: int, h: int) -> u32
    recommends
        0 <= x < w,
        0 <= y < h,
{
    0xFF00_0000u32 | ((channel_value(x, w) as u32) << 16u32) | ((channel_value(y, h) as u32)
        << 8u32) | BLUE_BIAS
}

/// The whole frame as a sequence of packed pixels in row-major order:
/// pixel `i` sits in row `i / w`, column `i % w`.
pub open spec fn gradient_frame(w: int, h: int) -> Seq<u32> {
    Seq::new((w * h) as nat, |i: int| pixel_at(i % w, i / w, w, h))
}

/// Compute one gradient pixel for column `x`, row `y` on a surface of
/// extent (`w`, `h`).
pub fn pixel_color(x: usize, y: usize, w: usize, h: usize) -> (p: u32)
    requires
        x < w,
        y < h,
        w <= MAX_SURFACE_DIM,
        h <= MAX_SURFACE_DIM,
    ensures
        p == pixel_at(x as int, y as int, w as int, h as int),
{
    let r: usize = x * 255 / w;
    let g: usize = y * 255 / h;
    proof {
        lemma_multiply_divide_lt((x * 255) as int, w as int, 255);
        lemma_multiply_divide_lt((y * 255) as int, h as int, 255);
    }
    0xFF00_0000u32 | ((r as u32) << 16u32) | ((g as u32) << 8u32) | BLUE_BIAS
}

/// Rasterize the full gradient for a surface of extent
/// (`width`, `height`).
pub fn render_gradient(width: u32, height: u32) -> (buf: Vec<u32>)
    requires
        1 <= width <= MAX_SURFACE_DIM,
        1 <= height <= MAX_SURFACE_DIM,
    ensures
        buf@ == gradient_frame(width as int, height as int),
        buf@.len() == width * height,
        forall|x: int, y: int|
            0 <= x < width && 0 <= y < height ==> buf@[y * (width as int) + x] == #[trigger] pixel_at(
                x,
                y,
                width as int,
                height as int,
            ),
{
    let w: usize = width as usize;
    let h: usize = height as usize;
    proof {
        lemma_mul_upper_bound(w as int, MAX_SURFACE_DIM as int, h as int, MAX_SURFACE_DIM as int);
    }
    let total: usize = w * h;
    let mut buf: Vec<u32> = Vec::new();
    let mut i: usize = 0;
    while i < total
        invariant
            w == width,
            h == height,
            1 <= w <= MAX_SURFACE_DIM,
            1 <= h <= MAX_SURFACE_DIM,
            total == w * h,
            i <= total,
            buf@.len() == i,
            forall|j: int|
                0 <= j < i ==> buf@[j] == #[trigger] gradient_frame(w as int, h as int)[j],
        decreases total - i,
    {
        proof {
            lemma_mod_bound(i as int, w as int);
            lemma_multiply_divide_lt(i as int, w as int, h as int);
        }
        let x: usize = i % w;
        let y: usize = i / w;
        let p = pixel_color(x, y, w, h);
        buf.push(p);
        i = i + 1;
    }
    proof {
        assert(buf@ =~= gradient_frame(width as int, height as int));
        assert forall|x: int, y: int|
            0 <= x < width && 0 <= y < height implies buf@[y * (width as int) + x]
            == #[trigger] pixel_at(x, y, width as int, height as int) by {
            let wi = width as int;
            let hi = height as int;
            assert(0 <= y * wi + x < wi * hi) by (nonlinear_arith)
                requires
                    0 <= x < wi,
                    0 <= y < hi,
            ;
            lemma_fundamental_div_mod_converse(y * wi + x, wi, y, x);
        }
    }
    buf
}

/// What one draw cycle should do for a window whose current inner size is
/// (`window_width`, `window_height`): present nothing, or resize the
/// surface to the clamped extent and present the gradient frame.
pub enum FramePlan {
    /// One axis of the window is zero: present nothing and report success.
    Skip,
    /// Resize the surface to (`width`, `height`), then present `pixels`,
    /// row-major, one packed ARGB value per pixel.
    Present { width: u32, height: u32, pixels: Vec<u32> },
}

/// Decide one draw cycle from the window's current inner size: skip when an
/// axis is zero, otherwise clamp both axes and rasterize the gradient at the
/// clamped extent.
pub fn plan_frame(window_width: u32, window_height: u32) -> (plan: FramePlan)
    ensures
        (window_width == 0 || window_height == 0) <==> plan is Skip,
        plan matches FramePlan::Present { width, height, pixels } ==> {
            &&& width == clamped_dim(window_width)
            &&& height == clamped_dim(window_height)
            &&& pixels@ == gradient_frame(width as int, height as int)
        },
{
    if window_width == 0 || window_height == 0 {
        return FramePlan::Skip;
    }
    let width = clamp_dim(window_width);
    let height = clamp_dim(window_height);
    let pixels = render_gradient(width, height);
    FramePlan::Present { width, height, pixels }
}

} // verus!
