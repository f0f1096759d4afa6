use vstd::prelude::*;

verus! {

/// A pixel position: x to the right, y downward, origin at the top-left corner.
pub type PixelCoord = (i32, i32);

/// A viewport's width and height in pixels.
pub type ViewportSize = (u32, u32);

/// A point of viewport space, held exactly as two fractions: its x is
/// `x_num / x_den` and its y is `y_num / y_den`. The viewport spans -1 to 1 on
/// each axis, with y upward.
#[derive(Clone, Copy, Debug, PartialEq, Eq, Structural)]
pub struct ViewportCoord {
    pub x_num: i64,
    pub x_den: u32,
    pub y_num: i64,
    pub y_den: u32,
}

/// `a / b` rounded toward zero, for `b > 0`.
pub open spec fn trunc_div(a: int, b: int) -> int {
    if a >= 0 {
        a / b
    } else {
        -((-a) / b)
    }
}

/// `v` brought into the range of `i32`, as a float-to-integer conversion does.
pub open spec fn saturate_i32(v: int) -> int {
    if v < i32::MIN {
        i32::MIN as int
    } else if v > i32::MAX {
        i32::MAX as int
    } else {
        v
    }
}

/// The viewport point of a pixel: with `y = h - inv_y` counted from the bottom
/// edge, x is `2 * x / w - 1` and y is `2 * y / h - 1`.
pub open spec fn viewport_of(pixel_pos: PixelCoord, viewport_size: ViewportSize) -> (
    int,
    int,
    int,
    int,
) {
    let (x, inv_y) = pixel_pos;
    let (w, h) = viewport_size;
    let y = h - inv_y;
    (2 * x - w, w as int, 2 * y - h, h as int)
}

/// The pixel of a viewport point: x is `(vx + 1) / 2 * w` and the downward y is
/// `(-vy + 1) / 2 * h`, each rounded toward zero and brought into `i32`.
pub open spec fn pixel_of(viewport_pos: ViewportCoord, viewport_size: ViewportSize) -> (int, int) {
    let (w, h) = viewport_size;
    (
        saturate_i32(
            trunc_div((viewport_pos.x_num + viewport_pos.x_den) * w, 2 * viewport_pos.x_den),
        ),
        saturate_i32(
            trunc_div((viewport_pos.y_den - viewport_pos.y_num) * h, 2 * viewport_pos.y_den),
        ),
    )
}

/// Maps a pixel position to viewport space. A viewport side of zero pixels
/// gives a zero denominator.
pub fn pixel_to_viewport(pixel_pos: PixelCoord, viewport_size: ViewportSize) -> (r: ViewportCoord)
    ensures
        (r.x_num as int, r.x_den as int, r.y_num as int, r.y_den as int) == viewport_of(
            pixel_pos,
            viewport_size,
        ),
{
    let (x, inv_y) = pixel_pos;
    let (w, h) = viewport_size;
    let y: i64 = (h as i64) - (inv_y as i64);
    ViewportCoord {
        x_num: 2 * (x as i64) - (w as i64),
        x_den: w,
        y_num: 2 * y - (h as i64),
        y_den: h,
    }
}

/// `num * size / (2 * den)` rounded toward zero and brought into `i32`.
fn scale_truncated(num: i128, size: u32, den: u32) -> (r: i32)
    requires
        den > 0,
        -0x1_0000_0000_0000_0000_0000 < num < 0x1_0000_0000_0000_0000_0000,
    ensures
        r as int == saturate_i32(trunc_div(num * size, 2 * den)),
{
    assert(-0x1_0000_0000_0000_0000_0000_0000_0000 < num * size
        < 0x1_0000_0000_0000_0000_0000_0000_0000) by (nonlinear_arith)
        requires
            -0x1_0000_0000_0000_0000_0000 < num < 0x1_0000_0000_0000_0000_0000,
            0 <= size < 0x1_0000_0000,
    ;
    let product: i128 = num * (size as i128);
    let divisor: u128 = 2 * (den as u128);
    let q: i128 = if product >= 0 {
        ((product as u128) / divisor) as i128
    } else {
        -((((-product) as u128) / divisor) as i128)
    };
    if q < i32::MIN as i128 {
        i32::MIN
    } else if q > i32::MAX as i128 {
        i32::MAX
    } else {
        q as i32
    }
}

/// Maps a viewport point back to a pixel position, rounding toward zero.
pub fn viewport_to_pixel(viewport_pos: ViewportCoord, viewport_size: ViewportSize) -> (r:
    PixelCoord)
    requires
        viewport_pos.x_den > 0,
        viewport_pos.y_den > 0,
    ensures
        (r.0 as int, r.1 as int) == pixel_of(viewport_pos, viewport_size),
{
    let (w, h) = viewport_size;
    let x_num: i128 = viewport_pos.x_num as i128 + viewport_pos.x_den as i128;
    let y_num: i128 = viewport_pos.y_den as i128 - viewport_pos.y_num as i128;
    (scale_truncated(x_num, w, viewport_pos.x_den), scale_truncated(y_num, h, viewport_pos.y_den))
}

/// Mapping a pixel into a viewport of nonzero size and back gives the pixel
/// itself.
pub proof fn lemma_viewport_round_trip(pixel_pos: PixelCoord, viewport_size: ViewportSize)
    requires
        viewport_size.0 > 0,
        viewport_size.1 > 0,
    ensures
        ({
            let (xn, xd, yn, yd) = viewport_of(pixel_pos, viewport_size);
            let c = ViewportCoord {
                x_num: xn as i64,
                x_den: xd as u32,
                y_num: yn as i64,
                y_den: yd as u32,
            };
            pixel_of(c, viewport_size) == (pixel_pos.0 as int, pixel_pos.1 as int)
        }),
{
    let (x, inv_y) = pixel_pos;
    let (w, h) = viewport_size;
    let xi = x as int;
    let yi = inv_y as int;
    let wi = w as int;
    let hi = h as int;
    assert((2 * xi - wi + wi) * wi == xi * (2 * wi)) by (nonlinear_arith);
    assert((hi - (2 * (hi - yi) - hi)) * hi == yi * (2 * hi)) by (nonlinear_arith);
    assert(xi * (2 * wi) / (2 * wi) == xi) by (nonlinear_arith) requires wi > 0;
    assert((-xi) * (2 * wi) / (2 * wi) == -xi) by (nonlinear_arith) requires wi > 0;
    assert(yi * (2 * hi) / (2 * hi) == yi) by (nonlinear_arith) requires hi > 0;
    assert((-yi) * (2 * hi) / (2 * hi) == -yi) by (nonlinear_arith) requires hi > 0;
    assert(-(xi * (2 * wi)) == (-xi) * (2 * wi)) by (nonlinear_arith);
    assert(-(yi * (2 * hi)) == (-yi) * (2 * hi)) by (nonlinear_arith);
}

} // verus!
