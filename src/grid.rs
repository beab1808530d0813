//! Mapping a pointer position in the window to logical grid coordinates.
use vstd::prelude::*;

verus! {

/// Size of the logical screen in tiles, with the height of the band at the
/// bottom that the HUD covers.
#[derive(Clone, Copy, Debug, PartialEq, Eq, Structural)]
pub struct GridLayout {
    pub cols: u16,
    pub rows: u16,
    pub ui_height: u16,
}

/// Size of the window in pixels.
#[derive(Clone, Copy, Debug, PartialEq, Eq, Structural)]
pub struct WindowSize {
    pub width: u16,
    pub height: u16,
}

/// A pixel position in the window.
#[derive(Clone, Copy, Debug, PartialEq, Eq, Structural)]
pub struct PixelPos {
    pub x: u16,
    pub y: u16,
}

/// The 2D part of the camera's world transform: the affine map
/// `(x, y) -> ((m00 x + m01 y + tx) / scale, (m10 x + m11 y + ty) / scale)`.
#[derive(Clone, Copy, Debug, PartialEq, Eq, Structural)]
pub struct CameraTransform {
    pub m00: i32,
    pub m01: i32,
    pub m10: i32,
    pub m11: i32,
    pub tx: i32,
    pub ty: i32,
    pub scale: u16,
}

impl CameraTransform {
    pub open spec fn wf(self) -> bool {
        self.scale > 0
    }

    /// The camera that leaves world coordinates as they are.
    pub fn identity() -> (r: CameraTransform)
        ensures
            r.wf(),
            r.m00 == 1 && r.m01 == 0 && r.m10 == 0 && r.m11 == 1,
            r.tx == 0 && r.ty == 0 && r.scale == 1,
    {
        CameraTransform { m00: 1, m01: 0, m10: 0, m11: 1, tx: 0, ty: 0, scale: 1 }
    }
}

/// Grid coordinates as exact fractions: the point `(x_num / den, y_num / den)`.
#[derive(Clone, Copy, Debug, PartialEq, Eq, Structural)]
pub struct GridPoint {
    pub x_num: i128,
    pub y_num: i128,
    pub den: i128,
}

pub open spec fn pow2_100() -> int {
    0x10000000000000000000000000
}

pub open spec fn pow2_60() -> int {
    0x1000000000000000
}

impl GridPoint {
    /// A positive denominator, and magnitudes that leave room for distance
    /// computations.
    pub open spec fn wf(self) -> bool {
        &&& 0 < self.den < pow2_60()
        &&& -pow2_100() < self.x_num < pow2_100()
        &&& -pow2_100() < self.y_num < pow2_100()
    }
}

/// Twice the pointer's offset from the window centre, on one axis.
pub open spec fn centred2(p: int, size: int) -> int {
    2 * p - size
}

/// Twice the scale times the world x coordinate under the camera.
pub open spec fn world_x2(c: CameraTransform, w: WindowSize, p: PixelPos) -> int {
    c.m00 * centred2(p.x as int, w.width as int) + c.m01 * centred2(p.y as int, w.height as int) + 2 * c.tx
}

/// Twice the scale times the world y coordinate under the camera.
pub open spec fn world_y2(c: CameraTransform, w: WindowSize, p: PixelPos) -> int {
    c.m10 * centred2(p.x as int, w.width as int) + c.m11 * centred2(p.y as int, w.height as int) + 2 * c.ty
}

/// The common denominator of the grid coordinates.
pub open spec fn grid_den(c: CameraTransform, w: WindowSize) -> int {
    2 * c.scale * w.width * w.height
}

/// Grid x: the world x divided by the tile width `width / cols`, shifted by
/// half the columns. Over `grid_den` this is
/// `world_x2 * cols * height + (cols / 2) * grid_den`.
pub open spec fn grid_x_num(c: CameraTransform, w: WindowSize, l: GridLayout, p: PixelPos) -> int {
    world_x2(c, w, p) * l.cols * w.height + (l.cols as int / 2) * grid_den(c, w)
}

/// Grid y: the world y divided by the tile height `height / rows`, shifted
/// by half the rows, less half the HUD band.
pub open spec fn grid_y_num(c: CameraTransform, w: WindowSize, l: GridLayout, p: PixelPos) -> int {
    world_y2(c, w, p) * l.rows * w.width + (l.rows as int / 2 - l.ui_height as int / 2) * grid_den(c, w)
}

proof fn lemma_world_bound(m0: int, m1: int, t: int, a: int, b: int)
    requires
        -0x80000000 <= m0 < 0x80000000,
        -0x80000000 <= m1 < 0x80000000,
        -0x80000000 <= t < 0x80000000,
        -0x10000 <= a <= 0x20000,
        -0x10000 <= b <= 0x20000,
    ensures
        -0x1000000000000 <= m0 * a <= 0x1000000000000,
        -0x1000000000000 <= m1 * b <= 0x1000000000000,
        -0x8000000000000 < m0 * a + m1 * b + 2 * t < 0x8000000000000,
{
    assert(-0x1000000000000 <= m0 * a <= 0x1000000000000) by (nonlinear_arith)
        requires
            -0x80000000 <= m0 < 0x80000000,
            -0x10000 <= a <= 0x20000;
    assert(-0x1000000000000 <= m1 * b <= 0x1000000000000) by (nonlinear_arith)
        requires
            -0x80000000 <= m1 < 0x80000000,
            -0x10000 <= b <= 0x20000;
}

proof fn lemma_scaled_bound(v: int, k: int, s: int)
    requires
        -0x8000000000000 < v < 0x8000000000000,
        0 <= k < 0x10000,
        0 <= s < 0x10000,
    ensures
        -0x80000000000000000 < v * k < 0x80000000000000000,
        -0x800000000000000000000 < v * k * s < 0x800000000000000000000,
{
    assert(-0x80000000000000000 < v * k < 0x80000000000000000) by (nonlinear_arith)
        requires
            -0x8000000000000 < v < 0x8000000000000,
            0 <= k < 0x10000;
    let vk = v * k;
    assert(-0x800000000000000000000 < vk * s < 0x800000000000000000000) by (nonlinear_arith)
        requires
            -0x80000000000000000 < vk < 0x80000000000000000,
            0 <= s < 0x10000;
}

/// The grid point under the pointer; `None` when the window has no area.
pub open spec fn grid_point_of(c: CameraTransform, w: WindowSize, l: GridLayout, p: PixelPos) -> Option<GridPoint> {
    if w.width == 0 || w.height == 0 {
        None
    } else {
        Some(
            GridPoint {
                x_num: grid_x_num(c, w, l, p) as i128,
                y_num: grid_y_num(c, w, l, p) as i128,
                den: grid_den(c, w) as i128,
            },
        )
    }
}

/// Maps the pointer position to grid coordinates; `None` when the window
/// has no area.
pub fn map_to_grid(camera: CameraTransform, window: WindowSize, layout: GridLayout, pointer: PixelPos) -> (r:
    Option<GridPoint>)
    requires
        camera.wf(),
    ensures
        r == grid_point_of(camera, window, layout, pointer),
        (window.width == 0 || window.height == 0) <==> r is None,
        r matches Some(g) ==> {
            &&& g.wf()
            &&& g.den == grid_den(camera, window)
            &&& g.x_num == grid_x_num(camera, window, layout, pointer)
            &&& g.y_num == grid_y_num(camera, window, layout, pointer)
        },
{
    if window.width == 0 || window.height == 0 {
        return None;
    }
    let w = window.width as i128;
    let h = window.height as i128;
    let dx = 2 * (pointer.x as i128) - w;
    let dy = 2 * (pointer.y as i128) - h;
    proof {
        lemma_world_bound(camera.m00 as int, camera.m01 as int, camera.tx as int, dx as int, dy as int);
        lemma_world_bound(camera.m10 as int, camera.m11 as int, camera.ty as int, dx as int, dy as int);
    }
    let ax = (camera.m00 as i128) * dx + (camera.m01 as i128) * dy + 2 * (camera.tx as i128);
    let ay = (camera.m10 as i128) * dx + (camera.m11 as i128) * dy + 2 * (camera.ty as i128);
    let s = camera.scale as i128;
    assert(0 < s * w < 0x100000000) by (nonlinear_arith)
        requires
            0 < s < 0x10000,
            0 < w < 0x10000;
    let sw = 2 * (s * w);
    assert(0 < sw * h < 0x2000000000000) by (nonlinear_arith)
        requires
            0 < sw < 0x200000000,
            0 < h < 0x10000;
    let den = sw * h;
    assert(den == 2 * s * w * h) by (nonlinear_arith)
        requires
            sw == 2 * (s * w),
            den == sw * h;
    let half_cols = (layout.cols / 2) as i128;
    let row_shift = (layout.rows / 2) as i128 - (layout.ui_height / 2) as i128;
    assert(0 <= half_cols * den < 0x10000000000000000) by (nonlinear_arith)
        requires
            0 <= half_cols < 0x8000,
            0 < den < 0x2000000000000;
    assert(-0x10000000000000000 < row_shift * den < 0x10000000000000000) by (nonlinear_arith)
        requires
            -0x8000 < row_shift < 0x8000,
            0 < den < 0x2000000000000;
    proof {
        lemma_scaled_bound(ax as int, layout.cols as int, h as int);
        lemma_scaled_bound(ay as int, layout.rows as int, w as int);
    }
    let x_num = ax * (layout.cols as i128) * h + half_cols * den;
    let y_num = ay * (layout.rows as i128) * w + row_shift * den;
    Some(GridPoint { x_num, y_num, den })
}

} // verus!
