use vstd::prelude::*;

verus! {

/// Size of the window that shows the viewport.
#[derive(Clone, Copy, Debug, PartialEq, Eq, Structural)]
pub struct WindowSize {
    pub width: u32,
    pub height: u32,
}

/// Where the camera stands and how it scales the window onto the world.
#[derive(Clone, Copy, Debug, PartialEq, Eq, Structural)]
pub struct CameraTransform {
    pub center_x: i64,
    pub center_y: i64,
    /// Horizontal scale, in thousandths.
    pub scale_x: i32,
    /// Vertical scale, in thousandths.
    pub scale_y: i32,
}

/// The visible area of the world: every point with
/// `left <= x <= right` and `bottom <= y <= top`.
#[derive(Clone, Copy, Debug, PartialEq, Eq, Structural)]
pub struct ViewportRect {
    pub left: i128,
    pub top: i128,
    pub right: i128,
    pub bottom: i128,
}

pub open spec fn abs(v: int) -> nat {
    if v < 0 { (-v) as nat } else { v as nat }
}

/// Half of a window length once the camera scale is applied. A negative
/// scale mirrors the window, which covers the same span.
pub open spec fn half_span(length: int, scale: int) -> int {
    (length * abs(scale)) / 2000
}

impl ViewportRect {
    pub open spec fn contains_spec(self, x: int, y: int) -> bool {
        self.left <= x <= self.right && self.bottom <= y <= self.top
    }

    /// Whether the point lies in the rectangle, its border included.
    pub fn contains(&self, x: i128, y: i128) -> (r: bool)
        ensures
            r == self.contains_spec(x as int, y as int),
    {
        self.left <= x && x <= self.right && self.bottom <= y && y <= self.top
    }
}

/// The viewport that a window shows through a camera.
pub open spec fn viewport_of(window: WindowSize, camera: CameraTransform) -> ViewportRect {
    let hw = half_span(window.width as int, camera.scale_x as int);
    let hh = half_span(window.height as int, camera.scale_y as int);
    ViewportRect {
        left: (camera.center_x - hw) as i128,
        top: (camera.center_y + hh) as i128,
        right: (camera.center_x + hw) as i128,
        bottom: (camera.center_y - hh) as i128,
    }
}

fn scaled_half(length: u32, scale: i32) -> (r: i128)
    ensures
        r as int == half_span(length as int, scale as int),
        0 <= r <= 4_611_686_018_427_388,
{
    let magnitude: i128 = if scale < 0 {
        -(scale as i128)
    } else {
        scale as i128
    };
    assert(0 <= length as int * magnitude <= 4294967295 * 2147483648) by (nonlinear_arith)
        requires
            0 <= magnitude <= 2147483648,
            0 <= length <= 4294967295,
    ;
    (length as i128 * magnitude) / 2000
}

/// Derives the viewport from the window size and the camera transform:
/// the window's half extents, scaled by the camera, on each side of the
/// camera's center.
pub fn window_to_rect(window: &WindowSize, camera: &CameraTransform) -> (r: ViewportRect)
    ensures
        r == viewport_of(*window, *camera),
        r.left as int == camera.center_x - half_span(window.width as int, camera.scale_x as int),
        r.right as int == camera.center_x + half_span(window.width as int, camera.scale_x as int),
        r.top as int == camera.center_y + half_span(window.height as int, camera.scale_y as int),
        r.bottom as int == camera.center_y - half_span(window.height as int, camera.scale_y as int),
{
    let half_width = scaled_half(window.width, camera.scale_x);
    let half_height = scaled_half(window.height, camera.scale_y);
    let center_x = camera.center_x as i128;
    let center_y = camera.center_y as i128;
    ViewportRect {
        left: center_x - half_width,
        top: center_y + half_height,
        right: center_x + half_width,
        bottom: center_y - half_height,
    }
}

} // verus!
