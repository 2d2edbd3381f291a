//! Projection of layer rectangles into whole device pixels.

use vstd::prelude::*;
use crate::geometry::Rect;

verus! {

/// An affine map of the plane with whole-number coefficients: the point
/// `(x, y)` goes to `(m11*x + m21*y + tx, m12*x + m22*y + ty)`.
#[derive(Clone, Copy, Debug, PartialEq, Eq, Structural)]
pub struct Transform {
    pub m11: i32,
    pub m12: i32,
    pub m21: i32,
    pub m22: i32,
    pub tx: i32,
    pub ty: i32,
}

/// A position on the device pixel grid.
#[derive(Clone, Copy, Debug, PartialEq, Eq, Structural)]
pub struct DevicePoint {
    pub x: i32,
    pub y: i32,
}

/// The half-open device pixel rectangle `[min.x, max.x) x [min.y, max.y)`.
#[derive(Clone, Copy, Debug, PartialEq, Eq, Structural)]
pub struct DeviceRect {
    pub min: DevicePoint,
    pub max: DevicePoint,
}

pub open spec fn min4(a: int, b: int, c: int, d: int) -> int {
    let ab = if a <= b { a } else { b };
    let cd = if c <= d { c } else { d };
    if ab <= cd { ab } else { cd }
}

pub open spec fn max4(a: int, b: int, c: int, d: int) -> int {
    let ab = if a >= b { a } else { b };
    let cd = if c >= d { c } else { d };
    if ab >= cd { ab } else { cd }
}

/// The nearest device coordinate that the pixel grid can address.
pub open spec fn saturate(v: int) -> i32 {
    if v < i32::MIN {
        i32::MIN
    } else if v > i32::MAX {
        i32::MAX
    } else {
        v as i32
    }
}

impl Transform {
    pub open spec fn spec_identity() -> Transform {
        Transform { m11: 1, m12: 0, m21: 0, m22: 1, tx: 0, ty: 0 }
    }

    /// The map that multiplies both coordinates by `factor`.
    pub open spec fn spec_scale(factor: i32) -> Transform {
        Transform { m11: factor, m12: 0, m21: 0, m22: factor, tx: 0, ty: 0 }
    }

    pub open spec fn spec_translation(tx: i32, ty: i32) -> Transform {
        Transform { m11: 1, m12: 0, m21: 0, m22: 1, tx, ty }
    }

    pub open spec fn map_x(self, x: int, y: int) -> int {
        self.m11 * x + self.m21 * y + self.tx
    }

    pub open spec fn map_y(self, x: int, y: int) -> int {
        self.m12 * x + self.m22 * y + self.ty
    }

    /// Horizontal and vertical lines stay horizontal or vertical.
    pub open spec fn spec_preserves_axis_alignment(self) -> bool {
        (self.m12 == 0 && self.m21 == 0) || (self.m11 == 0 && self.m22 == 0)
    }

    pub fn identity() -> (t: Transform)
        ensures
            t == Transform::spec_identity(),
    {
        Transform { m11: 1, m12: 0, m21: 0, m22: 1, tx: 0, ty: 0 }
    }

    pub fn scale(factor: i32) -> (t: Transform)
        ensures
            t == Transform::spec_scale(factor),
    {
        Transform { m11: factor, m12: 0, m21: 0, m22: factor, tx: 0, ty: 0 }
    }

    pub fn translation(tx: i32, ty: i32) -> (t: Transform)
        ensures
            t == Transform::spec_translation(tx, ty),
    {
        Transform { m11: 1, m12: 0, m21: 0, m22: 1, tx, ty }
    }

    pub fn preserves_axis_alignment(&self) -> (b: bool)
        ensures
            b == self.spec_preserves_axis_alignment(),
    {
        (self.m12 == 0 && self.m21 == 0) || (self.m11 == 0 && self.m22 == 0)
    }
}

impl DeviceRect {
    pub open spec fn spec_zero() -> DeviceRect {
        DeviceRect { min: DevicePoint { x: 0, y: 0 }, max: DevicePoint { x: 0, y: 0 } }
    }

    pub open spec fn width(self) -> int {
        self.max.x - self.min.x
    }

    pub open spec fn height(self) -> int {
        self.max.y - self.min.y
    }

    pub open spec fn is_empty(self) -> bool {
        self.max.x <= self.min.x || self.max.y <= self.min.y
    }

    /// Every pixel of `other` is a pixel of `self`.
    pub open spec fn contains_rect(self, other: DeviceRect) -> bool {
        other.is_empty() || (self.min.x <= other.min.x && other.max.x <= self.max.x
            && self.min.y <= other.min.y && other.max.y <= self.max.y)
    }

    pub fn zero() -> (r: DeviceRect)
        ensures
            r == DeviceRect::spec_zero(),
    {
        DeviceRect { min: DevicePoint { x: 0, y: 0 }, max: DevicePoint { x: 0, y: 0 } }
    }
}

/// The horizontal device coordinate of the layer point `(x, y)`, before saturation.
pub open spec fn device_x(t: Transform, ratio: u32, x: int, y: int) -> int {
    t.map_x(x, y) * ratio
}

/// The vertical device coordinate of the layer point `(x, y)`, before saturation.
pub open spec fn device_y(t: Transform, ratio: u32, x: int, y: int) -> int {
    t.map_y(x, y) * ratio
}

/// The bounding box, in device pixels, of the four transformed corners of `rect`.
pub open spec fn project_outer(rect: Rect, t: Transform, ratio: u32) -> DeviceRect {
    let (x0, y0, x1, y1) = (rect.min.x as int, rect.min.y as int, rect.max.x as int, rect.max.y as int);
    DeviceRect {
        min: DevicePoint {
            x: saturate(
                min4(
                    device_x(t, ratio, x0, y0),
                    device_x(t, ratio, x1, y0),
                    device_x(t, ratio, x0, y1),
                    device_x(t, ratio, x1, y1),
                ),
            ),
            y: saturate(
                min4(
                    device_y(t, ratio, x0, y0),
                    device_y(t, ratio, x1, y0),
                    device_y(t, ratio, x0, y1),
                    device_y(t, ratio, x1, y1),
                ),
            ),
        },
        max: DevicePoint {
            x: saturate(
                max4(
                    device_x(t, ratio, x0, y0),
                    device_x(t, ratio, x1, y0),
                    device_x(t, ratio, x0, y1),
                    device_x(t, ratio, x1, y1),
                ),
            ),
            y: saturate(
                max4(
                    device_y(t, ratio, x0, y0),
                    device_y(t, ratio, x1, y0),
                    device_y(t, ratio, x0, y1),
                    device_y(t, ratio, x1, y1),
                ),
            ),
        },
    }
}

/// A device rectangle that lies within the transformed `rect`: the whole
/// image where the transform keeps the edges on the axes, and nothing
/// where it rotates or skews them.
pub open spec fn project_inner(rect: Rect, t: Transform, ratio: u32) -> DeviceRect {
    if t.spec_preserves_axis_alignment() && rect.min.x <= rect.max.x && rect.min.y <= rect.max.y {
        project_outer(rect, t, ratio)
    } else {
        DeviceRect::spec_zero()
    }
}

proof fn lemma_product_bound(a: int, b: int, bound_a: int, bound_b: int)
    requires
        -bound_a <= a <= bound_a,
        -bound_b <= b <= bound_b,
    ensures
        -(bound_a * bound_b) <= a * b <= bound_a * bound_b,
{
    assert(-(bound_a * bound_b) <= a * b <= bound_a * bound_b) by (nonlinear_arith)
        requires
            -bound_a <= a <= bound_a,
            -bound_b <= b <= bound_b,
    {
        assert((bound_a - a) * (bound_b - b) >= 0);
        assert((bound_a + a) * (bound_b + b) >= 0);
        assert((bound_a - a) * (bound_b + b) >= 0);
        assert((bound_a + a) * (bound_b - b) >= 0);
    }
}

fn device_coord(a: i32, x: i32, b: i32, y: i32, c: i32, ratio: u32) -> (r: i128)
    ensures
        r == (a * x + b * y + c) * ratio,
{
    proof {
        lemma_product_bound(a as int, x as int, 0x8000_0000, 0x8000_0000);
        lemma_product_bound(b as int, y as int, 0x8000_0000, 0x8000_0000);
        assert(0x8000_0000int * 0x8000_0000int == 0x4000_0000_0000_0000int);
    }
    let ax: i128 = (a as i128) * (x as i128);
    let by: i128 = (b as i128) * (y as i128);
    let sum: i128 = ax + by + (c as i128);
    proof {
        lemma_product_bound(sum as int, ratio as int, 0x1_0000_0000_0000_0000, 0x1_0000_0000);
        assert(0x1_0000_0000_0000_0000int * 0x1_0000_0000int
            == 0x1_0000_0000_0000_0000_0000_0000int);
    }
    sum * (ratio as i128)
}

fn least4(a: i128, b: i128, c: i128, d: i128) -> (r: i128)
    ensures
        r == min4(a as int, b as int, c as int, d as int),
{
    let ab: i128 = if a <= b { a } else { b };
    let cd: i128 = if c <= d { c } else { d };
    if ab <= cd { ab } else { cd }
}

fn greatest4(a: i128, b: i128, c: i128, d: i128) -> (r: i128)
    ensures
        r == max4(a as int, b as int, c as int, d as int),
{
    let ab: i128 = if a >= b { a } else { b };
    let cd: i128 = if c >= d { c } else { d };
    if ab >= cd { ab } else { cd }
}

fn saturating_narrow(v: i128) -> (r: i32)
    ensures
        r == saturate(v as int),
{
    if v < -0x8000_0000 {
        i32::MIN
    } else if v > 0x7fff_ffff {
        i32::MAX
    } else {
        v as i32
    }
}

/// Projects `rect` through `transform` and scales it by `device_pixel_ratio`
/// whole device pixels per layer unit. The first rectangle bounds the image
/// from outside, the second lies within it.
pub fn project(rect: &Rect, transform: &Transform, device_pixel_ratio: u32) -> (r: (
    DeviceRect,
    DeviceRect,
))
    ensures
        r.0 == project_outer(*rect, *transform, device_pixel_ratio),
        r.1 == project_inner(*rect, *transform, device_pixel_ratio),
{
    let t = transform;
    let xa: i128 = device_coord(t.m11, rect.min.x, t.m21, rect.min.y, t.tx, device_pixel_ratio);
    let xb: i128 = device_coord(t.m11, rect.max.x, t.m21, rect.min.y, t.tx, device_pixel_ratio);
    let xc: i128 = device_coord(t.m11, rect.min.x, t.m21, rect.max.y, t.tx, device_pixel_ratio);
    let xd: i128 = device_coord(t.m11, rect.max.x, t.m21, rect.max.y, t.tx, device_pixel_ratio);
    let ya: i128 = device_coord(t.m12, rect.min.x, t.m22, rect.min.y, t.ty, device_pixel_ratio);
    let yb: i128 = device_coord(t.m12, rect.max.x, t.m22, rect.min.y, t.ty, device_pixel_ratio);
    let yc: i128 = device_coord(t.m12, rect.min.x, t.m22, rect.max.y, t.ty, device_pixel_ratio);
    let yd: i128 = device_coord(t.m12, rect.max.x, t.m22, rect.max.y, t.ty, device_pixel_ratio);
    let outer = DeviceRect {
        min: DevicePoint {
            x: saturating_narrow(least4(xa, xb, xc, xd)),
            y: saturating_narrow(least4(ya, yb, yc, yd)),
        },
        max: DevicePoint {
            x: saturating_narrow(greatest4(xa, xb, xc, xd)),
            y: saturating_narrow(greatest4(ya, yb, yc, yd)),
        },
    };
    let inner = if transform.preserves_axis_alignment() && rect.min.x <= rect.max.x && rect.min.y
        <= rect.max.y {
        outer
    } else {
        DeviceRect::zero()
    };
    (outer, inner)
}

} // verus!
