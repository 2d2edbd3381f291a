//! Integer points and half-open axis-aligned rectangles.

use vstd::prelude::*;

verus! {

/// A position in layer units.
#[derive(Clone, Copy, Debug, PartialEq, Eq, Structural)]
pub struct Point {
    pub x: i32,
    pub y: i32,
}

/// The horizontal and vertical radius of one rounded corner.
#[derive(Clone, Copy, Debug, PartialEq, Eq, Structural)]
pub struct Size {
    pub width: u32,
    pub height: u32,
}

/// The half-open rectangle `[min.x, max.x) x [min.y, max.y)`.
/// It holds no point when `max` is not strictly beyond `min` on both axes.
#[derive(Clone, Copy, Debug, PartialEq, Eq, Structural)]
pub struct Rect {
    pub min: Point,
    pub max: Point,
}

/// The radii of the four corners of a rounded rectangle.
#[derive(Clone, Copy, Debug, PartialEq, Eq, Structural)]
pub struct BorderRadius {
    pub top_left: Size,
    pub top_right: Size,
    pub bottom_left: Size,
    pub bottom_right: Size,
}

pub open spec fn max_int(a: int, b: int) -> int {
    if a >= b { a } else { b }
}

pub open spec fn min_int(a: int, b: int) -> int {
    if a <= b { a } else { b }
}

impl Point {
    pub open spec fn origin() -> Point {
        Point { x: 0, y: 0 }
    }

    pub fn new(x: i32, y: i32) -> (p: Point)
        ensures
            p.x == x,
            p.y == y,
    {
        Point { x, y }
    }

    pub fn zero() -> (p: Point)
        ensures
            p == Point::origin(),
    {
        Point { x: 0, y: 0 }
    }
}

impl Size {
    pub fn new(width: u32, height: u32) -> (s: Size)
        ensures
            s.width == width,
            s.height == height,
    {
        Size { width, height }
    }
}

impl BorderRadius {
    /// The same radius, horizontally and vertically, at all four corners.
    pub open spec fn spec_uniform(radius: u32) -> BorderRadius {
        let corner = Size { width: radius, height: radius };
        BorderRadius { top_left: corner, top_right: corner, bottom_left: corner, bottom_right: corner }
    }

    pub fn uniform(radius: u32) -> (r: BorderRadius)
        ensures
            r == BorderRadius::spec_uniform(radius),
    {
        let corner = Size { width: radius, height: radius };
        BorderRadius { top_left: corner, top_right: corner, bottom_left: corner, bottom_right: corner }
    }

    /// How far the left edge must move inwards to clear both left corners.
    pub open spec fn left_inset(self) -> int {
        max_int(self.top_left.width as int, self.bottom_left.width as int)
    }

    pub open spec fn right_inset(self) -> int {
        max_int(self.top_right.width as int, self.bottom_right.width as int)
    }

    pub open spec fn top_inset(self) -> int {
        max_int(self.top_left.height as int, self.top_right.height as int)
    }

    pub open spec fn bottom_inset(self) -> int {
        max_int(self.bottom_left.height as int, self.bottom_right.height as int)
    }
}

impl Rect {
    /// The rectangle of no extent at the origin.
    pub open spec fn spec_zero() -> Rect {
        Rect { min: Point::origin(), max: Point::origin() }
    }

    pub open spec fn width(self) -> int {
        self.max.x - self.min.x
    }

    pub open spec fn height(self) -> int {
        self.max.y - self.min.y
    }

    pub open spec fn is_empty(self) -> bool {
        self.max.x <= self.min.x || self.max.y <= self.min.y
    }

    pub open spec fn contains_point(self, x: int, y: int) -> bool {
        self.min.x <= x < self.max.x && self.min.y <= y < self.max.y
    }

    /// Every point of `other` is a point of `self`.
    pub open spec fn contains_rect(self, other: Rect) -> bool {
        other.is_empty() || (self.min.x <= other.min.x && other.max.x <= self.max.x
            && self.min.y <= other.min.y && other.max.y <= self.max.y)
    }

    /// The two rectangles share a point.
    pub open spec fn intersects(self, other: Rect) -> bool {
        max_int(self.min.x as int, other.min.x as int) < min_int(self.max.x as int, other.max.x as int)
            && max_int(self.min.y as int, other.min.y as int) < min_int(
            self.max.y as int,
            other.max.y as int,
        )
    }

    /// The common part of two rectangles, absent when they share no point.
    pub open spec fn spec_intersection(self, other: Rect) -> Option<Rect> {
        if self.intersects(other) {
            Some(
                Rect {
                    min: Point {
                        x: if self.min.x >= other.min.x { self.min.x } else { other.min.x },
                        y: if self.min.y >= other.min.y { self.min.y } else { other.min.y },
                    },
                    max: Point {
                        x: if self.max.x <= other.max.x { self.max.x } else { other.max.x },
                        y: if self.max.y <= other.max.y { self.max.y } else { other.max.y },
                    },
                },
            )
        } else {
            None
        }
    }

    /// Whether the rectangle can be re-expressed relative to `origin`
    /// without leaving the coordinate range.
    pub open spec fn fits_relative_to(self, origin: Point) -> bool {
        &&& i32::MIN <= self.min.x - origin.x <= i32::MAX
        &&& i32::MIN <= self.min.y - origin.y <= i32::MAX
        &&& i32::MIN <= self.max.x - origin.x <= i32::MAX
        &&& i32::MIN <= self.max.y - origin.y <= i32::MAX
    }

    /// The same rectangle in coordinates whose zero is `origin`.
    pub open spec fn spec_relative_to(self, origin: Point) -> Rect {
        Rect {
            min: Point { x: (self.min.x - origin.x) as i32, y: (self.min.y - origin.y) as i32 },
            max: Point { x: (self.max.x - origin.x) as i32, y: (self.max.y - origin.y) as i32 },
        }
    }

    /// The largest rectangle that avoids all four rounded corners, absent
    /// when the corners leave no extent on one of the axes.
    pub open spec fn spec_inner_rect(self, radii: BorderRadius) -> Option<Rect> {
        if radii.left_inset() + radii.right_inset() < self.width() && radii.top_inset()
            + radii.bottom_inset() < self.height() {
            Some(
                Rect {
                    min: Point {
                        x: (self.min.x + radii.left_inset()) as i32,
                        y: (self.min.y + radii.top_inset()) as i32,
                    },
                    max: Point {
                        x: (self.max.x - radii.right_inset()) as i32,
                        y: (self.max.y - radii.bottom_inset()) as i32,
                    },
                },
            )
        } else {
            None
        }
    }

    pub fn new(min: Point, max: Point) -> (r: Rect)
        ensures
            r.min == min,
            r.max == max,
    {
        Rect { min, max }
    }

    pub fn zero() -> (r: Rect)
        ensures
            r == Rect::spec_zero(),
    {
        Rect { min: Point { x: 0, y: 0 }, max: Point { x: 0, y: 0 } }
    }

    pub fn intersection(&self, other: &Rect) -> (r: Option<Rect>)
        ensures
            r == self.spec_intersection(*other),
    {
        let min_x: i32 = if self.min.x >= other.min.x { self.min.x } else { other.min.x };
        let min_y: i32 = if self.min.y >= other.min.y { self.min.y } else { other.min.y };
        let max_x: i32 = if self.max.x <= other.max.x { self.max.x } else { other.max.x };
        let max_y: i32 = if self.max.y <= other.max.y { self.max.y } else { other.max.y };
        if min_x < max_x && min_y < max_y {
            Some(Rect { min: Point { x: min_x, y: min_y }, max: Point { x: max_x, y: max_y } })
        } else {
            None
        }
    }

    pub fn can_be_relative_to(&self, origin: Point) -> (b: bool)
        ensures
            b == self.fits_relative_to(origin),
    {
        let min_x: i64 = self.min.x as i64 - origin.x as i64;
        let min_y: i64 = self.min.y as i64 - origin.y as i64;
        let max_x: i64 = self.max.x as i64 - origin.x as i64;
        let max_y: i64 = self.max.y as i64 - origin.y as i64;
        -0x8000_0000 <= min_x && min_x <= 0x7fff_ffff && -0x8000_0000 <= min_y && min_y
            <= 0x7fff_ffff && -0x8000_0000 <= max_x && max_x <= 0x7fff_ffff && -0x8000_0000
            <= max_y && max_y <= 0x7fff_ffff
    }

    pub fn relative_to(&self, origin: Point) -> (r: Rect)
        requires
            self.fits_relative_to(origin),
        ensures
            r == self.spec_relative_to(origin),
    {
        Rect {
            min: Point { x: self.min.x - origin.x, y: self.min.y - origin.y },
            max: Point { x: self.max.x - origin.x, y: self.max.y - origin.y },
        }
    }
}

fn larger(a: u32, b: u32) -> (r: u32)
    ensures
        r == max_int(a as int, b as int),
{
    if a >= b { a } else { b }
}

/// Insets each edge of `rect` by the larger of the two radii that touch it.
pub fn extract_inner_rect(rect: &Rect, radii: &BorderRadius) -> (r: Option<Rect>)
    ensures
        r == rect.spec_inner_rect(*radii),
{
    let left: i64 = larger(radii.top_left.width, radii.bottom_left.width) as i64;
    let right: i64 = larger(radii.top_right.width, radii.bottom_right.width) as i64;
    let top: i64 = larger(radii.top_left.height, radii.top_right.height) as i64;
    let bottom: i64 = larger(radii.bottom_left.height, radii.bottom_right.height) as i64;
    let width: i64 = rect.max.x as i64 - rect.min.x as i64;
    let height: i64 = rect.max.y as i64 - rect.min.y as i64;
    if left + right < width && top + bottom < height {
        Some(
            Rect {
                min: Point {
                    x: (rect.min.x as i64 + left) as i32,
                    y: (rect.min.y as i64 + top) as i32,
                },
                max: Point {
                    x: (rect.max.x as i64 - right) as i32,
                    y: (rect.max.y as i64 - bottom) as i32,
                },
            },
        )
    } else {
        None
    }
}

} // verus!
