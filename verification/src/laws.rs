//! What holds of the bounds of every source list.

use vstd::prelude::*;
use crate::geometry::{BorderRadius, Rect};
use crate::transform::{
    device_x, device_y, max4, min4, project_inner, project_outer, saturate, Transform,
};
use crate::clip::{
    has_fallback, inner_fold, local_bounds, outer_fold, rect_or_zero, unbounded_rect, ClipMode,
    ClipSource, ClipSources, MaskBounds,
};

verus! {

impl ClipSource {
    /// A rectangle, or a rounded rectangle whose interior is visible.
    pub open spec fn is_hard_edged(self) -> bool {
        match self {
            ClipSource::Rectangle(_) => true,
            ClipSource::RoundedRectangle(_, _, mode) => mode == ClipMode::Clip,
            _ => false,
        }
    }

    /// The rectangle of a rectangle source, the bounding rectangle of a rounded one.
    pub open spec fn bounding_rect(self) -> Rect {
        match self {
            ClipSource::Rectangle(rect) => rect,
            ClipSource::RoundedRectangle(rect, _, _) => rect,
            ClipSource::Image(mask) => mask.rect,
            ClipSource::BorderCorner(_) => unbounded_rect(),
        }
    }
}

/// The point lies in the box that one of the four rounded corners of
/// `rect` occupies.
pub open spec fn in_corner_box(rect: Rect, radii: BorderRadius, x: int, y: int) -> bool {
    ||| (x < rect.min.x + radii.top_left.width && y < rect.min.y + radii.top_left.height)
    ||| (x >= rect.max.x - radii.top_right.width && y < rect.min.y + radii.top_right.height)
    ||| (x < rect.min.x + radii.bottom_left.width && y >= rect.max.y - radii.bottom_left.height)
    ||| (x >= rect.max.x - radii.bottom_right.width && y >= rect.max.y
        - radii.bottom_right.height)
}

/// The extracted inner rectangle is never empty, lies within the rounded
/// rectangle's bounds and holds no point of a corner box.
pub proof fn lemma_inner_rect_avoids_corners(rect: Rect, radii: BorderRadius, x: int, y: int)
    requires
        rect.spec_inner_rect(radii).is_some(),
    ensures
        !rect.spec_inner_rect(radii).unwrap().is_empty(),
        rect.contains_rect(rect.spec_inner_rect(radii).unwrap()),
        rect.spec_inner_rect(radii).unwrap().contains_point(x, y) ==> !in_corner_box(rect, radii, x, y),
{
}

pub open spec fn all_hard_edged(clips: Seq<ClipSource>) -> bool {
    forall|i: int| 0 <= i < clips.len() ==> (#[trigger] clips[i]).is_hard_edged()
}

/// The point lies in the bounding rectangle of every source.
pub open spec fn in_every_rect(clips: Seq<ClipSource>, x: int, y: int) -> bool {
    forall|i: int| 0 <= i < clips.len() ==> (#[trigger] clips[i]).bounding_rect().contains_point(x, y)
}

/// Each corner of `rect` projects to a device position that the pixel grid can address.
pub open spec fn projects_unsaturated(rect: Rect, t: Transform, ratio: u32) -> bool {
    let (x0, y0, x1, y1) = (rect.min.x as int, rect.min.y as int, rect.max.x as int, rect.max.y as int);
    &&& i32::MIN <= device_x(t, ratio, x0, y0) <= i32::MAX
    &&& i32::MIN <= device_x(t, ratio, x1, y0) <= i32::MAX
    &&& i32::MIN <= device_x(t, ratio, x0, y1) <= i32::MAX
    &&& i32::MIN <= device_x(t, ratio, x1, y1) <= i32::MAX
    &&& i32::MIN <= device_y(t, ratio, x0, y0) <= i32::MAX
    &&& i32::MIN <= device_y(t, ratio, x1, y0) <= i32::MAX
    &&& i32::MIN <= device_y(t, ratio, x0, y1) <= i32::MAX
    &&& i32::MIN <= device_y(t, ratio, x1, y1) <= i32::MAX
}

proof fn lemma_outer_fold_points(clips: Seq<ClipSource>, x: int, y: int)
    requires
        all_hard_edged(clips),
    ensures
        rect_or_zero(outer_fold(clips)).contains_point(x, y) <==> (unbounded_rect().contains_point(x, y)
            && in_every_rect(clips, x, y)),
    decreases clips.len(),
{
    if clips.len() > 0 {
        let rest = clips.drop_last();
        assert(all_hard_edged(rest)) by {
            assert forall|i: int| 0 <= i < rest.len() implies (#[trigger] rest[i]).is_hard_edged() by {
                assert(rest[i] == clips[i]);
            }
        }
        lemma_outer_fold_points(rest, x, y);
        let last = clips.last();
        assert(last.is_hard_edged());
        if in_every_rect(clips, x, y) {
            assert forall|i: int| 0 <= i < rest.len() implies (#[trigger] rest[i]).bounding_rect().contains_point(
                x,
                y,
            ) by {
                assert(rest[i] == clips[i]);
            }
            assert(last.bounding_rect().contains_point(x, y));
        }
        if in_every_rect(rest, x, y) && last.bounding_rect().contains_point(x, y) {
            assert forall|i: int| 0 <= i < clips.len() implies (#[trigger] clips[i]).bounding_rect().contains_point(
                x,
                y,
            ) by {
                if i < rest.len() {
                    assert(rest[i] == clips[i]);
                }
            }
        }
    }
}

/// Of a list of rectangles and `Clip`-mode rounded rectangles the outer
/// bound is present, and its points are exactly those that lie in every
/// source's rectangle (a rounded one counted as its bounding rectangle),
/// within the range that stands for "unbounded".
pub proof fn lemma_outer_is_exact_intersection(clips: Seq<ClipSource>, x: int, y: int)
    requires
        all_hard_edged(clips),
    ensures
        local_bounds(clips).outer.is_some(),
        local_bounds(clips).outer.unwrap().local_rect.contains_point(x, y) <==> (
        unbounded_rect().contains_point(x, y) && in_every_rect(clips, x, y)),
{
    lemma_outer_fold_points(clips, x, y);
}

/// A `ClipOut`-mode rounded rectangle or a border corner anywhere in the
/// list leaves the outer bound absent and the inner bound present with no
/// area, locally and, after any refresh, on the device.
pub proof fn lemma_fallback_bounds(clips: Seq<ClipSource>, i: int, t: Transform, ratio: u32)
    requires
        0 <= i < clips.len(),
        clips[i].forces_fallback(),
    ensures
        local_bounds(clips).outer.is_none(),
        local_bounds(clips).inner.is_some(),
        local_bounds(clips).inner.unwrap().local_rect == Rect::spec_zero(),
        local_bounds(clips).inner.unwrap().local_rect.is_empty(),
        local_bounds(clips).projected(t, ratio).outer.is_none(),
        local_bounds(clips).projected(t, ratio).inner.is_some(),
        local_bounds(clips).projected(t, ratio).inner.unwrap().device_rect.is_empty(),
{
    assert(has_fallback(clips));
}

proof fn lemma_folds_nested(clips: Seq<ClipSource>)
    ensures
        match outer_fold(clips) {
            Some(r) => !r.is_empty() && unbounded_rect().contains_rect(r),
            None => true,
        },
        match inner_fold(clips) {
            Some(inner) => !inner.is_empty() && match outer_fold(clips) {
                Some(outer) => outer.contains_rect(inner),
                None => false,
            },
            None => true,
        },
    decreases clips.len(),
{
    if clips.len() > 0 {
        lemma_folds_nested(clips.drop_last());
    }
}

/// The local inner bound lies within the local outer bound whenever both are present.
pub proof fn lemma_inner_within_outer(clips: Seq<ClipSource>)
    ensures
        local_bounds(clips).inner.is_some(),
        local_bounds(clips).outer.is_some() ==> local_bounds(clips).outer.unwrap().local_rect.contains_rect(
            local_bounds(clips).inner.unwrap().local_rect,
        ),
{
    lemma_folds_nested(clips);
}

/// A coordinate of the form `(m*v + c) * r` moves in one direction as `v` grows.
proof fn lemma_between(m: int, c: int, r: int, lo: int, v: int, hi: int)
    requires
        lo <= v <= hi,
        r >= 0,
    ensures
        ((m * lo + c) * r <= (m * v + c) * r <= (m * hi + c) * r) || ((m * hi + c) * r <= (m * v
            + c) * r <= (m * lo + c) * r),
{
    if m >= 0 {
        assert(m * lo <= m * v <= m * hi) by (nonlinear_arith)
            requires
                lo <= v <= hi,
                m >= 0,
        ;
        assert((m * lo + c) * r <= (m * v + c) * r <= (m * hi + c) * r) by (nonlinear_arith)
            requires
                m * lo <= m * v <= m * hi,
                r >= 0,
        ;
    } else {
        assert(m * hi <= m * v <= m * lo) by (nonlinear_arith)
            requires
                lo <= v <= hi,
                m < 0,
        ;
        assert((m * hi + c) * r <= (m * v + c) * r <= (m * lo + c) * r) by (nonlinear_arith)
            requires
                m * hi <= m * v <= m * lo,
                r >= 0,
        ;
    }
}

spec fn affine(a: int, b: int, c: int, r: int, x: int, y: int) -> int {
    (a * x + b * y + c) * r
}

/// Over a box an affine coordinate stays between its values at the corners.
proof fn lemma_affine_within_corners(
    a: int,
    b: int,
    c: int,
    r: int,
    x0: int,
    x: int,
    x1: int,
    y0: int,
    y: int,
    y1: int,
)
    requires
        x0 <= x <= x1,
        y0 <= y <= y1,
        r >= 0,
    ensures
        min4(
            affine(a, b, c, r, x0, y0),
            affine(a, b, c, r, x1, y0),
            affine(a, b, c, r, x0, y1),
            affine(a, b, c, r, x1, y1),
        ) <= affine(a, b, c, r, x, y) <= max4(
            affine(a, b, c, r, x0, y0),
            affine(a, b, c, r, x1, y0),
            affine(a, b, c, r, x0, y1),
            affine(a, b, c, r, x1, y1),
        ),
{
    lemma_between(a, b * y + c, r, x0, x, x1);
    lemma_between(b, a * x0 + c, r, y0, y, y1);
    lemma_between(b, a * x1 + c, r, y0, y, y1);
}

/// The outer device rectangle is conservative: every point of the
/// rectangle, its far edges included, projects to a device position
/// between the rectangle's device bounds.
pub proof fn lemma_outer_covers_image(rect: Rect, t: Transform, ratio: u32, x: int, y: int)
    requires
        rect.min.x <= x <= rect.max.x,
        rect.min.y <= y <= rect.max.y,
    ensures
        project_outer(rect, t, ratio).min.x <= saturate(device_x(t, ratio, x, y)) <= project_outer(
            rect,
            t,
            ratio,
        ).max.x,
        project_outer(rect, t, ratio).min.y <= saturate(device_y(t, ratio, x, y)) <= project_outer(
            rect,
            t,
            ratio,
        ).max.y,
{
    let (x0, y0, x1, y1) = (rect.min.x as int, rect.min.y as int, rect.max.x as int, rect.max.y as int);
    let r = ratio as int;
    lemma_affine_within_corners(t.m11 as int, t.m21 as int, t.tx as int, r, x0, x, x1, y0, y, y1);
    lemma_affine_within_corners(t.m12 as int, t.m22 as int, t.ty as int, r, x0, x, x1, y0, y, y1);
}

/// The projected bounding box grows with the rectangle.
proof fn lemma_project_outer_monotone(outer: Rect, inner: Rect, t: Transform, ratio: u32)
    requires
        outer.min.x <= inner.min.x <= inner.max.x <= outer.max.x,
        outer.min.y <= inner.min.y <= inner.max.y <= outer.max.y,
    ensures
        project_outer(outer, t, ratio).contains_rect(project_outer(inner, t, ratio)),
{
    let (x0, y0, x1, y1) = (outer.min.x as int, outer.min.y as int, outer.max.x as int, outer.max.y as int);
    let (u0, v0, u1, v1) = (inner.min.x as int, inner.min.y as int, inner.max.x as int, inner.max.y as int);
    let r = ratio as int;
    lemma_affine_within_corners(t.m11 as int, t.m21 as int, t.tx as int, r, x0, u0, x1, y0, v0, y1);
    lemma_affine_within_corners(t.m11 as int, t.m21 as int, t.tx as int, r, x0, u1, x1, y0, v0, y1);
    lemma_affine_within_corners(t.m11 as int, t.m21 as int, t.tx as int, r, x0, u0, x1, y0, v1, y1);
    lemma_affine_within_corners(t.m11 as int, t.m21 as int, t.tx as int, r, x0, u1, x1, y0, v1, y1);
    lemma_affine_within_corners(t.m12 as int, t.m22 as int, t.ty as int, r, x0, u0, x1, y0, v0, y1);
    lemma_affine_within_corners(t.m12 as int, t.m22 as int, t.ty as int, r, x0, u1, x1, y0, v0, y1);
    lemma_affine_within_corners(t.m12 as int, t.m22 as int, t.ty as int, r, x0, u0, x1, y0, v1, y1);
    lemma_affine_within_corners(t.m12 as int, t.m22 as int, t.ty as int, r, x0, u1, x1, y0, v1, y1);
}

/// After any refresh of freshly computed bounds the device inner rectangle
/// lies within the device outer rectangle whenever both are present.
pub proof fn lemma_device_inner_within_outer(clips: Seq<ClipSource>, t: Transform, ratio: u32)
    ensures
        local_bounds(clips).projected(t, ratio).inner.is_some(),
        local_bounds(clips).projected(t, ratio).outer.is_some() ==> local_bounds(clips).projected(
            t,
            ratio,
        ).outer.unwrap().device_rect.contains_rect(
            local_bounds(clips).projected(t, ratio).inner.unwrap().device_rect,
        ),
{
    lemma_folds_nested(clips);
    if !has_fallback(clips) {
        match inner_fold(clips) {
            Some(inner) => {
                lemma_project_outer_monotone(outer_fold(clips).unwrap(), inner, t, ratio);
            },
            None => {},
        }
    }
}

/// Refreshing again with the same transform and ratio, the sources
/// unchanged, leaves the bounds as the first refresh left them.
pub proof fn lemma_refresh_idempotent(
    before: ClipSources,
    after: ClipSources,
    t: Transform,
    ratio: u32,
)
    requires
        after.sources() == before.sources(),
        after.cached_bounds() == before.refreshed_bounds(t, ratio),
    ensures
        after.refreshed_bounds(t, ratio) == after.cached_bounds(),
{
}

proof fn lemma_scale_coords(factor: i32, ratio: u32, x: int, y: int)
    ensures
        device_x(Transform::spec_scale(factor), ratio, x, y) == factor * (x * ratio),
        device_y(Transform::spec_scale(factor), ratio, x, y) == factor * (y * ratio),
{
    assert((factor * x) * ratio == factor * (x * ratio)) by (nonlinear_arith);
    assert((factor * y) * ratio == factor * (y * ratio)) by (nonlinear_arith);
}

/// With a pure scale by two the projected outer rectangle is twice as wide
/// and twice as high as with a scale by one, as long as the pixel grid can
/// address the scaled corners.
pub proof fn lemma_scale_two_doubles_outer(rect: Rect, ratio: u32)
    requires
        projects_unsaturated(rect, Transform::spec_scale(2), ratio),
    ensures
        project_outer(rect, Transform::spec_scale(2), ratio).width() == 2 * project_outer(
            rect,
            Transform::spec_scale(1),
            ratio,
        ).width(),
        project_outer(rect, Transform::spec_scale(2), ratio).height() == 2 * project_outer(
            rect,
            Transform::spec_scale(1),
            ratio,
        ).height(),
{
    let (x0, y0, x1, y1) = (rect.min.x as int, rect.min.y as int, rect.max.x as int, rect.max.y as int);
    lemma_scale_coords(1, ratio, x0, y0);
    lemma_scale_coords(1, ratio, x1, y0);
    lemma_scale_coords(1, ratio, x0, y1);
    lemma_scale_coords(1, ratio, x1, y1);
    lemma_scale_coords(2, ratio, x0, y0);
    lemma_scale_coords(2, ratio, x1, y0);
    lemma_scale_coords(2, ratio, x0, y1);
    lemma_scale_coords(2, ratio, x1, y1);
}

/// The same of the projected inner rectangle.
pub proof fn lemma_scale_two_doubles_inner(rect: Rect, ratio: u32)
    requires
        projects_unsaturated(rect, Transform::spec_scale(2), ratio),
    ensures
        project_inner(rect, Transform::spec_scale(2), ratio).width() == 2 * project_inner(
            rect,
            Transform::spec_scale(1),
            ratio,
        ).width(),
        project_inner(rect, Transform::spec_scale(2), ratio).height() == 2 * project_inner(
            rect,
            Transform::spec_scale(1),
            ratio,
        ).height(),
{
    lemma_scale_two_doubles_outer(rect, ratio);
}

/// Held to fixed local bounds, a refresh with a pure scale by two gives
/// device rectangles of twice the width and height of a refresh with a
/// scale by one.
pub proof fn lemma_refresh_scale_two_doubles(bounds: MaskBounds, ratio: u32)
    requires
        bounds.outer.is_some() ==> projects_unsaturated(
            bounds.outer.unwrap().local_rect,
            Transform::spec_scale(2),
            ratio,
        ),
        bounds.inner.is_some() ==> projects_unsaturated(
            bounds.inner.unwrap().local_rect,
            Transform::spec_scale(2),
            ratio,
        ),
    ensures
        bounds.outer.is_some() ==> {
            let one = bounds.projected(Transform::spec_scale(1), ratio).outer.unwrap().device_rect;
            let two = bounds.projected(Transform::spec_scale(2), ratio).outer.unwrap().device_rect;
            two.width() == 2 * one.width() && two.height() == 2 * one.height()
        },
        bounds.inner.is_some() ==> {
            let one = bounds.projected(Transform::spec_scale(1), ratio).inner.unwrap().device_rect;
            let two = bounds.projected(Transform::spec_scale(2), ratio).inner.unwrap().device_rect;
            two.width() == 2 * one.width() && two.height() == 2 * one.height()
        },
{
    if bounds.outer.is_some() {
        lemma_scale_two_doubles_outer(bounds.outer.unwrap().local_rect, ratio);
    }
    if bounds.inner.is_some() {
        lemma_scale_two_doubles_inner(bounds.inner.unwrap().local_rect, ratio);
    }
}

} // verus!
