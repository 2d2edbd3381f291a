use clip_bounds::clip::{
    collect_image_requests, compute_local_bounds, BorderCornerClipSource, ClipMode, ClipRegion,
    ClipSource, ClipSources, ComplexClipRegion, Geometry, ImageKey, ImageMask, LocalClip,
    MaskBounds, MAX_CLIP,
};
use clip_bounds::geometry::{extract_inner_rect, BorderRadius, Point, Rect, Size};
use clip_bounds::transform::{project, DevicePoint, DeviceRect, Transform};

fn rect(x0: i32, y0: i32, x1: i32, y1: i32) -> Rect {
    Rect::new(Point::new(x0, y0), Point::new(x1, y1))
}

fn device(x0: i32, y0: i32, x1: i32, y1: i32) -> DeviceRect {
    DeviceRect { min: DevicePoint { x: x0, y: y0 }, max: DevicePoint { x: x1, y: y1 } }
}

fn mask(id: u32, r: Rect, repeat: bool) -> ImageMask {
    ImageMask { image: ImageKey { namespace: 1, id }, rect: r, repeat }
}

fn zero_area(r: &Rect) -> bool {
    r.max.x <= r.min.x || r.max.y <= r.min.y
}

fn within(outer: &Rect, inner: &Rect) -> bool {
    zero_area(inner)
        || (outer.min.x <= inner.min.x
            && inner.max.x <= outer.max.x
            && outer.min.y <= inner.min.y
            && inner.max.y <= outer.max.y)
}

#[test]
fn single_rectangle_bounds_are_the_rectangle() {
    let mut sources = ClipSources::new(vec![ClipSource::Rectangle(rect(0, 0, 100, 100))]);
    let requests = sources.update(&Transform::identity(), 1);
    assert!(requests.rebuild_mask);
    assert!(requests.images.is_empty());
    let outer = sources.bounds.outer.unwrap();
    let inner = sources.bounds.inner.unwrap();
    assert_eq!(outer.local_rect, rect(0, 0, 100, 100));
    assert_eq!(inner.local_rect, rect(0, 0, 100, 100));
    assert_eq!(outer.device_rect, device(0, 0, 100, 100));
    assert_eq!(inner.device_rect, device(0, 0, 100, 100));
}

#[test]
fn rounded_rectangle_inner_is_inset_by_the_radius() {
    let source = ClipSource::RoundedRectangle(
        rect(0, 0, 100, 100),
        BorderRadius::uniform(20),
        ClipMode::Clip,
    );
    let bounds = compute_local_bounds(&vec![source]);
    assert_eq!(bounds.outer.unwrap().local_rect, rect(0, 0, 100, 100));
    assert_eq!(bounds.inner.unwrap().local_rect, rect(20, 20, 80, 80));
}

#[test]
fn clip_out_anywhere_gives_the_fallback() {
    let clip_out = ClipSource::RoundedRectangle(
        rect(10, 10, 20, 20),
        BorderRadius::uniform(2),
        ClipMode::ClipOut,
    );
    let tight = ClipSource::Rectangle(rect(0, 0, 5, 5));
    let expected = MaskBounds { outer: None, inner: Some(Geometry::from(Rect::zero())) };
    assert_eq!(compute_local_bounds(&vec![clip_out]), expected);
    assert_eq!(compute_local_bounds(&vec![tight, clip_out]), expected);
    assert_eq!(compute_local_bounds(&vec![clip_out, tight]), expected);
    assert_eq!(compute_local_bounds(&vec![tight, clip_out, tight]), expected);
    let inner = expected.inner.unwrap().local_rect;
    assert!(zero_area(&inner));
}

#[test]
fn border_corner_anywhere_gives_the_fallback() {
    let corner = ClipSource::BorderCorner(BorderCornerClipSource { slot: 3 });
    let tight = ClipSource::Rectangle(rect(0, 0, 5, 5));
    let expected = MaskBounds { outer: None, inner: Some(Geometry::from(Rect::zero())) };
    assert_eq!(compute_local_bounds(&vec![corner]), expected);
    assert_eq!(compute_local_bounds(&vec![corner, tight]), expected);
    assert_eq!(compute_local_bounds(&vec![tight, corner]), expected);
}

#[test]
fn border_corner_after_clip_out_still_gives_the_fallback() {
    let corner = ClipSource::BorderCorner(BorderCornerClipSource { slot: 0 });
    let clip_out = ClipSource::RoundedRectangle(
        rect(0, 0, 9, 9),
        BorderRadius::uniform(1),
        ClipMode::ClipOut,
    );
    let mut sources = ClipSources::new(vec![clip_out, corner]);
    sources.update(&Transform::translation(7, 9), 2);
    assert_eq!(sources.bounds.outer, None);
    let inner = sources.bounds.inner.unwrap();
    assert_eq!(inner.local_rect, Rect::zero());
    assert_eq!(inner.device_rect, device(14, 18, 14, 18));
}

#[test]
fn lone_image_mask_bounds_outer_only() {
    let source = ClipSource::Image(mask(5, rect(10, 10, 50, 50), false));
    let mut sources = ClipSources::new(vec![source]);
    let requests = sources.update(&Transform::identity(), 1);
    assert_eq!(requests.images, vec![ImageKey { namespace: 1, id: 5 }]);
    let outer = sources.bounds.outer.unwrap();
    let inner = sources.bounds.inner.unwrap();
    assert_eq!(outer.local_rect, rect(10, 10, 50, 50));
    assert_eq!(outer.device_rect, device(10, 10, 50, 50));
    assert_eq!(inner.local_rect, Rect::zero());
    assert!(zero_area(&inner.local_rect));
    assert_eq!(inner.device_rect, device(0, 0, 0, 0));
}

#[test]
fn repeating_image_mask_leaves_outer_unbounded() {
    let source = ClipSource::Image(mask(5, rect(10, 10, 50, 50), true));
    let bounds = compute_local_bounds(&vec![source]);
    assert_eq!(
        bounds.outer.unwrap().local_rect,
        rect(-MAX_CLIP, -MAX_CLIP, MAX_CLIP, MAX_CLIP)
    );
    assert_eq!(bounds.inner.unwrap().local_rect, Rect::zero());
}

#[test]
fn inner_stays_unknown_after_an_image_mask() {
    let bounds = compute_local_bounds(&vec![
        ClipSource::Image(mask(1, rect(0, 0, 80, 80), false)),
        ClipSource::Rectangle(rect(10, 10, 100, 100)),
    ]);
    assert_eq!(bounds.outer.unwrap().local_rect, rect(10, 10, 80, 80));
    assert_eq!(bounds.inner.unwrap().local_rect, Rect::zero());
}

#[test]
fn outer_is_the_intersection_of_all_rectangles() {
    let clips = vec![
        ClipSource::Rectangle(rect(0, 0, 100, 100)),
        ClipSource::RoundedRectangle(rect(20, -10, 120, 60), BorderRadius::uniform(5), ClipMode::Clip),
        ClipSource::Rectangle(rect(-5, 10, 90, 200)),
    ];
    let bounds = compute_local_bounds(&clips);
    assert_eq!(bounds.outer.unwrap().local_rect, rect(20, 10, 90, 60));
    assert_eq!(bounds.inner.unwrap().local_rect, rect(25, 10, 90, 55));
}

#[test]
fn disjoint_rectangles_leave_zero_rectangles() {
    let clips = vec![
        ClipSource::Rectangle(rect(0, 0, 10, 10)),
        ClipSource::Rectangle(rect(10, 0, 20, 10)),
    ];
    let bounds = compute_local_bounds(&clips);
    assert_eq!(bounds.outer.unwrap().local_rect, Rect::zero());
    assert_eq!(bounds.inner.unwrap().local_rect, Rect::zero());
}

#[test]
fn failed_extraction_leaves_inner_unknown() {
    let clips = vec![
        ClipSource::RoundedRectangle(rect(0, 0, 40, 40), BorderRadius::uniform(20), ClipMode::Clip),
        ClipSource::Rectangle(rect(0, 0, 30, 30)),
    ];
    let bounds = compute_local_bounds(&clips);
    assert_eq!(bounds.outer.unwrap().local_rect, rect(0, 0, 30, 30));
    assert_eq!(bounds.inner.unwrap().local_rect, Rect::zero());
}

#[test]
fn inner_lies_within_outer() {
    let lists = vec![
        vec![ClipSource::Rectangle(rect(0, 0, 100, 100))],
        vec![
            ClipSource::Rectangle(rect(-50, -50, 50, 50)),
            ClipSource::RoundedRectangle(rect(-10, -20, 70, 30), BorderRadius::uniform(8), ClipMode::Clip),
        ],
        vec![
            ClipSource::Image(mask(2, rect(0, 0, 10, 10), false)),
            ClipSource::Rectangle(rect(5, 5, 50, 50)),
        ],
        vec![
            ClipSource::Rectangle(rect(0, 0, 10, 10)),
            ClipSource::Rectangle(rect(40, 40, 50, 50)),
        ],
    ];
    for clips in lists {
        let mut sources = ClipSources::new(clips);
        sources.update(&Transform::scale(3), 2);
        let outer = sources.bounds.outer.unwrap();
        let inner = sources.bounds.inner.unwrap();
        assert!(within(&outer.local_rect, &inner.local_rect));
        let o = outer.device_rect;
        let i = inner.device_rect;
        let empty = i.max.x <= i.min.x || i.max.y <= i.min.y;
        assert!(
            empty
                || (o.min.x <= i.min.x
                    && i.max.x <= o.max.x
                    && o.min.y <= i.min.y
                    && i.max.y <= o.max.y)
        );
    }
}

#[test]
fn empty_list_is_left_alone() {
    let mut sources = ClipSources::new(Vec::new());
    let requests = sources.update(&Transform::identity(), 1);
    assert!(!requests.rebuild_mask);
    assert!(requests.images.is_empty());
    assert_eq!(sources.bounds, MaskBounds { outer: None, inner: None });
    assert!(!sources.is_masking(true));
    assert!(!sources.is_masking(false));
}

#[test]
fn masking_follows_the_builder_for_a_non_empty_list() {
    let sources = ClipSources::new(vec![ClipSource::Rectangle(rect(0, 0, 1, 1))]);
    assert!(sources.is_masking(true));
    assert!(!sources.is_masking(false));
}

#[test]
fn refresh_twice_gives_the_same_bounds() {
    let mut sources = ClipSources::new(vec![
        ClipSource::Rectangle(rect(0, 0, 100, 100)),
        ClipSource::RoundedRectangle(rect(10, 10, 90, 90), BorderRadius::uniform(4), ClipMode::Clip),
    ]);
    let t = Transform { m11: 2, m12: 0, m21: 0, m22: 3, tx: 5, ty: -7 };
    sources.update(&t, 2);
    let first = sources.bounds;
    sources.update(&t, 2);
    assert_eq!(sources.bounds, first);
    assert_eq!(sources.mask_bounds(), first);
}

#[test]
fn local_bounds_are_computed_once() {
    let mut sources = ClipSources::new(vec![ClipSource::Rectangle(rect(0, 0, 100, 100))]);
    sources.bounds = MaskBounds {
        outer: None,
        inner: Some(Geometry::from(rect(1, 2, 3, 4))),
    };
    sources.update(&Transform::identity(), 1);
    assert_eq!(sources.bounds.outer, None);
    assert_eq!(
        sources.bounds.inner,
        Some(Geometry { local_rect: rect(1, 2, 3, 4), device_rect: device(1, 2, 3, 4) })
    );
}

#[test]
fn device_bounds_follow_the_transform() {
    let mut sources = ClipSources::new(vec![ClipSource::Rectangle(rect(10, 20, 30, 60))]);
    sources.update(&Transform::identity(), 1);
    assert_eq!(sources.bounds.outer.unwrap().device_rect, device(10, 20, 30, 60));
    sources.update(&Transform::translation(100, 200), 1);
    assert_eq!(sources.bounds.outer.unwrap().device_rect, device(110, 220, 130, 260));
    assert_eq!(sources.bounds.outer.unwrap().local_rect, rect(10, 20, 30, 60));
}

#[test]
fn scale_by_two_doubles_the_device_rectangles() {
    let mut one = ClipSources::new(vec![ClipSource::RoundedRectangle(
        rect(10, 20, 110, 80),
        BorderRadius::uniform(10),
        ClipMode::Clip,
    )]);
    let mut two = ClipSources::new(one.clips().to_vec());
    one.update(&Transform::scale(1), 3);
    two.update(&Transform::scale(2), 3);
    let (o1, o2) = (one.bounds.outer.unwrap(), two.bounds.outer.unwrap());
    let (i1, i2) = (one.bounds.inner.unwrap(), two.bounds.inner.unwrap());
    assert_eq!(o1.local_rect, o2.local_rect);
    assert_eq!(i1.local_rect, i2.local_rect);
    assert_eq!(o1.device_rect, device(30, 60, 330, 240));
    assert_eq!(o2.device_rect, device(60, 120, 660, 480));
    assert_eq!(i1.device_rect, device(60, 90, 300, 210));
    assert_eq!(i2.device_rect, device(120, 180, 600, 420));
    assert_eq!(o2.device_rect.max.x - o2.device_rect.min.x, 2 * (o1.device_rect.max.x - o1.device_rect.min.x));
    assert_eq!(i2.device_rect.max.y - i2.device_rect.min.y, 2 * (i1.device_rect.max.y - i1.device_rect.min.y));
}

#[test]
fn projection_of_a_rotation_has_no_inner_rectangle() {
    let quarter_turn = Transform { m11: 0, m12: 1, m21: -1, m22: 0, tx: 0, ty: 0 };
    let (outer, inner) = project(&rect(0, 0, 10, 20), &quarter_turn, 1);
    assert_eq!(outer, device(-20, 0, 0, 10));
    assert_eq!(inner, device(-20, 0, 0, 10));
    let shear = Transform { m11: 1, m12: 0, m21: 1, m22: 1, tx: 0, ty: 0 };
    let (outer, inner) = project(&rect(0, 0, 10, 20), &shear, 1);
    assert_eq!(outer, device(0, 0, 30, 20));
    assert_eq!(inner, DeviceRect::zero());
}

#[test]
fn projection_saturates_at_the_pixel_grid() {
    let (outer, inner) = project(&rect(-MAX_CLIP, -MAX_CLIP, MAX_CLIP, MAX_CLIP), &Transform::scale(1000), 1000);
    assert_eq!(outer, device(i32::MIN, i32::MIN, i32::MAX, i32::MAX));
    assert_eq!(inner, outer);
    let t = Transform { m11: i32::MIN, m12: i32::MIN, m21: i32::MIN, m22: i32::MIN, tx: i32::MIN, ty: i32::MIN };
    let (outer, _) = project(&rect(i32::MIN, i32::MIN, i32::MAX, i32::MAX), &t, u32::MAX);
    assert_eq!(outer, device(i32::MIN, i32::MIN, i32::MAX, i32::MAX));
}

#[test]
fn projection_with_negative_scale_flips_the_rectangle() {
    let (outer, inner) = project(&rect(1, 2, 3, 5), &Transform::scale(-2), 1);
    assert_eq!(outer, device(-6, -10, -2, -4));
    assert_eq!(inner, outer);
}

#[test]
fn inner_rect_uses_the_larger_radius_on_each_edge() {
    let radii = BorderRadius {
        top_left: Size::new(5, 7),
        top_right: Size::new(11, 3),
        bottom_left: Size::new(9, 2),
        bottom_right: Size::new(4, 13),
    };
    assert_eq!(extract_inner_rect(&rect(100, 200, 200, 300), &radii), Some(rect(109, 207, 189, 287)));
}

#[test]
fn inner_rect_is_absent_when_radii_leave_no_extent() {
    let r = rect(0, 0, 100, 100);
    assert_eq!(extract_inner_rect(&r, &BorderRadius::uniform(50)), None);
    assert_eq!(extract_inner_rect(&r, &BorderRadius::uniform(60)), None);
    assert_eq!(extract_inner_rect(&r, &BorderRadius::uniform(49)), Some(rect(49, 49, 51, 51)));
    assert_eq!(extract_inner_rect(&r, &BorderRadius::uniform(u32::MAX)), None);
    assert_eq!(extract_inner_rect(&rect(5, 5, 5, 9), &BorderRadius::uniform(0)), None);
    assert_eq!(extract_inner_rect(&r, &BorderRadius::uniform(0)), Some(r));
}

#[test]
fn inner_rect_at_the_edge_of_the_coordinate_range() {
    let r = rect(i32::MIN, i32::MIN, i32::MAX, i32::MAX);
    assert_eq!(
        extract_inner_rect(&r, &BorderRadius::uniform(10)),
        Some(rect(i32::MIN + 10, i32::MIN + 10, i32::MAX - 10, i32::MAX - 10))
    );
}

#[test]
fn intersection_of_rectangles() {
    assert_eq!(rect(0, 0, 10, 10).intersection(&rect(5, -5, 20, 7)), Some(rect(5, 0, 10, 7)));
    assert_eq!(rect(0, 0, 10, 10).intersection(&rect(10, 0, 20, 10)), None);
    assert_eq!(rect(0, 0, 10, 10).intersection(&rect(3, 3, 3, 8)), None);
    assert_eq!(rect(0, 0, 10, 10).intersection(&rect(8, 8, 2, 2)), None);
    assert_eq!(rect(0, 0, 10, 10).intersection(&rect(0, 0, 10, 10)), Some(rect(0, 0, 10, 10)));
}

#[test]
fn clip_mode_inverts() {
    assert_eq!(!ClipMode::Clip, ClipMode::ClipOut);
    assert_eq!(!ClipMode::ClipOut, ClipMode::Clip);
    assert_eq!(!!ClipMode::Clip, ClipMode::Clip);
}

#[test]
fn clip_node_region_is_relative_to_its_origin() {
    let complex = vec![
        ComplexClipRegion { rect: rect(110, 220, 150, 260), radii: BorderRadius::uniform(3) },
        ComplexClipRegion { rect: rect(90, 180, 95, 190), radii: BorderRadius::uniform(1) },
    ];
    let region = ClipRegion::create_for_clip_node(
        rect(100, 200, 400, 500),
        complex,
        Some(mask(9, rect(100, 210, 120, 230), true)),
    );
    assert_eq!(region.origin, Point::new(100, 200));
    assert_eq!(region.main, rect(0, 0, 300, 300));
    assert_eq!(region.image_mask, Some(mask(9, rect(0, 10, 20, 30), true)));
    assert_eq!(
        region.complex_clips,
        vec![
            ComplexClipRegion { rect: rect(10, 20, 50, 60), radii: BorderRadius::uniform(3) },
            ComplexClipRegion { rect: rect(-10, -20, -5, -10), radii: BorderRadius::uniform(1) },
        ]
    );
}

#[test]
fn clip_node_region_from_a_local_clip() {
    let plain = ClipRegion::create_for_clip_node_with_local_clip(&LocalClip::Rect(rect(5, 6, 15, 26)));
    assert_eq!(plain.origin, Point::new(5, 6));
    assert_eq!(plain.main, rect(0, 0, 10, 20));
    assert_eq!(plain.image_mask, None);
    assert!(plain.complex_clips.is_empty());

    let rounded = LocalClip::RoundedRect(
        rect(5, 6, 15, 26),
        ComplexClipRegion { rect: rect(6, 7, 14, 25), radii: BorderRadius::uniform(2) },
    );
    assert_eq!(rounded.clip_rect(), rect(5, 6, 15, 26));
    let region = ClipRegion::create_for_clip_node_with_local_clip(&rounded);
    assert_eq!(region.main, rect(0, 0, 10, 20));
    assert_eq!(
        region.complex_clips,
        vec![ComplexClipRegion { rect: rect(1, 1, 9, 19), radii: BorderRadius::uniform(2) }]
    );
}

#[test]
fn sources_of_a_region_keep_their_order() {
    let region = ClipRegion {
        origin: Point::zero(),
        main: rect(0, 0, 100, 100),
        image_mask: Some(mask(4, rect(0, 0, 64, 64), false)),
        complex_clips: vec![
            ComplexClipRegion { rect: rect(0, 0, 50, 50), radii: BorderRadius::uniform(5) },
            ComplexClipRegion { rect: rect(10, 10, 90, 90), radii: BorderRadius::uniform(7) },
        ],
    };
    let sources = ClipSources::from(region);
    assert_eq!(
        sources.clips().to_vec(),
        vec![
            ClipSource::Image(mask(4, rect(0, 0, 64, 64), false)),
            ClipSource::Rectangle(rect(0, 0, 100, 100)),
            ClipSource::RoundedRectangle(rect(0, 0, 50, 50), BorderRadius::uniform(5), ClipMode::Clip),
            ClipSource::RoundedRectangle(rect(10, 10, 90, 90), BorderRadius::uniform(7), ClipMode::Clip),
        ]
    );
    assert_eq!(sources.bounds, MaskBounds { outer: None, inner: None });
}

#[test]
fn sources_of_a_region_without_a_mask_start_with_the_main_rectangle() {
    let region = ClipRegion {
        origin: Point::new(3, 4),
        main: rect(0, 0, 8, 8),
        image_mask: None,
        complex_clips: Vec::new(),
    };
    let sources = ClipSources::from(region);
    assert_eq!(sources.clips().to_vec(), vec![ClipSource::Rectangle(rect(0, 0, 8, 8))]);
}

#[test]
fn image_requests_come_in_source_order() {
    let clips = vec![
        ClipSource::Image(mask(7, rect(0, 0, 1, 1), true)),
        ClipSource::Rectangle(rect(0, 0, 1, 1)),
        ClipSource::Image(mask(2, rect(0, 0, 1, 1), false)),
        ClipSource::BorderCorner(BorderCornerClipSource { slot: 1 }),
    ];
    assert_eq!(
        collect_image_requests(&clips),
        vec![ImageKey { namespace: 1, id: 7 }, ImageKey { namespace: 1, id: 2 }]
    );
    let mut sources = ClipSources::new(clips);
    let requests = sources.update(&Transform::identity(), 1);
    assert!(requests.rebuild_mask);
    assert_eq!(
        requests.images,
        vec![ImageKey { namespace: 1, id: 7 }, ImageKey { namespace: 1, id: 2 }]
    );
}

#[test]
fn geometry_starts_with_a_zero_device_rectangle() {
    let g = Geometry::from(rect(1, 2, 3, 4));
    assert_eq!(g.local_rect, rect(1, 2, 3, 4));
    assert_eq!(g.device_rect, DeviceRect::zero());
}

#[test]
fn mask_bounds_update_projects_outer_and_inner() {
    let shear = Transform { m11: 1, m12: 0, m21: 1, m22: 1, tx: 0, ty: 0 };
    let mut bounds = MaskBounds {
        outer: Some(Geometry::from(rect(0, 0, 10, 20))),
        inner: Some(Geometry::from(rect(0, 0, 10, 20))),
    };
    bounds.update(&shear, 2);
    assert_eq!(bounds.outer.unwrap().device_rect, device(0, 0, 60, 40));
    assert_eq!(bounds.inner.unwrap().device_rect, DeviceRect::zero());
    let mut none = MaskBounds { outer: None, inner: None };
    none.update(&shear, 2);
    assert_eq!(none, MaskBounds { outer: None, inner: None });
}
