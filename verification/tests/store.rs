use clip_bounds::clip::{
    clip_node_rects_fit, ClipRegion, ClipSource, ClipSources, ComplexClipRegion,
    ImageKey, ImageMask,
};
use clip_bounds::geometry::{BorderRadius, Point, Rect};
use clip_bounds::store::ClipStore;
use clip_bounds::transform::{DevicePoint, DeviceRect, Transform};

fn square(side: i32) -> Rect {
    Rect::new(Point::new(0, 0), Point::new(side, side))
}

fn one_rectangle(side: i32) -> ClipSources {
    ClipSources::new(vec![ClipSource::Rectangle(square(side))])
}

#[test]
fn store_hands_back_what_was_inserted() {
    let mut store = ClipStore::new();
    let a = store.insert(one_rectangle(10));
    let b = store.insert(one_rectangle(20));
    assert_eq!(store.get(&a).clips().to_vec(), vec![ClipSource::Rectangle(square(10))]);
    assert_eq!(store.get(&b).clips().to_vec(), vec![ClipSource::Rectangle(square(20))]);
    let weak = b.weak();
    assert_eq!(
        store.get_opt(&weak).unwrap().clips().to_vec(),
        vec![ClipSource::Rectangle(square(20))]
    );
    let removed = store.free(a);
    assert_eq!(removed.clips().to_vec(), vec![ClipSource::Rectangle(square(10))]);
    assert!(store.get_opt(&weak).is_some());
}

#[test]
fn weak_handle_of_a_removed_entry_finds_nothing() {
    let mut store = ClipStore::new();
    let a = store.insert(one_rectangle(10));
    let weak = a.weak();
    store.free(a);
    assert!(store.get_opt(&weak).is_none());
    assert!(store.update(&weak, &Transform::identity(), 1).is_none());
}

#[test]
fn reused_slot_is_not_reached_by_an_old_handle() {
    let mut store = ClipStore::new();
    let a = store.insert(one_rectangle(10));
    let stale = a.weak();
    store.free(a);
    let b = store.insert(one_rectangle(30));
    assert!(store.get_opt(&stale).is_none());
    assert!(store.update(&stale, &Transform::identity(), 1).is_none());
    assert_eq!(store.get(&b).bounds.outer, None);
    assert_eq!(store.get(&b).bounds.inner, None);
    let fresh = b.weak();
    assert_ne!(fresh, stale);
    assert!(store.get_opt(&fresh).is_some());
}

#[test]
fn update_through_a_weak_handle_refreshes_the_entry() {
    let mut store = ClipStore::new();
    let other = store.insert(one_rectangle(5));
    let handle = store.insert(ClipSources::new(vec![
        ClipSource::Image(ImageMask {
            image: ImageKey { namespace: 0, id: 11 },
            rect: square(64),
            repeat: true,
        }),
        ClipSource::Rectangle(square(40)),
    ]));
    let requests = store.update(&handle.weak(), &Transform::scale(2), 1).unwrap();
    assert!(requests.rebuild_mask);
    assert_eq!(requests.images, vec![ImageKey { namespace: 0, id: 11 }]);
    let bounds = store.get(&handle).bounds;
    assert_eq!(bounds.outer.unwrap().local_rect, square(40));
    assert_eq!(
        bounds.outer.unwrap().device_rect,
        DeviceRect { min: DevicePoint { x: 0, y: 0 }, max: DevicePoint { x: 80, y: 80 } }
    );
    assert_eq!(bounds.inner.unwrap().local_rect, Rect::zero());
    assert_eq!(store.get(&other).bounds.inner, None);
}

#[test]
fn clip_node_that_cannot_be_moved_to_its_origin_is_refused() {
    let wide = Rect::new(Point::new(i32::MIN, 0), Point::new(i32::MAX, 10));
    assert!(!clip_node_rects_fit(&wide, &Vec::new(), &None));
    assert!(ClipRegion::try_create_for_clip_node(wide, Vec::new(), None).is_none());

    let far = ComplexClipRegion {
        rect: Rect::new(Point::new(-2_000_000_000, 0), Point::new(0, 10)),
        radii: BorderRadius::uniform(1),
    };
    let rect = Rect::new(Point::new(1_000_000_000, 0), Point::new(1_000_000_100, 10));
    assert!(!clip_node_rects_fit(&rect, &vec![far], &None));
    assert!(ClipRegion::try_create_for_clip_node(rect, vec![far], None).is_none());

    let mask = ImageMask { image: ImageKey { namespace: 0, id: 1 }, rect: far.rect, repeat: false };
    assert!(!clip_node_rects_fit(&rect, &Vec::new(), &Some(mask)));
}

#[test]
fn clip_node_that_fits_is_built() {
    let near = ComplexClipRegion {
        rect: Rect::new(Point::new(15, 25), Point::new(20, 30)),
        radii: BorderRadius::uniform(1),
    };
    let rect = Rect::new(Point::new(10, 20), Point::new(110, 220));
    let region = ClipRegion::try_create_for_clip_node(rect, vec![near], None).unwrap();
    assert_eq!(region.origin, Point::new(10, 20));
    assert_eq!(region.main, Rect::new(Point::new(0, 0), Point::new(100, 200)));
    assert_eq!(region.complex_clips[0].rect, Rect::new(Point::new(5, 5), Point::new(10, 10)));
    assert!(Rect::new(Point::new(-5, -5), Point::new(5, 5)).can_be_relative_to(Point::new(10, 10)));
    assert!(!Rect::new(Point::new(i32::MIN, 0), Point::new(0, 5)).can_be_relative_to(Point::new(1, 0)));
}
