//! Clip sources, their ordered composite, and the bounds folded from them.

use vstd::prelude::*;
use crate::geometry::{extract_inner_rect, BorderRadius, Point, Rect};
use crate::transform::{project, project_inner, project_outer, DeviceRect, Transform};

verus! {

/// Half the side of the square, centred at the origin, that stands for "unbounded".
pub const MAX_CLIP: i32 = 1_000_000;

/// Names an image held by the resource cache.
#[derive(Clone, Copy, Debug, PartialEq, Eq, Hash, Structural)]
pub struct ImageKey {
    pub namespace: u32,
    pub id: u32,
}

/// An alpha mask: the image, the rectangle it covers, and whether it tiles.
#[derive(Clone, Copy, Debug, PartialEq, Eq, Structural)]
pub struct ImageMask {
    pub image: ImageKey,
    pub rect: Rect,
    pub repeat: bool,
}

/// A rounded rectangle of a clip region.
#[derive(Clone, Copy, Debug, PartialEq, Eq, Structural)]
pub struct ComplexClipRegion {
    pub rect: Rect,
    pub radii: BorderRadius,
}

/// The clip of a single item: a rectangle, or a rectangle with a rounded region.
#[derive(Clone, Copy, Debug, PartialEq, Eq, Structural)]
pub enum LocalClip {
    Rect(Rect),
    RoundedRect(Rect, ComplexClipRegion),
}

/// Names the dashed corner of a border whose shape the border renderer keeps.
#[derive(Clone, Copy, Debug, PartialEq, Eq, Structural)]
pub struct BorderCornerClipSource {
    pub slot: u32,
}

/// A clip area in coordinates relative to its own origin.
#[derive(Clone, Debug)]
pub struct ClipRegion {
    pub origin: Point,
    pub main: Rect,
    pub image_mask: Option<ImageMask>,
    pub complex_clips: Vec<ComplexClipRegion>,
}

#[derive(Clone, Copy, Debug, PartialEq, Eq, Structural)]
pub enum ClipMode {
    /// Pixels inside the region are visible.
    Clip,
    /// Pixels outside the region are visible.
    ClipOut,
}

/// One constraint of a composite clip.
#[derive(Clone, Copy, Debug, PartialEq, Eq, Structural)]
pub enum ClipSource {
    Rectangle(Rect),
    RoundedRectangle(Rect, BorderRadius, ClipMode),
    Image(ImageMask),
    /// Only dashed corners, with both adjacent edges dashed.
    BorderCorner(BorderCornerClipSource),
}

/// A local rectangle and the device rectangle last projected from it.
#[derive(Clone, Copy, Debug, PartialEq, Eq, Structural)]
pub struct Geometry {
    pub local_rect: Rect,
    pub device_rect: DeviceRect,
}

/// What is known of a composite clip: `outer` contains every visible
/// pixel, `inner` holds only pixels that no mask touches. An absent
/// `outer` is unbounded.
#[derive(Clone, Copy, Debug, PartialEq, Eq, Structural)]
pub struct MaskBounds {
    pub outer: Option<Geometry>,
    pub inner: Option<Geometry>,
}

/// The ordered sources of one element's clip, with their bounds.
#[derive(Debug)]
pub struct ClipSources {
    clips: Vec<ClipSource>,
    pub bounds: MaskBounds,
}

/// What a refresh asks of the mask builder and of the resource cache.
#[derive(Debug)]
pub struct FrameRequests {
    /// The mask data must be rebuilt from the source list.
    pub rebuild_mask: bool,
    /// The images that must be resident this frame, in source order.
    pub images: Vec<ImageKey>,
}

impl ClipMode {
    pub open spec fn inverted(self) -> ClipMode {
        match self {
            ClipMode::Clip => ClipMode::ClipOut,
            ClipMode::ClipOut => ClipMode::Clip,
        }
    }
}

impl std::ops::Not for ClipMode {
    type Output = ClipMode;

    fn not(self) -> (r: ClipMode) {
        match self {
            ClipMode::Clip => ClipMode::ClipOut,
            ClipMode::ClipOut => ClipMode::Clip,
        }
    }
}

impl vstd::std_specs::ops::NotSpecImpl for ClipMode {
    open spec fn obeys_not_spec() -> bool {
        true
    }

    open spec fn not_req(self) -> bool {
        true
    }

    open spec fn not_spec(self) -> ClipMode {
        self.inverted()
    }
}

impl LocalClip {
    pub open spec fn spec_clip_rect(self) -> Rect {
        match self {
            LocalClip::Rect(rect) => rect,
            LocalClip::RoundedRect(rect, _) => rect,
        }
    }

    /// The rounded regions that the clip carries: one or none.
    pub open spec fn spec_complex_clips(self) -> Seq<ComplexClipRegion> {
        match self {
            LocalClip::Rect(_) => Seq::empty(),
            LocalClip::RoundedRect(_, region) => seq![region],
        }
    }

    pub fn clip_rect(&self) -> (r: Rect)
        ensures
            r == self.spec_clip_rect(),
    {
        match self {
            LocalClip::Rect(rect) => *rect,
            LocalClip::RoundedRect(rect, _) => *rect,
        }
    }
}

impl ComplexClipRegion {
    pub open spec fn spec_relative_to(self, origin: Point) -> ComplexClipRegion {
        ComplexClipRegion { rect: self.rect.spec_relative_to(origin), radii: self.radii }
    }
}

impl ImageMask {
    pub open spec fn spec_relative_to(self, origin: Point) -> ImageMask {
        ImageMask { image: self.image, rect: self.rect.spec_relative_to(origin), repeat: self.repeat }
    }
}

/// Every rectangle handed to a clip node can be re-expressed relative to the
/// node's own origin.
pub open spec fn clip_node_fits(
    rect: Rect,
    complex_clips: Seq<ComplexClipRegion>,
    image_mask: Option<ImageMask>,
) -> bool {
    &&& rect.fits_relative_to(rect.min)
    &&& forall|i: int|
        0 <= i < complex_clips.len() ==> (#[trigger] complex_clips[i]).rect.fits_relative_to(rect.min)
    &&& match image_mask {
        Some(mask) => mask.rect.fits_relative_to(rect.min),
        None => true,
    }
}

impl ClipRegion {
    /// The sources that the region stands for: the image mask first where
    /// there is one, then the main rectangle, then each rounded region in
    /// `Clip` mode.
    pub open spec fn spec_sources(self) -> Seq<ClipSource> {
        let head = match self.image_mask {
            Some(mask) => seq![ClipSource::Image(mask), ClipSource::Rectangle(self.main)],
            None => seq![ClipSource::Rectangle(self.main)],
        };
        head + Seq::new(
            self.complex_clips@.len(),
            |i: int|
                ClipSource::RoundedRectangle(
                    self.complex_clips@[i].rect,
                    self.complex_clips@[i].radii,
                    ClipMode::Clip,
                ),
        )
    }

    /// The region holds what a clip node was given, each rectangle moved
    /// so that the corner of `rect` is the origin.
    pub open spec fn is_for_clip_node(
        self,
        rect: Rect,
        complex_clips: Seq<ComplexClipRegion>,
        image_mask: Option<ImageMask>,
    ) -> bool {
        &&& self.origin == rect.min
        &&& self.main == rect.spec_relative_to(rect.min)
        &&& self.image_mask == match image_mask {
            Some(mask) => Some(mask.spec_relative_to(rect.min)),
            None => None,
        }
        &&& self.complex_clips@.len() == complex_clips.len()
        &&& forall|i: int|
            0 <= i < complex_clips.len() ==> #[trigger] self.complex_clips@[i]
                == complex_clips[i].spec_relative_to(rect.min)
    }

    /// Builds the region of a clip node from rectangles given in the
    /// coordinates of the enclosing stacking context.
    pub fn create_for_clip_node(
        rect: Rect,
        complex_clips: Vec<ComplexClipRegion>,
        image_mask: Option<ImageMask>,
    ) -> (region: ClipRegion)
        requires
            clip_node_fits(rect, complex_clips@, image_mask),
        ensures
            region.is_for_clip_node(rect, complex_clips@, image_mask),
            region.main.min == Point::origin(),
    {
        let origin = rect.min;
        let moved_mask = match image_mask {
            Some(mask) => Some(
                ImageMask { image: mask.image, rect: mask.rect.relative_to(origin), repeat: mask.repeat },
            ),
            None => None,
        };
        let mut moved: Vec<ComplexClipRegion> = Vec::new();
        let mut i: usize = 0;
        while i < complex_clips.len()
            invariant
                i <= complex_clips@.len(),
                origin == rect.min,
                clip_node_fits(rect, complex_clips@, image_mask),
                moved@.len() == i,
                forall|j: int|
                    0 <= j < i ==> #[trigger] moved@[j] == complex_clips@[j].spec_relative_to(origin),
            decreases complex_clips@.len() - i,
        {
            let clip = complex_clips[i];
            moved.push(ComplexClipRegion { rect: clip.rect.relative_to(origin), radii: clip.radii });
            i = i + 1;
        }
        ClipRegion {
            origin,
            main: rect.relative_to(origin),
            image_mask: moved_mask,
            complex_clips: moved,
        }
    }

    pub fn create_for_clip_node_with_local_clip(local_clip: &LocalClip) -> (region: ClipRegion)
        requires
            clip_node_fits(local_clip.spec_clip_rect(), local_clip.spec_complex_clips(), None),
        ensures
            region.is_for_clip_node(
                local_clip.spec_clip_rect(),
                local_clip.spec_complex_clips(),
                None,
            ),
    {
        let mut complex_clips: Vec<ComplexClipRegion> = Vec::new();
        match local_clip {
            LocalClip::Rect(_) => {},
            LocalClip::RoundedRect(_, region) => {
                complex_clips.push(*region);
            },
        }
        assert(complex_clips@ =~= local_clip.spec_complex_clips());
        ClipRegion::create_for_clip_node(local_clip.clip_rect(), complex_clips, None)
    }
}

/// Whether a clip node can be built from these rectangles.
pub fn clip_node_rects_fit(
    rect: &Rect,
    complex_clips: &Vec<ComplexClipRegion>,
    image_mask: &Option<ImageMask>,
) -> (fit: bool)
    ensures
        fit == clip_node_fits(*rect, complex_clips@, *image_mask),
{
    if !rect.can_be_relative_to(rect.min) {
        return false;
    }
    if let Some(mask) = image_mask {
        if !mask.rect.can_be_relative_to(rect.min) {
            return false;
        }
    }
    let mut i: usize = 0;
    while i < complex_clips.len()
        invariant
            i <= complex_clips@.len(),
            forall|j: int|
                0 <= j < i ==> (#[trigger] complex_clips@[j]).rect.fits_relative_to(rect.min),
        decreases complex_clips@.len() - i,
    {
        if !complex_clips[i].rect.can_be_relative_to(rect.min) {
            return false;
        }
        i = i + 1;
    }
    true
}

impl ClipRegion {
    /// Builds the region of a clip node where its rectangles can be moved to
    /// the node's origin, and nothing where one of them cannot.
    pub fn try_create_for_clip_node(
        rect: Rect,
        complex_clips: Vec<ComplexClipRegion>,
        image_mask: Option<ImageMask>,
    ) -> (region: Option<ClipRegion>)
        ensures
            region.is_some() == clip_node_fits(rect, complex_clips@, image_mask),
            region.is_some() ==> region.unwrap().is_for_clip_node(rect, complex_clips@, image_mask),
    {
        if clip_node_rects_fit(&rect, &complex_clips, &image_mask) {
            Some(ClipRegion::create_for_clip_node(rect, complex_clips, image_mask))
        } else {
            None
        }
    }
}

/// The rectangle that stands for "no bound yet".
pub open spec fn unbounded_rect() -> Rect {
    Rect { min: Point { x: -1_000_000i32, y: -1_000_000i32 }, max: Point { x: 1_000_000, y: 1_000_000 } }
}

/// `acc` cut down to `rect`; absent once nothing is left.
pub open spec fn narrow(acc: Option<Rect>, rect: Rect) -> Option<Rect> {
    match acc {
        Some(r) => r.spec_intersection(rect),
        None => None,
    }
}

impl ClipSource {
    /// The source makes the visible region unbounded in the worst case, or
    /// has a shape that the bounds do not follow.
    pub open spec fn forces_fallback(self) -> bool {
        match self {
            ClipSource::RoundedRectangle(_, _, mode) => mode == ClipMode::ClipOut,
            ClipSource::BorderCorner(_) => true,
            _ => false,
        }
    }

    /// The outer bound after this source, given the bound before it.
    pub open spec fn outer_step(self, acc: Option<Rect>) -> Option<Rect> {
        match self {
            ClipSource::Image(mask) => if mask.repeat { acc } else { narrow(acc, mask.rect) },
            ClipSource::Rectangle(rect) => narrow(acc, rect),
            ClipSource::RoundedRectangle(rect, _, mode) => if mode == ClipMode::Clip {
                narrow(acc, rect)
            } else {
                acc
            },
            ClipSource::BorderCorner(_) => acc,
        }
    }

    /// The inner bound after this source, given the bound before it.
    pub open spec fn inner_step(self, acc: Option<Rect>) -> Option<Rect> {
        match self {
            ClipSource::Image(_) => None,
            ClipSource::Rectangle(rect) => narrow(acc, rect),
            ClipSource::RoundedRectangle(rect, radii, mode) => if mode == ClipMode::Clip {
                match rect.spec_inner_rect(radii) {
                    Some(inner) => narrow(acc, inner),
                    None => None,
                }
            } else {
                acc
            },
            ClipSource::BorderCorner(_) => acc,
        }
    }
}

/// Some source of the list forces the conservative fallback.
pub open spec fn has_fallback(clips: Seq<ClipSource>) -> bool {
    exists|i: int| 0 <= i < clips.len() && (#[trigger] clips[i]).forces_fallback()
}

/// The outer bound of the sources, walked in order from "unbounded".
pub open spec fn outer_fold(clips: Seq<ClipSource>) -> Option<Rect>
    decreases clips.len(),
{
    if clips.len() == 0 {
        Some(unbounded_rect())
    } else {
        clips.last().outer_step(outer_fold(clips.drop_last()))
    }
}

/// The inner bound of the sources, walked in order from "unbounded".
pub open spec fn inner_fold(clips: Seq<ClipSource>) -> Option<Rect>
    decreases clips.len(),
{
    if clips.len() == 0 {
        Some(unbounded_rect())
    } else {
        clips.last().inner_step(inner_fold(clips.drop_last()))
    }
}

pub open spec fn rect_or_zero(rect: Option<Rect>) -> Rect {
    match rect {
        Some(r) => r,
        None => Rect::spec_zero(),
    }
}

/// The local bounds of a source list, not yet projected.
pub open spec fn local_bounds(clips: Seq<ClipSource>) -> MaskBounds {
    if has_fallback(clips) {
        MaskBounds { outer: None, inner: Some(Geometry::spec_from_rect(Rect::spec_zero())) }
    } else {
        MaskBounds {
            outer: Some(Geometry::spec_from_rect(rect_or_zero(outer_fold(clips)))),
            inner: Some(Geometry::spec_from_rect(rect_or_zero(inner_fold(clips)))),
        }
    }
}

/// The keys of the image sources, in source order.
pub open spec fn image_requests(clips: Seq<ClipSource>) -> Seq<ImageKey>
    decreases clips.len(),
{
    if clips.len() == 0 {
        Seq::empty()
    } else {
        match clips.last() {
            ClipSource::Image(mask) => image_requests(clips.drop_last()).push(mask.image),
            _ => image_requests(clips.drop_last()),
        }
    }
}

impl Geometry {
    pub open spec fn spec_from_rect(local_rect: Rect) -> Geometry {
        Geometry { local_rect, device_rect: DeviceRect::spec_zero() }
    }
}

impl From<Rect> for Geometry {
    fn from(local_rect: Rect) -> (g: Geometry) {
        Geometry { local_rect, device_rect: DeviceRect::zero() }
    }
}

impl vstd::std_specs::convert::FromSpecImpl<Rect> for Geometry {
    open spec fn obeys_from_spec() -> bool {
        true
    }

    open spec fn from_spec(local_rect: Rect) -> Geometry {
        Geometry::spec_from_rect(local_rect)
    }
}

impl MaskBounds {
    /// Nothing known yet.
    pub open spec fn unknown() -> MaskBounds {
        MaskBounds { outer: None, inner: None }
    }

    /// The same local rectangles with their device rectangles projected anew.
    pub open spec fn projected(self, transform: Transform, device_pixel_ratio: u32) -> MaskBounds {
        MaskBounds {
            outer: match self.outer {
                Some(g) => Some(
                    Geometry {
                        local_rect: g.local_rect,
                        device_rect: project_outer(g.local_rect, transform, device_pixel_ratio),
                    },
                ),
                None => None,
            },
            inner: match self.inner {
                Some(g) => Some(
                    Geometry {
                        local_rect: g.local_rect,
                        device_rect: project_inner(g.local_rect, transform, device_pixel_ratio),
                    },
                ),
                None => None,
            },
        }
    }

    /// Re-derives the device rectangles of whichever bounds are present.
    pub fn update(&mut self, transform: &Transform, device_pixel_ratio: u32)
        ensures
            *final(self) == old(self).projected(*transform, device_pixel_ratio),
    {
        let outer = match self.outer {
            Some(g) => Some(
                Geometry {
                    local_rect: g.local_rect,
                    device_rect: project(&g.local_rect, transform, device_pixel_ratio).0,
                },
            ),
            None => None,
        };
        let inner = match self.inner {
            Some(g) => Some(
                Geometry {
                    local_rect: g.local_rect,
                    device_rect: project(&g.local_rect, transform, device_pixel_ratio).1,
                },
            ),
            None => None,
        };
        self.outer = outer;
        self.inner = inner;
    }
}

fn narrowed(acc: Option<Rect>, rect: &Rect) -> (r: Option<Rect>)
    ensures
        r == narrow(acc, *rect),
{
    match acc {
        Some(r) => r.intersection(rect),
        None => None,
    }
}

/// Folds the sources, in order, into local outer and inner bounds.
pub fn compute_local_bounds(clips: &Vec<ClipSource>) -> (bounds: MaskBounds)
    ensures
        bounds == local_bounds(clips@),
{
    let mut local_rect: Option<Rect> = Some(
        Rect { min: Point { x: -MAX_CLIP, y: -MAX_CLIP }, max: Point { x: MAX_CLIP, y: MAX_CLIP } },
    );
    let mut local_inner: Option<Rect> = local_rect;
    let mut has_clip_out = false;
    let mut has_border_clip = false;
    let mut i: usize = 0;
    assert(clips@.take(0) =~= Seq::empty());
    while i < clips.len()
        invariant_except_break
            i <= clips@.len(),
            !has_clip_out,
            has_border_clip == has_fallback(clips@.take(i as int)),
            local_rect == outer_fold(clips@.take(i as int)),
            local_inner == inner_fold(clips@.take(i as int)),
        ensures
            has_clip_out ==> has_fallback(clips@),
            !has_clip_out ==> i == clips@.len(),
            !has_clip_out ==> has_border_clip == has_fallback(clips@.take(i as int)),
            !has_clip_out ==> local_rect == outer_fold(clips@.take(i as int)),
            !has_clip_out ==> local_inner == inner_fold(clips@.take(i as int)),
        decreases clips@.len() - i,
    {
        let source = clips[i];
        proof {
            let before = clips@.take(i as int);
            let after = clips@.take(i + 1);
            assert(after.drop_last() =~= before);
            if has_fallback(before) {
                let j = choose|j: int| 0 <= j < before.len() && (#[trigger] before[j]).forces_fallback();
                assert(after[j] == before[j]);
            }
            if has_fallback(after) && !source.forces_fallback() {
                let j = choose|j: int| 0 <= j < after.len() && (#[trigger] after[j]).forces_fallback();
                assert(before[j] == after[j]);
            }
        }
        match source {
            ClipSource::Image(mask) => {
                if !mask.repeat {
                    local_rect = narrowed(local_rect, &mask.rect);
                }
                local_inner = None;
            },
            ClipSource::Rectangle(rect) => {
                local_rect = narrowed(local_rect, &rect);
                local_inner = narrowed(local_inner, &rect);
            },
            ClipSource::RoundedRectangle(rect, radii, mode) => {
                // A clip-out makes the mask unbounded in the worst case.
                if mode == ClipMode::ClipOut {
                    has_clip_out = true;
                    break ;
                }
                local_rect = narrowed(local_rect, &rect);
                local_inner = match extract_inner_rect(&rect, &radii) {
                    Some(inner) => narrowed(local_inner, &inner),
                    None => None,
                };
            },
            ClipSource::BorderCorner(_) => {
                has_border_clip = true;
                assert(clips@.take(i + 1)[i as int].forces_fallback());
            },
        }
        i = i + 1;
    }
    proof {
        if !has_clip_out {
            assert(clips@.take(i as int) =~= clips@);
        }
    }
    if has_clip_out || has_border_clip {
        MaskBounds { outer: None, inner: Some(Geometry::from(Rect::zero())) }
    } else {
        let outer = match local_rect {
            Some(r) => r,
            None => Rect::zero(),
        };
        let inner = match local_inner {
            Some(r) => r,
            None => Rect::zero(),
        };
        MaskBounds { outer: Some(Geometry::from(outer)), inner: Some(Geometry::from(inner)) }
    }
}

/// Lists the image of every image source, in source order.
pub fn collect_image_requests(clips: &Vec<ClipSource>) -> (images: Vec<ImageKey>)
    ensures
        images@ == image_requests(clips@),
{
    let mut images: Vec<ImageKey> = Vec::new();
    let mut i: usize = 0;
    assert(clips@.take(0) =~= Seq::empty());
    while i < clips.len()
        invariant
            i <= clips@.len(),
            images@ == image_requests(clips@.take(i as int)),
        decreases clips@.len() - i,
    {
        assert(clips@.take(i + 1).drop_last() =~= clips@.take(i as int));
        if let ClipSource::Image(mask) = clips[i] {
            images.push(mask.image);
        }
        i = i + 1;
    }
    assert(clips@.take(i as int) =~= clips@);
    images
}

impl ClipSources {
    /// The sources, in composition order.
    pub closed spec fn sources(&self) -> Seq<ClipSource> {
        self.clips@
    }

    /// The bounds as last computed.
    pub closed spec fn cached_bounds(&self) -> MaskBounds {
        self.bounds
    }

    /// The bounds after a refresh: untouched for an empty list; else the
    /// local bounds, computed if the inner bound was absent, projected anew.
    pub open spec fn refreshed_bounds(&self, transform: Transform, device_pixel_ratio: u32) -> MaskBounds {
        if self.sources().len() == 0 {
            self.cached_bounds()
        } else if self.cached_bounds().inner.is_none() {
            local_bounds(self.sources()).projected(transform, device_pixel_ratio)
        } else {
            self.cached_bounds().projected(transform, device_pixel_ratio)
        }
    }

    pub fn new(clips: Vec<ClipSource>) -> (sources: ClipSources)
        ensures
            sources.sources() == clips@,
            sources.cached_bounds() == MaskBounds::unknown(),
    {
        ClipSources { clips, bounds: MaskBounds { inner: None, outer: None } }
    }

    pub fn clips(&self) -> (clips: &[ClipSource])
        ensures
            clips@ == self.sources(),
    {
        self.clips.as_slice()
    }

    pub fn mask_bounds(&self) -> (bounds: MaskBounds)
        ensures
            bounds == self.cached_bounds(),
    {
        self.bounds
    }

    /// Brings the bounds up to date for this frame and says what the mask
    /// builder and the resource cache must do.
    pub fn update(&mut self, transform: &Transform, device_pixel_ratio: u32) -> (requests:
        FrameRequests)
        ensures
            final(self).sources() == old(self).sources(),
            final(self).cached_bounds() == old(self).refreshed_bounds(
                *transform,
                device_pixel_ratio,
            ),
            requests.rebuild_mask == (old(self).sources().len() > 0),
            requests.images@ == if old(self).sources().len() > 0 {
                image_requests(old(self).sources())
            } else {
                Seq::empty()
            },
    {
        if self.clips.len() == 0 {
            return FrameRequests { rebuild_mask: false, images: Vec::new() };
        }
        if self.bounds.inner.is_none() {
            self.bounds = compute_local_bounds(&self.clips);
        }
        self.bounds.update(transform, device_pixel_ratio);
        let images = collect_image_requests(&self.clips);
        FrameRequests { rebuild_mask: true, images }
    }

    /// Whether drawing needs a per-pixel mask test, given what the mask
    /// builder reports of the data it built: an empty list never masks.
    pub fn is_masking(&self, builder_is_masking: bool) -> (masking: bool)
        ensures
            masking == (self.sources().len() > 0 && builder_is_masking),
    {
        self.clips.len() > 0 && builder_is_masking
    }
}

impl From<ClipRegion> for ClipSources {
    /// The sources of a region, in order, with nothing known of their bounds.
    fn from(region: ClipRegion) -> (sources: ClipSources)
        ensures
            sources.sources() == region.spec_sources(),
            sources.cached_bounds() == MaskBounds::unknown(),
    {
        let mut clips: Vec<ClipSource> = Vec::new();
        if let Some(info) = region.image_mask {
            clips.push(ClipSource::Image(info));
        }
        clips.push(ClipSource::Rectangle(region.main));
        let ghost head = clips@;
        let mut i: usize = 0;
        while i < region.complex_clips.len()
            invariant
                i <= region.complex_clips@.len(),
                clips@ =~= head + Seq::new(
                    i as nat,
                    |j: int|
                        ClipSource::RoundedRectangle(
                            region.complex_clips@[j].rect,
                            region.complex_clips@[j].radii,
                            ClipMode::Clip,
                        ),
                ),
            decreases region.complex_clips@.len() - i,
        {
            let complex = region.complex_clips[i];
            clips.push(ClipSource::RoundedRectangle(complex.rect, complex.radii, ClipMode::Clip));
            i = i + 1;
        }
        assert(clips@ =~= region.spec_sources());
        ClipSources::new(clips)
    }
}

/// The conversion is stated over the source list and the bounds, by the
/// `ensures` of `from`: no value of the type can be written down in a
/// specification, so `from_spec` is left unused.
impl vstd::std_specs::convert::FromSpecImpl<ClipRegion> for ClipSources {
    open spec fn obeys_from_spec() -> bool {
        false
    }

    open spec fn from_spec(region: ClipRegion) -> ClipSources {
        arbitrary()
    }
}

} // verus!
