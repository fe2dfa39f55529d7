//! The glyph cache: four independently keyed caches of atlas sprites, for
//! font glyphs, images, custom glyphs and line decorations.
use crate::anim::{decoded_frames, CachedImage, DecodedImage};
use crate::bitmap::{
    block_image, box_drawing_image, line_sprite_image, Image, RenderMetrics, WaveSample,
};
use crate::glyph::{
    choose_scale, glyph_from_raster, glyph_shaped, is_glyph_of, AllowSquareGlyphOverflow, CachedGlyph, FontMetrics, GlyphInfo,
    RasterizedGlyph, Scale, SpriteId,
};
use crate::keys::{
    effective_underline, effective_underline_spec, BorrowedGlyphKey, CustomGlyphKey,
    GlyphKeyModel, LineKey, TextStyle, Underline,
};
use crate::table::{FrameKey, GlyphTable, SpriteTable};
use vstd::prelude::*;

verus! {

#[verifier::external_type_specification]
#[verifier::external_body]
#[verifier::reject_recursive_types(K)]
#[verifier::reject_recursive_types(V)]
#[verifier::reject_recursive_types(S)]
pub struct ExLruCache<K, V, S>(lru::LruCache<K, V, S>);

#[verifier::external_type_specification]
#[verifier::external_body]
pub struct ExLruHasher(lru::DefaultHasher);

/// The images that an LRU image cache holds, by id.
pub uninterp spec fn lru_entries(c: lru::LruCache<usize, CachedImage>) -> Map<usize, CachedImage>;

/// How many images an LRU image cache holds at most.
pub uninterp spec fn lru_capacity(c: lru::LruCache<usize, CachedImage>) -> nat;

/// An image cache that holds nothing.
pub open spec fn no_images() -> Map<usize, CachedImage> {
    Map::empty()
}

/// Relies on `lru::LruCache::new`: an empty cache that holds at most `cap`
/// entries.
#[verifier::external_body]
fn lru_new(cap: usize) -> (r: lru::LruCache<usize, CachedImage>)
    ensures
        lru_entries(r) == no_images(),
        lru_capacity(r) == cap,
{
    lru::LruCache::new(cap)
}

/// Relies on `lru::LruCache::pop`: removes the entry of `k`, if any, and
/// hands back its value.
#[verifier::external_body]
fn lru_pop(c: &mut lru::LruCache<usize, CachedImage>, k: usize) -> (r: Option<CachedImage>)
    ensures
        lru_capacity(*final(c)) == lru_capacity(*old(c)),
        lru_entries(*final(c)) == lru_entries(*old(c)).remove(k),
        lru_entries(*old(c)).contains_key(k) ==> r == Some(lru_entries(*old(c))[k]),
        !lru_entries(*old(c)).contains_key(k) ==> r is None,
{
    c.pop(&k)
}

/// Relies on `lru::LruCache::put`: stores `v` under `k` as the most
/// recently used entry. A new key in a full cache (of nonzero capacity)
/// evicts the least recently used entry; a cache of capacity zero stores
/// nothing new.
#[verifier::external_body]
fn lru_put(c: &mut lru::LruCache<usize, CachedImage>, k: usize, v: CachedImage)
    ensures
        lru_capacity(*final(c)) == lru_capacity(*old(c)),
        lru_entries(*old(c)).contains_key(k) ==> lru_entries(*final(c)) == lru_entries(
            *old(c),
        ).insert(k, v),
        !lru_entries(*old(c)).contains_key(k) && lru_entries(*old(c)).dom().finite()
            && lru_entries(*old(c)).dom().len() < lru_capacity(*old(c)) ==> lru_entries(*final(c))
            == lru_entries(*old(c)).insert(k, v),
        lru_capacity(*old(c)) > 0 ==> lru_entries(*final(c)).contains_key(k) && lru_entries(
            *final(c),
        )[k] == v,
        forall|j: usize|
            j != k && #[trigger] lru_entries(*final(c)).contains_key(j) ==> lru_entries(
                *old(c),
            ).contains_key(j) && lru_entries(*final(c))[j] == lru_entries(*old(c))[j],
        lru_entries(*final(c)).dom().finite(),
        lru_entries(*final(c)).dom().len() <= lru_capacity(*final(c)),
{
    c.put(k, v);
}

/// Handed back by the atlas when a bitmap does not fit.
#[derive(Debug, Clone, Copy, PartialEq, Eq, Structural)]
pub struct AtlasError {
    /// The side of the square the bitmap needs.
    pub size: usize,
}

/// The texture atlas that sprites are packed into.
pub trait SpriteAtlas {
    /// Packs an image, with `padding` pixels around it when given.
    fn allocate(&mut self, image: &Image, padding: Option<usize>) -> Result<SpriteId, AtlasError>;

    /// Forgets every sprite.
    fn clear(&mut self);
}

/// What went wrong in resolving a glyph.
#[derive(Debug, Clone)]
pub enum GlyphError {
    /// The font could not resolve or rasterize the glyph.
    Font { info: GlyphInfo, style: TextStyle },
    /// The atlas had no room for it.
    Atlas(AtlasError),
}

/// The font system that glyphs are rasterized by.
pub trait GlyphRasterizer {
    /// The cell metrics of the base font of a style.
    fn metrics(&mut self, style: &TextStyle) -> Option<FontMetrics>;

    /// The cell metrics of font `font_idx` of a style's fallback list.
    fn metrics_for_idx(&mut self, style: &TextStyle, font_idx: usize) -> Option<FontMetrics>;

    /// Rasterizes a glyph of font `font_idx` of a style's fallback list.
    fn rasterize(&mut self, style: &TextStyle, glyph_pos: u32, font_idx: usize) -> Option<
        RasterizedGlyph,
    >;

    /// Resamples an image by a scale factor.
    fn resample(&mut self, image: &Image, scale: Scale) -> Image;
}

/// The number of decoded images that are kept.
pub const IMAGE_CACHE_SIZE: usize = 16;

/// Caches of sprites for font glyphs, images, custom glyphs and line
/// decorations, and of decoded images; the atlas and the font system are
/// handed to each call.
pub struct GlyphCache {
    glyph_cache: GlyphTable,
    image_cache: lru::LruCache<usize, CachedImage>,
    frame_cache: SpriteTable<FrameKey>,
    line_glyphs: SpriteTable<LineKey>,
    custom_glyphs: SpriteTable<CustomGlyphKey>,
    metrics: RenderMetrics,
    wave: Vec<WaveSample>,
    overflow: AllowSquareGlyphOverflow,
}

/// The field values of the glyph key for a request.
pub open spec fn glyph_key_of(info: GlyphInfo, style: TextStyle, followed_by_space: bool) -> GlyphKeyModel {
    GlyphKeyModel {
        font_idx: info.font_idx,
        glyph_pos: info.glyph_pos,
        font_id: style.font_id,
        foreground: style.foreground,
        followed_by_space,
    }
}

/// The line key for a request.
pub open spec fn line_key_of(highlighted: bool, strike: bool, underline: Underline, overline: bool) -> LineKey {
    LineKey {
        strike_through: strike,
        underline: effective_underline_spec(highlighted, underline),
        overline,
    }
}


/// What `cached_glyph` promises for key `k`: a cached glyph is handed back
/// as it is, with nothing changed; otherwise a glyph that is handed back is
/// cached under `k`, and a failure caches nothing. No other key changes.
pub open spec fn glyph_resolved(
    before: &GlyphCache,
    after: &GlyphCache,
    k: GlyphKeyModel,
    r: Result<CachedGlyph, GlyphError>,
) -> bool {
    &&& before.glyph_entry(k) matches Some(g) ==> r == Ok::<CachedGlyph, GlyphError>(g)
        && after.same_sprites(before)
    &&& before.glyph_entry(k) is None ==> match r {
        Ok(g) => after.glyph_entry(k) == Some(g),
        Err(_) => after.glyph_entry(k) is None,
    }
    &&& forall|j: GlyphKeyModel| j != k ==> #[trigger] after.glyph_entry(j) == before.glyph_entry(j)
}

/// Whether the frames that `data` decodes to, or the placeholder that
/// stands in for them, are a single frame.
pub open spec fn decodes_to_one_frame(data: Seq<u8>) -> bool {
    match decoded_frames(data) {
        Some(raws) => raws.len() <= 1,
        None => true,
    }
}

/// Whether image `id` has to be decoded: it is not kept, or it is kept as
/// a still image whose sprite is gone.
pub open spec fn needs_decoding(c: &GlyphCache, id: usize) -> bool {
    !c.images().contains_key(id) || (c.images()[id] is SingleFrame && c.frame_entry(id, 0) is None)
}

/// Whether an image cache keeps what it must: at most
/// `IMAGE_CACHE_SIZE` images, each animation with more than one frame and
/// a current frame among them.
pub open spec fn images_kept(m: Map<usize, CachedImage>) -> bool {
    &&& m.dom().finite()
    &&& m.dom().len() <= IMAGE_CACHE_SIZE
    &&& forall|id: usize| #[trigger]
        m.contains_key(id) ==> match m[id] {
            CachedImage::Animation(d) => d.wf() && d.frames@.len() > 1,
            CachedImage::SingleFrame => true,
        }
}

/// What `cached_image` promises for a kept animation that was `d` before
/// the call and is `d2` after it.
pub open spec fn animation_resolved(
    before: &GlyphCache,
    after: &GlyphCache,
    id: usize,
    d: DecodedImage,
    d2: DecodedImage,
    now: u64,
    r: Result<(SpriteId, Option<u64>), AtlasError>,
) -> bool {
    &&& d2.frames == d.frames
    &&& now < d.next_due() ==> d2 == d
    &&& now >= d.next_due() ==> d2.frame_start == now && d2.current_frame == (d.current_frame + 1)
        % (d.frames@.len() as int)
    &&& r matches Ok(p) ==> p.1 == Some(d2.next_due()) && after.frame_entry(id, d2.current_frame)
        == Some(p.0)
    &&& before.frame_entry(id, d2.current_frame) matches Some(s) ==> r == Ok::<
        (SpriteId, Option<u64>),
        AtlasError,
    >((s, Some(d2.next_due())))
}

/// What `cached_image` promises for an image it decodes and packs.
pub open spec fn decode_resolved(
    after: &GlyphCache,
    id: usize,
    data: Seq<u8>,
    now: u64,
    p: (SpriteId, Option<u64>),
) -> bool {
    &&& after.images().contains_key(id)
    &&& after.frame_entry(id, 0) == Some(p.0)
    &&& decodes_to_one_frame(data) ==> after.images()[id] is SingleFrame && p.1 is None
    &&& !decodes_to_one_frame(data) ==> after.images()[id] is Animation
        && after.images()[id]->Animation_0.shows(decoded_frames(data)->0, now)
        && p.1 == Some(after.images()[id]->Animation_0.next_due())
}

/// What `cached_image` promises for image `id`:
/// - a still image whose sprite is cached gives that sprite and no due time;
/// - an animation moves to its next frame when the current one is due,
///   gives the sprite of the frame showing then, and when that frame is due;
/// - an image that has to be decoded is decoded and its first frame packed:
///   an animation is kept as such, showing its first frame from `now`;
///   anything else is kept as a still image, with no due time;
/// - a failure keeps the image's frame sprites as they were.
pub open spec fn image_resolved(
    before: &GlyphCache,
    after: &GlyphCache,
    id: usize,
    data: Seq<u8>,
    now: u64,
    r: Result<(SpriteId, Option<u64>), AtlasError>,
) -> bool {
    &&& before.images().contains_key(id) && before.images()[id] is SingleFrame
        && before.frame_entry(id, 0) is Some ==> r == Ok::<(SpriteId, Option<u64>), AtlasError>(
        (before.frame_entry(id, 0)->0, None),
    ) && after.images() == before.images() && after.same_sprites(before)
    &&& before.images().contains_key(id) && before.images()[id] is Animation ==> after.images().contains_key(id)
        && after.images()[id] is Animation && animation_resolved(
        before,
        after,
        id,
        before.images()[id]->Animation_0,
        after.images()[id]->Animation_0,
        now,
        r,
    )
    &&& needs_decoding(before, id) && r is Ok ==> decode_resolved(after, id, data, now, r->Ok_0)
    &&& needs_decoding(before, id) && r is Err ==> after.images() == before.images()
    &&& r is Err ==> forall|f: usize| #[trigger] after.frame_entry(id, f) == before.frame_entry(id, f)
}

impl GlyphCache {
    pub closed spec fn glyph_entry(&self, k: GlyphKeyModel) -> Option<CachedGlyph> {
        self.glyph_cache.get_spec(k)
    }

    pub closed spec fn frame_entry(&self, image_id: usize, frame: usize) -> Option<SpriteId> {
        self.frame_cache.get_spec(FrameKey { image_id, frame })
    }

    pub closed spec fn line_entry(&self, k: LineKey) -> Option<SpriteId> {
        self.line_glyphs.get_spec(k)
    }

    pub closed spec fn custom_entry(&self, k: CustomGlyphKey) -> Option<SpriteId> {
        self.custom_glyphs.get_spec(k)
    }

    /// The decoded images, by id.
    pub closed spec fn images(&self) -> Map<usize, CachedImage> {
        lru_entries(self.image_cache)
    }

    pub closed spec fn render_metrics(&self) -> RenderMetrics {
        self.metrics
    }

    /// When a square glyph may grow wider than its cells.
    pub closed spec fn overflow_policy(&self) -> AllowSquareGlyphOverflow {
        self.overflow
    }

    pub closed spec fn wf(&self) -> bool {
        &&& self.metrics.wf()
        &&& forall|k: GlyphKeyModel| #[trigger] self.glyph_cache.get_spec(k) matches Some(g) ==> glyph_shaped(g)
        &&& self.wave@.len() == self.metrics.cell_width
        &&& lru_capacity(self.image_cache) == IMAGE_CACHE_SIZE
        &&& images_kept(lru_entries(self.image_cache))
    }

    /// Whether every sprite and glyph entry of `self` is as in `other`.
    pub open spec fn same_sprites(&self, other: &GlyphCache) -> bool {
        &&& forall|k: GlyphKeyModel| #[trigger] self.glyph_entry(k) == other.glyph_entry(k)
        &&& forall|i: usize, f: usize| #[trigger] self.frame_entry(i, f) == other.frame_entry(i, f)
        &&& forall|k: LineKey| #[trigger] self.line_entry(k) == other.line_entry(k)
        &&& forall|k: CustomGlyphKey| #[trigger] self.custom_entry(k) == other.custom_entry(k)
    }

    /// An empty cache for cells of the given metrics. `wave` is the curly
    /// underline, one sample per column; `overflow` says when a square glyph
    /// may grow wider than its cells.
    pub fn new(metrics: RenderMetrics, wave: Vec<WaveSample>, overflow: AllowSquareGlyphOverflow) -> (r: GlyphCache)
        requires
            metrics.wf(),
            wave@.len() == metrics.cell_width,
        ensures
            r.wf(),
            images_kept(r.images()),
            r.render_metrics() == metrics,
            r.images() == no_images(),
            forall|k: GlyphKeyModel| #[trigger] r.glyph_entry(k) is None,
            forall|i: usize, f: usize| #[trigger] r.frame_entry(i, f) is None,
            forall|k: LineKey| #[trigger] r.line_entry(k) is None,
            forall|k: CustomGlyphKey| #[trigger] r.custom_entry(k) is None,
    {
        GlyphCache {
            glyph_cache: GlyphTable::new(),
            image_cache: lru_new(IMAGE_CACHE_SIZE),
            frame_cache: SpriteTable::new(),
            line_glyphs: SpriteTable::new(),
            custom_glyphs: SpriteTable::new(),
            metrics,
            wave,
            overflow,
        }
    }

    /// Drops every sprite and glyph and clears the atlas. Decoded images are
    /// kept: they are costly to decode again.
    pub fn clear<A: SpriteAtlas>(&mut self, atlas: &mut A)
        requires
            old(self).wf(),
        ensures
            final(self).wf(),
            images_kept(final(self).images()),
            final(self).render_metrics() == old(self).render_metrics(),
            final(self).images() == old(self).images(),
            forall|k: GlyphKeyModel| #[trigger] final(self).glyph_entry(k) is None,
            forall|i: usize, f: usize| #[trigger] final(self).frame_entry(i, f) is None,
            forall|k: LineKey| #[trigger] final(self).line_entry(k) is None,
            forall|k: CustomGlyphKey| #[trigger] final(self).custom_entry(k) is None,
    {
        atlas.clear();
        self.frame_cache.clear();
        self.glyph_cache.clear();
        self.line_glyphs.clear();
        self.custom_glyphs.clear();
    }

    /// The sprite of a custom glyph, drawn and packed into the atlas on the
    /// first request.
    pub fn cached_custom_glyph<A: SpriteAtlas>(&mut self, atlas: &mut A, key: CustomGlyphKey) -> (r: Result<SpriteId, AtlasError>)
        requires
            old(self).wf(),
        ensures
            final(self).wf(),
            images_kept(final(self).images()),
            final(self).render_metrics() == old(self).render_metrics(),
            final(self).images() == old(self).images(),
            old(self).custom_entry(key) matches Some(s) ==> r == Ok::<SpriteId, AtlasError>(s)
                && final(self).same_sprites(old(self)) && *final(atlas) == *old(atlas),
            old(self).custom_entry(key) is None ==> match r {
                Ok(s) => final(self).custom_entry(key) == Some(s),
                Err(_) => final(self).custom_entry(key) is None,
            },
            forall|k: CustomGlyphKey| k != key ==> #[trigger] final(self).custom_entry(k) == old(self).custom_entry(k),
            forall|k: GlyphKeyModel| #[trigger] final(self).glyph_entry(k) == old(self).glyph_entry(k),
            forall|i: usize, f: usize| #[trigger] final(self).frame_entry(i, f) == old(self).frame_entry(i, f),
            forall|k: LineKey| #[trigger] final(self).line_entry(k) == old(self).line_entry(k),
    {
        if let Some(s) = self.custom_glyphs.get(&key) {
            return Ok(s);
        }
        let image = match key {
            CustomGlyphKey::Block(block) => block_image(&self.metrics, block),
            CustomGlyphKey::BoxDrawing(b) => box_drawing_image(&self.metrics, b),
        };
        let sprite = atlas.allocate(&image, None)?;
        self.custom_glyphs.insert(key, sprite);
        Ok(sprite)
    }

    /// The sprite of a cell's line decorations, drawn and packed into the
    /// atlas on the first request. A highlighted hyperlink raises the
    /// underline by one step before the lookup.
    pub fn cached_line_sprite<A: SpriteAtlas>(
        &mut self,
        atlas: &mut A,
        is_highlighted_hyperlink: bool,
        is_strike_through: bool,
        underline: Underline,
        overline: bool,
    ) -> (r: Result<SpriteId, AtlasError>)
        requires
            old(self).wf(),
        ensures
            final(self).wf(),
            images_kept(final(self).images()),
            final(self).render_metrics() == old(self).render_metrics(),
            final(self).images() == old(self).images(),
            ({
                let key = line_key_of(is_highlighted_hyperlink, is_strike_through, underline, overline);
                &&& old(self).line_entry(key) matches Some(s) ==> r == Ok::<SpriteId, AtlasError>(s)
                    && final(self).same_sprites(old(self)) && *final(atlas) == *old(atlas)
                &&& old(self).line_entry(key) is None ==> match r {
                    Ok(s) => final(self).line_entry(key) == Some(s),
                    Err(_) => final(self).line_entry(key) is None,
                }
                &&& forall|k: LineKey| k != key ==> #[trigger] final(self).line_entry(k) == old(self).line_entry(k)
            }),
            forall|k: GlyphKeyModel| #[trigger] final(self).glyph_entry(k) == old(self).glyph_entry(k),
            forall|i: usize, f: usize| #[trigger] final(self).frame_entry(i, f) == old(self).frame_entry(i, f),
            forall|k: CustomGlyphKey| #[trigger] final(self).custom_entry(k) == old(self).custom_entry(k),
    {
        let key = LineKey {
            strike_through: is_strike_through,
            underline: effective_underline(is_highlighted_hyperlink, underline),
            overline,
        };
        if let Some(s) = self.line_glyphs.get(&key) {
            return Ok(s);
        }
        let image = line_sprite_image(&self.metrics, key, &self.wave);
        let sprite = atlas.allocate(&image, None)?;
        self.line_glyphs.insert(key, sprite);
        Ok(sprite)
    }

    /// Rasterizes, scales and packs a glyph that is not cached yet. A glyph
    /// with pixels is resampled by its scale (unless that is one) and packed
    /// once; a whitespace glyph packs nothing. A font failure, or a raster
    /// that cannot be cached, leaves the atlas alone.
    pub fn load_glyph<R: GlyphRasterizer, A: SpriteAtlas>(
        &self,
        fonts: &mut R,
        atlas: &mut A,
        info: &GlyphInfo,
        style: &TextStyle,
        followed_by_space: bool,
    ) -> (r: Result<CachedGlyph, GlyphError>)
        ensures
            r matches Ok(g) ==> glyph_shaped(g),
            r matches Ok(g) ==> exists|base: FontMetrics, idx: FontMetrics, raster: RasterizedGlyph, sprite: SpriteId|
                #[trigger] is_glyph_of(g, *info, self.overflow_policy(), followed_by_space, base, idx, raster, sprite),
            r matches Ok(g) && g.texture is None ==> *final(atlas) == *old(atlas),
            r matches Err(GlyphError::Font { info: i, style: s }) ==> i == *info && s == *style
                && *final(atlas) == *old(atlas),
    {
        let font_error = GlyphError::Font { info: *info, style: *style };
        let base = match fonts.metrics(style) {
            Some(m) => m,
            None => return Err(font_error),
        };
        let glyph = match fonts.rasterize(style, info.glyph_pos, info.font_idx) {
            Some(g) => g,
            None => return Err(font_error),
        };
        let idx = match fonts.metrics_for_idx(style, info.font_idx) {
            Some(m) => m,
            None => return Err(font_error),
        };
        let unplaced = match glyph_from_raster(&base, &idx, &glyph, info, self.overflow, followed_by_space, SpriteId { index: 0 }) {
            Some(g) => g,
            None => return Err(font_error),
        };
        if glyph.width == 0 || glyph.height == 0 {
            assert(is_glyph_of(unplaced, *info, self.overflow, followed_by_space, base, idx, glyph, SpriteId { index: 0 }));
            return Ok(unplaced);
        }
        let raw = match Image::from_rgba(glyph.width, glyph.height, &glyph.data) {
            Some(img) => img,
            None => return Err(font_error),
        };
        let scale = choose_scale(&base, &idx, glyph.width, info.num_cells, self.overflow, followed_by_space);
        let image = if scale.is_identity() {
            raw
        } else {
            fonts.resample(&raw, scale)
        };
        let sprite = match atlas.allocate(&image, None) {
            Ok(s) => s,
            Err(e) => return Err(GlyphError::Atlas(e)),
        };
        match glyph_from_raster(&base, &idx, &glyph, info, self.overflow, followed_by_space, sprite) {
            Some(g) => {
                assert(is_glyph_of(g, *info, self.overflow, followed_by_space, base, idx, glyph, sprite));
                Ok(g)
            },
            None => Err(font_error),
        }
    }

    /// A glyph for rendering, rasterized and packed into the atlas on the
    /// first request for its key. A cached glyph is handed back without
    /// touching the font system or the atlas. A failure inserts nothing.
    pub fn cached_glyph<R: GlyphRasterizer, A: SpriteAtlas>(
        &mut self,
        fonts: &mut R,
        atlas: &mut A,
        info: &GlyphInfo,
        style: &TextStyle,
        followed_by_space: bool,
    ) -> (r: Result<CachedGlyph, GlyphError>)
        requires
            old(self).wf(),
        ensures
            final(self).wf(),
            images_kept(final(self).images()),
            final(self).render_metrics() == old(self).render_metrics(),
            final(self).overflow_policy() == old(self).overflow_policy(),
            final(self).images() == old(self).images(),
            glyph_resolved(old(self), final(self), glyph_key_of(*info, *style, followed_by_space), r),
            old(self).glyph_entry(glyph_key_of(*info, *style, followed_by_space)) is Some ==> *final(fonts) == *old(fonts)
                && *final(atlas) == *old(atlas),
            r matches Ok(g) ==> glyph_shaped(g),
            old(self).glyph_entry(glyph_key_of(*info, *style, followed_by_space)) is None ==> (r matches Ok(g)
                ==> exists|base: FontMetrics, idx: FontMetrics, raster: RasterizedGlyph, sprite: SpriteId|
                #[trigger] is_glyph_of(g, *info, old(self).overflow_policy(), followed_by_space, base, idx, raster, sprite)),
            r matches Err(GlyphError::Font { info: i, style: s }) ==> i == *info && s == *style
                && *final(atlas) == *old(atlas),
            forall|i: usize, f: usize| #[trigger] final(self).frame_entry(i, f) == old(self).frame_entry(i, f),
            forall|k: LineKey| #[trigger] final(self).line_entry(k) == old(self).line_entry(k),
            forall|k: CustomGlyphKey| #[trigger] final(self).custom_entry(k) == old(self).custom_entry(k),
    {
        let key = BorrowedGlyphKey {
            font_idx: info.font_idx,
            glyph_pos: info.glyph_pos,
            style,
            followed_by_space,
        };
        if let Some(g) = self.glyph_cache.get(&key) {
            return Ok(g);
        }
        let glyph = self.load_glyph(fonts, atlas, info, style, followed_by_space)?;
        self.glyph_cache.insert(key.to_owned(), glyph);
        Ok(glyph)
    }

    /// A sprite for an image and, for an animation, when the caller should
    /// ask again to see the next frame. Images are decoded on first use;
    /// bytes that do not decode show as one transparent pixel. The current
    /// frame of an animation moves on once it is due at `now`.
    pub fn cached_image<A: SpriteAtlas>(
        &mut self,
        atlas: &mut A,
        image_id: usize,
        data: &[u8],
        padding: Option<usize>,
        now: u64,
    ) -> (r: Result<(SpriteId, Option<u64>), AtlasError>)
        requires
            old(self).wf(),
        ensures
            final(self).wf(),
            images_kept(final(self).images()),
            final(self).render_metrics() == old(self).render_metrics(),
            image_resolved(old(self), final(self), image_id, data@, now, r),
            !needs_decoding(old(self), image_id) && old(self).images()[image_id] is SingleFrame
                ==> *final(atlas) == *old(atlas),
            old(self).images().contains_key(image_id) && old(self).images()[image_id] is Animation
                && old(self).frame_entry(image_id, final(self).images()[image_id]->Animation_0.current_frame) is Some
                ==> *final(atlas) == *old(atlas),
            forall|k: GlyphKeyModel| #[trigger] final(self).glyph_entry(k) == old(self).glyph_entry(k),
            forall|k: LineKey| #[trigger] final(self).line_entry(k) == old(self).line_entry(k),
            forall|k: CustomGlyphKey| #[trigger] final(self).custom_entry(k) == old(self).custom_entry(k),
            forall|i: usize, f: usize| i != image_id ==> #[trigger] final(self).frame_entry(i, f) == old(self).frame_entry(i, f),
    {
        let ghost old_images = lru_entries(self.image_cache);
        let popped = lru_pop(&mut self.image_cache, image_id);
        proof {
            if old_images.contains_key(image_id) {
                assert(old_images.dom().remove(image_id) =~= lru_entries(self.image_cache).dom());
                assert(lru_entries(self.image_cache).dom().len() < IMAGE_CACHE_SIZE);
            } else {
                assert(lru_entries(self.image_cache) =~= old_images);
            }
        }
        match popped {
            Some(CachedImage::SingleFrame) => {
                lru_put(&mut self.image_cache, image_id, CachedImage::SingleFrame);
                assert(lru_entries(self.image_cache) =~= old_images);
                if let Some(s) = self.frame_cache.get(&FrameKey { image_id, frame: 0 }) {
                    return Ok((s, None));
                }
            },
            Some(CachedImage::Animation(mut decoded)) => {
                let next = decoded.advance(now);
                let frame = decoded.current_frame;
                if let Some(s) = self.frame_cache.get(&FrameKey { image_id, frame }) {
                    lru_put(&mut self.image_cache, image_id, CachedImage::Animation(decoded));
                    return Ok((s, next));
                }
                let allocated = atlas.allocate(&decoded.frames[frame].image, padding);
                let due_at = decoded.frame_start.saturating_add(decoded.frames[frame].duration);
                lru_put(&mut self.image_cache, image_id, CachedImage::Animation(decoded));
                let s = allocated?;
                self.frame_cache.insert(FrameKey { image_id, frame }, s);
                return Ok((s, Some(due_at)));
            },
            None => {},
        }
        let decoded = match DecodedImage::load(data, now) {
            Some(d) => d,
            None => DecodedImage::placeholder(now),
        };
        let s = atlas.allocate(&decoded.frames[0].image, padding)?;
        self.frame_cache.insert(FrameKey { image_id, frame: 0 }, s);
        if decoded.frames.len() > 1 {
            let next = decoded.frame_start.saturating_add(decoded.frames[0].duration);
            lru_put(&mut self.image_cache, image_id, CachedImage::Animation(decoded));
            Ok((s, Some(next)))
        } else {
            lru_put(&mut self.image_cache, image_id, CachedImage::SingleFrame);
            Ok((s, None))
        }
    }
}

/// Resolving a glyph twice with the same arguments hands back the same
/// glyph, and so the same sprite; the second call changes nothing, so it
/// packs nothing new into the atlas.
pub proof fn lemma_resolve_glyph_idempotent(
    c0: &GlyphCache,
    c1: &GlyphCache,
    c2: &GlyphCache,
    k: GlyphKeyModel,
    r1: Result<CachedGlyph, GlyphError>,
    r2: Result<CachedGlyph, GlyphError>,
)
    requires
        glyph_resolved(c0, c1, k, r1),
        glyph_resolved(c1, c2, k, r2),
        r1 is Ok,
    ensures
        r2 == r1,
        c2.same_sprites(c1),
{
}

/// An image that decodes to a single frame (or does not decode) is never
/// kept as an animation and never gets a due time, neither when it is
/// first seen nor when its sprite is found again later.
pub proof fn lemma_single_frame_never_animates(
    c0: &GlyphCache,
    c1: &GlyphCache,
    c2: &GlyphCache,
    id: usize,
    data: Seq<u8>,
    t1: u64,
    t2: u64,
    r1: Result<(SpriteId, Option<u64>), AtlasError>,
    r2: Result<(SpriteId, Option<u64>), AtlasError>,
)
    requires
        !c0.images().contains_key(id),
        decodes_to_one_frame(data),
        image_resolved(c0, c1, id, data, t1, r1),
        image_resolved(c1, c2, id, data, t2, r2),
        r1 is Ok,
    ensures
        c1.images()[id] is SingleFrame,
        r1->Ok_0.1 is None,
        c2.images()[id] is SingleFrame,
        r2 == r1,
{
}

} // verus!
