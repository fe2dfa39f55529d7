use glyphcache::anim::{DecodedImage, ImageFrame, RawFrame};
use glyphcache::bitmap::{
    add_wave, block_image, box_drawing_image, line_image, line_sprite_image, Image,
    RenderMetrics, WaveSample, CLEAR, WHITE,
};
use glyphcache::cache::{AtlasError, GlyphCache, GlyphError, GlyphRasterizer, SpriteAtlas};
use glyphcache::glyph::{
    choose_scale, glyph_from_raster, make_glyph, AllowSquareGlyphOverflow, FontMetrics, GlyphInfo,
    RasterizedGlyph, Scale, SpriteId,
};
use glyphcache::keys::{
    effective_underline, BlockAlpha, BlockKey, BorrowedGlyphKey, BoxDrawingKey,
    CustomGlyphKey, GlyphKey, LineKey, Quadrant, TextStyle, Underline,
};

const MS: u64 = 1_000_000;

fn metrics() -> RenderMetrics {
    RenderMetrics {
        cell_width: 8,
        cell_height: 16,
        underline_height: 2,
        descender_row: 12,
        descender_plus_two: 14,
        strike_row: 8,
    }
}

fn flat_wave() -> Vec<WaveSample> {
    vec![WaveSample { low: 0, high: 1, coverage: 64 }; 8]
}

/// Hands out sprites in order and counts them.
struct CountingAtlas {
    allocated: usize,
    cleared: usize,
    capacity: usize,
}

impl CountingAtlas {
    fn new() -> Self {
        CountingAtlas { allocated: 0, cleared: 0, capacity: usize::MAX }
    }
}

impl SpriteAtlas for CountingAtlas {
    fn allocate(&mut self, image: &Image, _padding: Option<usize>) -> Result<SpriteId, AtlasError> {
        if self.allocated >= self.capacity {
            return Err(AtlasError { size: image.width.max(image.height) });
        }
        let id = SpriteId { index: self.allocated };
        self.allocated += 1;
        Ok(id)
    }

    fn clear(&mut self) {
        self.cleared += 1;
        self.allocated = 0;
    }
}

/// A font system whose base cell is 8x16 pixels.
struct FakeFonts {
    idx: FontMetrics,
    glyph_width: usize,
    glyph_height: usize,
    rasterized: usize,
    resampled: usize,
    fail: bool,
}

impl FakeFonts {
    fn new(glyph_width: usize, glyph_height: usize) -> Self {
        FakeFonts {
            idx: FontMetrics { cell_width: 512, cell_height: 1024 },
            glyph_width,
            glyph_height,
            rasterized: 0,
            resampled: 0,
            fail: false,
        }
    }
}

impl GlyphRasterizer for FakeFonts {
    fn metrics(&mut self, _style: &TextStyle) -> Option<FontMetrics> {
        Some(FontMetrics { cell_width: 512, cell_height: 1024 })
    }

    fn metrics_for_idx(&mut self, _style: &TextStyle, _font_idx: usize) -> Option<FontMetrics> {
        Some(self.idx)
    }

    fn rasterize(&mut self, _style: &TextStyle, _glyph_pos: u32, _font_idx: usize) -> Option<RasterizedGlyph> {
        if self.fail {
            return None;
        }
        self.rasterized += 1;
        Some(RasterizedGlyph {
            width: self.glyph_width,
            height: self.glyph_height,
            bearing_x: 64,
            bearing_y: -128,
            has_color: false,
            data: vec![0xff; 4 * self.glyph_width * self.glyph_height],
        })
    }

    fn resample(&mut self, image: &Image, _scale: Scale) -> Image {
        self.resampled += 1;
        image.clone()
    }
}

fn style() -> TextStyle {
    TextStyle { font_id: 3, foreground: Some(0x00ff00) }
}

fn info() -> GlyphInfo {
    GlyphInfo { font_idx: 0, glyph_pos: 42, num_cells: 1, x_offset: 64, y_offset: -64 }
}

fn three_frame_gif() -> Vec<u8> {
    let mut bytes = Vec::new();
    {
        let mut encoder = image::codecs::gif::GifEncoder::new(&mut bytes);
        let frames: Vec<image::Frame> = [10u8, 20, 30]
            .iter()
            .map(|&v| {
                let buffer = image::RgbaImage::from_pixel(2, 2, image::Rgba([v, v, v, 255]));
                image::Frame::from_parts(buffer, 0, 0, image::Delay::from_numer_denom_ms(100, 1))
            })
            .collect();
        encoder.encode_frames(frames).unwrap();
    }
    bytes
}

fn rows_where(img: &Image, x: usize, color: u32) -> Vec<usize> {
    (0..img.height).filter(|&y| img.rows[y][x] == color).collect()
}

fn cols_where(img: &Image, y: usize, color: u32) -> Vec<usize> {
    (0..img.width).filter(|&x| img.rows[y][x] == color).collect()
}

#[test]
fn block_elements_decode_from_their_code_points() {
    assert_eq!(BlockKey::from_char('\u{2580}'), Some(BlockKey::Upper(4)));
    assert_eq!(BlockKey::from_char('\u{2581}'), Some(BlockKey::Lower(1)));
    assert_eq!(BlockKey::from_char('\u{2587}'), Some(BlockKey::Lower(7)));
    assert_eq!(BlockKey::from_char('\u{2588}'), Some(BlockKey::Full(BlockAlpha::Full)));
    assert_eq!(BlockKey::from_char('\u{2589}'), Some(BlockKey::Left(7)));
    assert_eq!(BlockKey::from_char('\u{258f}'), Some(BlockKey::Left(1)));
    assert_eq!(BlockKey::from_char('\u{2590}'), Some(BlockKey::Right(4)));
    assert_eq!(BlockKey::from_char('\u{2591}'), Some(BlockKey::Full(BlockAlpha::Light)));
    assert_eq!(BlockKey::from_char('\u{2592}'), Some(BlockKey::Full(BlockAlpha::Medium)));
    assert_eq!(BlockKey::from_char('\u{2593}'), Some(BlockKey::Full(BlockAlpha::Dark)));
    assert_eq!(BlockKey::from_char('\u{2594}'), Some(BlockKey::Upper(1)));
    assert_eq!(BlockKey::from_char('\u{2595}'), Some(BlockKey::Right(1)));
    assert_eq!(
        BlockKey::from_char('\u{259a}'),
        Some(BlockKey::Quadrants(Quadrant::new(true, false, false, true)))
    );
    assert_eq!(
        BlockKey::from_char('\u{259f}'),
        Some(BlockKey::Quadrants(Quadrant::new(false, true, true, true)))
    );
    assert_eq!(BlockKey::from_char('\u{25a0}'), None);
    assert_eq!(BlockKey::from_char('a'), None);
}

#[test]
fn custom_glyphs_decode_from_chars_and_cells() {
    assert_eq!(
        CustomGlyphKey::from_char('\u{2500}'),
        Some(CustomGlyphKey::BoxDrawing(BoxDrawingKey::LightHorizontal))
    );
    assert_eq!(
        CustomGlyphKey::from_char('\u{2503}'),
        Some(CustomGlyphKey::BoxDrawing(BoxDrawingKey::HeavyVertical))
    );
    assert_eq!(BoxDrawingKey::from_char('\u{2504}'), None);
    assert_eq!(CustomGlyphKey::from_char('\u{2504}'), None);
    assert_eq!(
        CustomGlyphKey::from_char('\u{2580}'),
        Some(CustomGlyphKey::Block(BlockKey::Upper(4)))
    );
    assert_eq!(CustomGlyphKey::from_char('x'), None);
    assert_eq!(
        CustomGlyphKey::from_cell("\u{2588}"),
        Some(CustomGlyphKey::Block(BlockKey::Full(BlockAlpha::Full)))
    );
    assert_eq!(CustomGlyphKey::from_cell("\u{2588}\u{0301}"), None);
    assert_eq!(CustomGlyphKey::from_cell(""), None);
    assert_eq!(CustomGlyphKey::from_cell("a"), None);
}

#[test]
fn hyperlink_highlight_raises_the_underline() {
    assert_eq!(effective_underline(true, Underline::NoUnderline), Underline::Single);
    assert_eq!(effective_underline(true, Underline::Single), Underline::Double);
    assert_eq!(effective_underline(true, Underline::Curly), Underline::Single);
    assert_eq!(effective_underline(true, Underline::Dotted), Underline::Single);
    assert_eq!(effective_underline(false, Underline::Curly), Underline::Curly);
    assert_eq!(effective_underline(false, Underline::NoUnderline), Underline::NoUnderline);
}

#[test]
fn upper_half_block_fills_the_top_half() {
    let img = block_image(&metrics(), BlockKey::Upper(4));
    for y in 0..16 {
        for x in 0..8 {
            let expected = if y < 8 { WHITE } else { CLEAR };
            assert_eq!(img.rows[y][x], expected, "pixel {} {}", x, y);
        }
    }
}

#[test]
fn diagonal_quadrants_fill_two_quadrants() {
    let img = block_image(&metrics(), BlockKey::Quadrants(Quadrant::new(true, false, false, true)));
    for y in 0..16 {
        for x in 0..8 {
            let on = (x < 4 && y < 8) || (x >= 4 && y >= 8);
            assert_eq!(img.rows[y][x], if on { WHITE } else { CLEAR }, "pixel {} {}", x, y);
        }
    }
}

#[test]
fn eighth_blocks_cover_their_bands() {
    let m = metrics();
    assert_eq!(rows_where(&block_image(&m, BlockKey::Lower(1)), 0, WHITE), vec![14, 15]);
    assert_eq!(rows_where(&block_image(&m, BlockKey::Lower(2)), 3, WHITE), vec![12, 13, 14, 15]);
    assert_eq!(rows_where(&block_image(&m, BlockKey::Upper(1)), 5, WHITE), vec![0, 1]);
    assert_eq!(cols_where(&block_image(&m, BlockKey::Left(4)), 9, WHITE), vec![0, 1, 2, 3]);
    assert_eq!(cols_where(&block_image(&m, BlockKey::Right(1)), 0, WHITE), vec![7]);
    assert_eq!(cols_where(&block_image(&m, BlockKey::Right(4)), 0, WHITE), vec![4, 5, 6, 7]);
}

#[test]
fn full_blocks_fill_at_their_opacity() {
    let m = metrics();
    let cases = [
        (BlockAlpha::Full, 0xffff_ffffu32),
        (BlockAlpha::Dark, 0xbfe1_e1e1),
        (BlockAlpha::Medium, 0x7fbc_bcbc),
        (BlockAlpha::Light, 0x3f89_8989),
    ];
    for (alpha, pixel) in cases {
        let img = block_image(&m, BlockKey::Full(alpha));
        assert!(img.rows.iter().all(|row| row.iter().all(|&p| p == pixel)));
    }
}

#[test]
fn box_drawing_strokes_cross_the_center() {
    let m = metrics();
    let light = box_drawing_image(&m, BoxDrawingKey::LightHorizontal);
    assert_eq!(rows_where(&light, 0, WHITE), vec![7, 8]);
    assert_eq!(rows_where(&light, 7, WHITE), vec![7, 8]);
    let heavy = box_drawing_image(&m, BoxDrawingKey::HeavyHorizontal);
    assert_eq!(rows_where(&heavy, 3, WHITE), vec![6, 7, 8, 9]);
    let vertical = box_drawing_image(&m, BoxDrawingKey::HeavyVertical);
    assert_eq!(cols_where(&vertical, 0, WHITE), vec![2, 3, 4, 5]);
    assert_eq!(cols_where(&vertical, 15, WHITE), vec![2, 3, 4, 5]);
    let thin = box_drawing_image(&m, BoxDrawingKey::LightVertical);
    assert_eq!(cols_where(&thin, 4, WHITE), vec![3, 4]);
}

#[test]
fn line_decorations_draw_their_stripes() {
    let m = metrics();
    let key = |strike, underline, overline| LineKey { strike_through: strike, underline, overline };
    assert_eq!(rows_where(&line_image(&m, key(false, Underline::Single, false)), 0, WHITE), vec![12, 13]);
    assert_eq!(
        rows_where(&line_image(&m, key(false, Underline::Double, false)), 0, WHITE),
        vec![10, 11, 14, 15]
    );
    assert_eq!(rows_where(&line_image(&m, key(true, Underline::NoUnderline, false)), 4, WHITE), vec![8, 9]);
    assert_eq!(rows_where(&line_image(&m, key(false, Underline::NoUnderline, true)), 4, WHITE), vec![0, 1]);
    assert_eq!(
        rows_where(&line_image(&m, key(true, Underline::Single, true)), 2, WHITE),
        vec![0, 1, 8, 9, 12, 13]
    );
    assert!(line_image(&m, key(false, Underline::NoUnderline, false))
        .rows
        .iter()
        .all(|row| row.iter().all(|&p| p == CLEAR)));
}

#[test]
fn dotted_and_dashed_underlines_alternate_runs() {
    let m = metrics();
    let dotted = line_image(&m, LineKey { strike_through: false, underline: Underline::Dotted, overline: false });
    assert_eq!(cols_where(&dotted, 12, WHITE), vec![0, 1, 4, 5]);
    assert_eq!(cols_where(&dotted, 13, WHITE), vec![0, 1, 4, 5]);
    assert_eq!(cols_where(&dotted, 11, WHITE), Vec::<usize>::new());
    let dashed = line_image(&m, LineKey { strike_through: false, underline: Underline::Dashed, overline: false });
    assert_eq!(cols_where(&dashed, 12, WHITE), vec![0, 1, 2, 6, 7]);
}

#[test]
fn curly_underline_adds_its_wave() {
    let m = metrics();
    let key = LineKey { strike_through: false, underline: Underline::Curly, overline: false };
    let img = line_sprite_image(&m, key, &flat_wave());
    for x in 0..8 {
        assert_eq!(img.rows[10][x], 0xffbf_bfbf);
        assert_eq!(img.rows[11][x], 0xffff_ffff);
        assert_eq!(img.rows[12][x], 0xff40_4040);
        assert_eq!(img.rows[9][x], CLEAR);
        assert_eq!(img.rows[13][x], CLEAR);
    }
    let base = Image::new(8, 16);
    let deep = vec![WaveSample { low: 40, high: 41, coverage: 200 }; 8];
    let clamped = add_wave(&m, &base, &deep);
    // every stroke lands on the last row, and saturates there
    assert_eq!(clamped.rows[15][0], 0xffff_ffff);
    assert_eq!(clamped.rows[14][0], CLEAR);
}

#[test]
fn images_unpack_rgba_bytes() {
    let bytes = vec![1u8, 2, 3, 4, 5, 6, 7, 8];
    let img = Image::from_rgba(2, 1, &bytes).unwrap();
    assert_eq!(img.rows[0], vec![0x0403_0201, 0x0807_0605]);
    assert!(Image::from_rgba(2, 2, &bytes).is_none());
    assert!(Image::from_rgba(0, 3, &Vec::new()).is_some());
}

#[test]
fn scale_falls_back_to_x_scale_when_too_wide() {
    let base = FontMetrics { cell_width: 512, cell_height: 1024 };
    let square = FontMetrics { cell_width: 1024, cell_height: 1024 };
    let never = choose_scale(&base, &square, 20, 1, AllowSquareGlyphOverflow::Never, true);
    assert_eq!(never, Scale { num: 512, den: 1024 });
    let always = choose_scale(&base, &square, 20, 1, AllowSquareGlyphOverflow::Always, false);
    assert_eq!(always, Scale { num: 1024, den: 1024 });
    let spaced = choose_scale(&base, &square, 20, 1, AllowSquareGlyphOverflow::WhenFollowedBySpace, true);
    assert_eq!(spaced, Scale { num: 1024, den: 1024 });
    let unspaced = choose_scale(&base, &square, 20, 1, AllowSquareGlyphOverflow::WhenFollowedBySpace, false);
    assert_eq!(unspaced, Scale { num: 512, den: 1024 });
    let narrow = choose_scale(&base, &square, 4, 1, AllowSquareGlyphOverflow::Never, false);
    assert_eq!(narrow, Scale { num: 1024, den: 1024 });
    let tall = FontMetrics { cell_width: 1024, cell_height: 900 };
    let not_square = choose_scale(&base, &tall, 20, 2, AllowSquareGlyphOverflow::Always, true);
    assert_eq!(not_square, Scale { num: 1024, den: 1024 });
}

#[test]
fn whitespace_glyphs_get_no_sprite() {
    let half = Scale { num: 1, den: 2 };
    let g = make_glyph(&info(), 64, -128, false, true, half, SpriteId { index: 9 });
    assert_eq!(g.texture, None);
    assert_eq!(g.bearing_x, 0);
    assert_eq!(g.bearing_y, 0);
    assert_eq!(g.x_offset, 32);
    assert_eq!(g.y_offset, -32);
    assert_eq!(g.scale, half);
    let drawn = make_glyph(&info(), 64, -129, true, false, half, SpriteId { index: 9 });
    assert_eq!(drawn.texture, Some(SpriteId { index: 9 }));
    assert_eq!(drawn.bearing_x, 32);
    assert_eq!(drawn.bearing_y, -64);
    assert_eq!(drawn.scale, Scale { num: 1, den: 1 });
    assert!(drawn.has_color);
}

#[test]
fn glyph_keys_compare_by_value() {
    let owned = GlyphKey { font_idx: 1, glyph_pos: 7, style: style(), followed_by_space: true };
    let s = style();
    let borrowed = BorrowedGlyphKey { font_idx: 1, glyph_pos: 7, style: &s, followed_by_space: true };
    assert!(borrowed.matches(&owned));
    assert!(owned.key().matches(&owned));
    let again = borrowed.to_owned();
    assert!(borrowed.matches(&again));
    let other = TextStyle { font_id: 3, foreground: None };
    let differs = BorrowedGlyphKey { font_idx: 1, glyph_pos: 7, style: &other, followed_by_space: true };
    assert!(!differs.matches(&owned));
}

#[test]
fn resolving_a_glyph_twice_allocates_once() {
    let mut cache = GlyphCache::new(metrics(), flat_wave(), AllowSquareGlyphOverflow::Never);
    let mut fonts = FakeFonts::new(4, 8);
    let mut atlas = CountingAtlas::new();
    let first = cache.cached_glyph(&mut fonts, &mut atlas, &info(), &style(), false).unwrap();
    let second = cache.cached_glyph(&mut fonts, &mut atlas, &info(), &style(), false).unwrap();
    assert_eq!(first, second);
    assert_eq!(first.texture, Some(SpriteId { index: 0 }));
    assert_eq!(atlas.allocated, 1);
    assert_eq!(fonts.rasterized, 1);
    let spaced = cache.cached_glyph(&mut fonts, &mut atlas, &info(), &style(), true).unwrap();
    assert_eq!(spaced.texture, Some(SpriteId { index: 1 }));
    assert_eq!(fonts.rasterized, 2);
}

#[test]
fn glyphs_are_resampled_when_scaled() {
    let mut cache = GlyphCache::new(metrics(), flat_wave(), AllowSquareGlyphOverflow::Never);
    let mut fonts = FakeFonts::new(4, 8);
    fonts.idx = FontMetrics { cell_width: 512, cell_height: 2048 };
    let mut atlas = CountingAtlas::new();
    let g = cache.cached_glyph(&mut fonts, &mut atlas, &info(), &style(), false).unwrap();
    assert_eq!(fonts.resampled, 1);
    assert_eq!(g.scale, Scale { num: 1, den: 1 });
    assert_eq!(g.x_offset, 32);
    assert_eq!(g.bearing_y, -64);
}

#[test]
fn whitespace_glyph_is_cached_without_sprite() {
    let mut cache = GlyphCache::new(metrics(), flat_wave(), AllowSquareGlyphOverflow::Never);
    let mut fonts = FakeFonts::new(0, 0);
    let mut atlas = CountingAtlas::new();
    let g = cache.cached_glyph(&mut fonts, &mut atlas, &info(), &style(), false).unwrap();
    assert_eq!(g.texture, None);
    assert_eq!(atlas.allocated, 0);
}

#[test]
fn glyph_failures_cache_nothing() {
    let mut cache = GlyphCache::new(metrics(), flat_wave(), AllowSquareGlyphOverflow::Never);
    let mut fonts = FakeFonts::new(4, 8);
    fonts.fail = true;
    let mut atlas = CountingAtlas::new();
    match cache.cached_glyph(&mut fonts, &mut atlas, &info(), &style(), false) {
        Err(GlyphError::Font { info: i, .. }) => assert_eq!(i, info()),
        other => panic!("unexpected {:?}", other),
    }
    fonts.fail = false;
    atlas.capacity = 0;
    match cache.cached_glyph(&mut fonts, &mut atlas, &info(), &style(), false) {
        Err(GlyphError::Atlas(e)) => assert_eq!(e, AtlasError { size: 8 }),
        other => panic!("unexpected {:?}", other),
    }
    atlas.capacity = usize::MAX;
    assert!(cache.cached_glyph(&mut fonts, &mut atlas, &info(), &style(), false).is_ok());
    assert_eq!(fonts.rasterized, 2);
}

#[test]
fn custom_glyphs_and_lines_are_cached() {
    let mut cache = GlyphCache::new(metrics(), flat_wave(), AllowSquareGlyphOverflow::Never);
    let mut atlas = CountingAtlas::new();
    let key = CustomGlyphKey::Block(BlockKey::Upper(4));
    let a = cache.cached_custom_glyph(&mut atlas, key).unwrap();
    let b = cache.cached_custom_glyph(&mut atlas, key).unwrap();
    assert_eq!(a, b);
    assert_eq!(atlas.allocated, 1);
    let plain = cache.cached_line_sprite(&mut atlas, false, false, Underline::Double, false).unwrap();
    // a highlighted single underline is drawn as a double one
    let raised = cache.cached_line_sprite(&mut atlas, true, false, Underline::Single, false).unwrap();
    assert_eq!(plain, raised);
    assert_eq!(atlas.allocated, 2);
    let curly = cache.cached_line_sprite(&mut atlas, false, false, Underline::Curly, false).unwrap();
    assert_eq!(curly, SpriteId { index: 2 });
}

#[test]
fn atlas_errors_are_handed_back() {
    let mut cache = GlyphCache::new(metrics(), flat_wave(), AllowSquareGlyphOverflow::Never);
    let mut atlas = CountingAtlas::new();
    atlas.capacity = 0;
    let key = CustomGlyphKey::BoxDrawing(BoxDrawingKey::LightVertical);
    assert_eq!(cache.cached_custom_glyph(&mut atlas, key), Err(AtlasError { size: 16 }));
    atlas.capacity = usize::MAX;
    assert_eq!(cache.cached_custom_glyph(&mut atlas, key), Ok(SpriteId { index: 0 }));
}

#[test]
fn animation_advances_one_frame_per_due_poll() {
    let frame = |v: u8| ImageFrame { duration: 100 * MS, image: Image::from_rgba(1, 1, &vec![v, v, v, 255]).unwrap() };
    let mut d = DecodedImage { frame_start: 0, current_frame: 0, frames: vec![frame(1), frame(2), frame(3)] };
    assert_eq!(d.advance(50 * MS), Some(100 * MS));
    assert_eq!(d.current_frame, 0);
    assert_eq!(d.advance(100 * MS), Some(200 * MS));
    assert_eq!(d.current_frame, 1);
    assert_eq!(d.advance(200 * MS), Some(300 * MS));
    assert_eq!(d.current_frame, 2);
    assert_eq!(d.advance(250 * MS), Some(300 * MS));
    assert_eq!(d.current_frame, 2);
    assert_eq!(d.frame_start, 200 * MS);
    assert_eq!(d.advance(300 * MS), Some(400 * MS));
    assert_eq!(d.current_frame, 0);
}

#[test]
fn single_frame_never_advances() {
    let mut d = DecodedImage::placeholder(5);
    assert_eq!(d.advance(u64::MAX), None);
    assert_eq!(d.current_frame, 0);
    assert_eq!(d.frames[0].image.rows, vec![vec![CLEAR]]);
    let raw = RawFrame { duration: 0, width: 1, height: 1, rgba: vec![9, 9, 9, 9] };
    let mut single = DecodedImage::with_single(&raw, 7).unwrap();
    assert_eq!(single.advance(1_000 * MS), None);
    assert!(DecodedImage::with_frames(&Vec::new(), 0).is_none());
}

#[test]
fn gif_frames_are_decoded() {
    let d = DecodedImage::load(&three_frame_gif(), 0).unwrap();
    assert_eq!(d.frames.len(), 3);
    assert_eq!(d.frames[1].duration, 100 * MS);
    assert_eq!(d.frames[2].image.width, 2);
    assert!(DecodedImage::load(b"not an image", 0).is_none());
}

#[test]
fn animated_image_reports_next_due_time() {
    let gif = three_frame_gif();
    let mut cache = GlyphCache::new(metrics(), flat_wave(), AllowSquareGlyphOverflow::Never);
    let mut atlas = CountingAtlas::new();
    let (s0, due0) = cache.cached_image(&mut atlas, 1, &gif, None, 0).unwrap();
    assert_eq!((s0, due0), (SpriteId { index: 0 }, Some(100 * MS)));
    let (s1, due1) = cache.cached_image(&mut atlas, 1, &gif, None, 100 * MS).unwrap();
    assert_eq!((s1, due1), (SpriteId { index: 1 }, Some(200 * MS)));
    let (s2, due2) = cache.cached_image(&mut atlas, 1, &gif, None, 200 * MS).unwrap();
    assert_eq!((s2, due2), (SpriteId { index: 2 }, Some(300 * MS)));
    let (s3, due3) = cache.cached_image(&mut atlas, 1, &gif, None, 250 * MS).unwrap();
    assert_eq!((s3, due3), (SpriteId { index: 2 }, Some(300 * MS)));
    let (s4, due4) = cache.cached_image(&mut atlas, 1, &gif, None, 300 * MS).unwrap();
    assert_eq!((s4, due4), (SpriteId { index: 0 }, Some(400 * MS)));
    assert_eq!(atlas.allocated, 3);
}

#[test]
fn still_images_have_no_due_time() {
    let mut cache = GlyphCache::new(metrics(), flat_wave(), AllowSquareGlyphOverflow::Never);
    let mut atlas = CountingAtlas::new();
    let first = cache.cached_image(&mut atlas, 4, b"garbage", Some(1), 0).unwrap();
    assert_eq!(first, (SpriteId { index: 0 }, None));
    let again = cache.cached_image(&mut atlas, 4, b"garbage", Some(1), 10 * MS).unwrap();
    assert_eq!(again, first);
    assert_eq!(atlas.allocated, 1);
}

#[test]
fn clear_keeps_decoded_images() {
    let gif = three_frame_gif();
    let mut cache = GlyphCache::new(metrics(), flat_wave(), AllowSquareGlyphOverflow::Never);
    let mut atlas = CountingAtlas::new();
    let mut fonts = FakeFonts::new(4, 8);
    cache.cached_image(&mut atlas, 1, &gif, None, 0).unwrap();
    cache.cached_image(&mut atlas, 1, &gif, None, 150 * MS).unwrap();
    let key = CustomGlyphKey::Block(BlockKey::Full(BlockAlpha::Dark));
    cache.cached_custom_glyph(&mut atlas, key).unwrap();
    cache.cached_glyph(&mut fonts, &mut atlas, &info(), &style(), false).unwrap();
    cache.cached_line_sprite(&mut atlas, false, true, Underline::NoUnderline, false).unwrap();
    cache.clear(&mut atlas);
    assert_eq!(atlas.cleared, 1);
    // the animation carries on from its second frame rather than starting over
    let (sprite, due) = cache.cached_image(&mut atlas, 1, &gif, None, 160 * MS).unwrap();
    assert_eq!(sprite, SpriteId { index: 0 });
    assert_eq!(due, Some(250 * MS));
    // every sprite is drawn again
    assert_eq!(cache.cached_custom_glyph(&mut atlas, key).unwrap(), SpriteId { index: 1 });
    cache.cached_glyph(&mut fonts, &mut atlas, &info(), &style(), false).unwrap();
    assert_eq!(fonts.rasterized, 2);
    let line = cache.cached_line_sprite(&mut atlas, false, true, Underline::NoUnderline, false).unwrap();
    assert_eq!(line, SpriteId { index: 3 });
}

#[test]
fn still_png_is_decoded_to_its_pixels() {
    let mut bytes = Vec::new();
    let buffer = image::RgbaImage::from_pixel(2, 1, image::Rgba([1, 2, 3, 4]));
    image::DynamicImage::ImageRgba8(buffer)
        .write_to(&mut std::io::Cursor::new(&mut bytes), image::ImageOutputFormat::Png)
        .unwrap();
    let d = DecodedImage::load(&bytes, 9).unwrap();
    assert_eq!(d.frames.len(), 1);
    assert_eq!(d.frame_start, 9);
    assert_eq!(d.frames[0].duration, 0);
    assert_eq!(d.frames[0].image.rows, vec![vec![0x0403_0201, 0x0403_0201]]);
}

#[test]
fn lower_blocks_fill_eighths_from_the_bottom() {
    let m = metrics();
    for n in 1..=7u8 {
        let img = block_image(&m, BlockKey::Lower(n));
        let expected: Vec<usize> = (16 - 2 * n as usize..16).collect();
        assert_eq!(rows_where(&img, 0, WHITE), expected);
        let right = block_image(&m, BlockKey::Right(n));
        let cols: Vec<usize> = (8 - n as usize..8).collect();
        assert_eq!(cols_where(&right, 0, WHITE), cols);
    }
}

#[test]
fn thin_box_lines_are_one_pixel_thick() {
    let mut m = metrics();
    m.underline_height = 1;
    let horizontal = box_drawing_image(&m, BoxDrawingKey::LightHorizontal);
    assert_eq!(rows_where(&horizontal, 0, WHITE), vec![8]);
    let vertical = box_drawing_image(&m, BoxDrawingKey::LightVertical);
    assert_eq!(cols_where(&vertical, 0, WHITE), vec![4]);
    let heavy = box_drawing_image(&m, BoxDrawingKey::HeavyVertical);
    assert_eq!(cols_where(&heavy, 0, WHITE), vec![3, 4]);
}

#[test]
fn rasters_become_glyphs_by_the_scale_policy() {
    let base = FontMetrics { cell_width: 512, cell_height: 1024 };
    let square = FontMetrics { cell_width: 1024, cell_height: 1024 };
    let raster = RasterizedGlyph {
        width: 20,
        height: 2,
        bearing_x: 100,
        bearing_y: -10,
        has_color: true,
        data: vec![0; 160],
    };
    let sprite = SpriteId { index: 5 };
    let g = glyph_from_raster(&base, &square, &raster, &info(), AllowSquareGlyphOverflow::Never, false, sprite).unwrap();
    assert_eq!(g.texture, Some(sprite));
    assert_eq!(g.bearing_x, 50);
    assert_eq!(g.bearing_y, -5);
    assert_eq!(g.x_offset, 32);
    assert_eq!(g.scale, Scale { num: 1, den: 1 });
    let short = RasterizedGlyph { data: vec![0; 159], ..raster.clone() };
    assert!(glyph_from_raster(&base, &square, &short, &info(), AllowSquareGlyphOverflow::Never, false, sprite).is_none());
    let empty = RasterizedGlyph { width: 0, data: Vec::new(), ..raster.clone() };
    let blank = glyph_from_raster(&base, &square, &empty, &info(), AllowSquareGlyphOverflow::Never, false, sprite).unwrap();
    assert_eq!(blank.texture, None);
    assert_eq!(blank.bearing_x, 0);
    let flat = FontMetrics { cell_width: 0, cell_height: 1024 };
    assert!(glyph_from_raster(&base, &flat, &raster, &info(), AllowSquareGlyphOverflow::Never, false, sprite).is_none());
}
