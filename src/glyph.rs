//! The scale policy of rasterized glyphs: how a glyph drawn from a fallback
//! font is fitted to the cell of the base font.
use vstd::prelude::*;

verus! {

/// Whether a square or wide glyph may grow wider than its cells.
#[derive(Debug, Clone, Copy, PartialEq, Eq, Structural)]
pub enum AllowSquareGlyphOverflow {
    Never,
    Always,
    WhenFollowedBySpace,
}

/// The cell size of a font, in 1/64 pixel; both sides are positive.
#[derive(Debug, Clone, Copy, PartialEq, Eq, Structural)]
pub struct FontMetrics {
    pub cell_width: u32,
    pub cell_height: u32,
}

impl FontMetrics {
    pub open spec fn wf(&self) -> bool {
        self.cell_width > 0 && self.cell_height > 0
    }
}

/// A shaped glyph: which font and glyph to draw, over how many cells, and
/// its offsets (in 1/64 pixel) from the pen position.
#[derive(Debug, Clone, Copy, PartialEq, Eq, Structural)]
pub struct GlyphInfo {
    pub font_idx: usize,
    pub glyph_pos: u32,
    pub num_cells: u8,
    pub x_offset: i32,
    pub y_offset: i32,
}

/// A rasterized glyph: its size in pixels, its bearings in 1/64 pixel,
/// and its RGBA bytes.
#[derive(Debug, Clone)]
pub struct RasterizedGlyph {
    pub width: usize,
    pub height: usize,
    pub bearing_x: i32,
    pub bearing_y: i32,
    pub has_color: bool,
    pub data: Vec<u8>,
}

/// A scale factor `num / den`, with `den` positive.
#[derive(Debug, Clone, Copy, PartialEq, Eq, Structural)]
pub struct Scale {
    pub num: u64,
    pub den: u64,
}

impl Scale {
    pub open spec fn wf(&self) -> bool {
        self.den > 0
    }

    /// Whether the factor is one.
    pub fn is_identity(&self) -> (r: bool)
        ensures
            r == (self.num == self.den),
    {
        self.num == self.den
    }
}

/// Handle of a sprite in the texture atlas.
#[derive(Debug, Clone, Copy, PartialEq, Eq, Structural, Hash)]
pub struct SpriteId {
    pub index: usize,
}

/// A glyph ready for rendering; `texture` is absent for whitespace.
#[derive(Debug, Clone, Copy, PartialEq, Eq, Structural)]
pub struct CachedGlyph {
    pub has_color: bool,
    pub x_offset: i128,
    pub y_offset: i128,
    pub bearing_x: i128,
    pub bearing_y: i128,
    pub texture: Option<SpriteId>,
    pub scale: Scale,
}

/// The scale that fits the glyph font's cell height to the base cell height.
pub open spec fn y_scale(base: FontMetrics, idx: FontMetrics) -> Scale {
    Scale { num: base.cell_height as u64, den: idx.cell_height as u64 }
}

/// The scale that fits `num_cells` of the glyph font's cells to as many
/// base cells.
pub open spec fn x_scale(base: FontMetrics, idx: FontMetrics, num_cells: u8) -> Scale {
    Scale { num: (base.cell_width * num_cells) as u64, den: idx.cell_width as u64 }
}

/// A font whose cell is at least nine tenths as high as wide counts as
/// square or wide.
pub open spec fn is_square_or_wide(idx: FontMetrics) -> bool {
    10 * idx.cell_height >= 9 * idx.cell_width
}

pub open spec fn allows_overflow(
    idx: FontMetrics,
    policy: AllowSquareGlyphOverflow,
    followed_by_space: bool,
) -> bool {
    is_square_or_wide(idx) && match policy {
        AllowSquareGlyphOverflow::Never => false,
        AllowSquareGlyphOverflow::Always => true,
        AllowSquareGlyphOverflow::WhenFollowedBySpace => followed_by_space,
    }
}

/// Whether scaling a glyph `glyph_width` pixels wide by the y scale makes
/// it wider than `num_cells` base cells.
pub open spec fn too_wide(base: FontMetrics, idx: FontMetrics, glyph_width: int, num_cells: u8) -> bool {
    base.cell_height * glyph_width * 64 > base.cell_width * num_cells * idx.cell_height
}

/// The scale applied to a glyph: the y scale, unless overflow is not
/// allowed and the y scale would make the glyph too wide, in which case
/// the x scale.
pub open spec fn chosen_scale(
    base: FontMetrics,
    idx: FontMetrics,
    glyph_width: int,
    num_cells: u8,
    policy: AllowSquareGlyphOverflow,
    followed_by_space: bool,
) -> Scale {
    if !allows_overflow(idx, policy, followed_by_space) && too_wide(
        base,
        idx,
        glyph_width,
        num_cells,
    ) {
        x_scale(base, idx, num_cells)
    } else {
        y_scale(base, idx)
    }
}

/// `v * s`, rounded toward zero.
pub open spec fn scale_len(v: int, s: Scale) -> int {
    if v >= 0 {
        v * (s.num as int) / (s.den as int)
    } else {
        -((-v) * (s.num as int) / (s.den as int))
    }
}

pub fn choose_scale(
    base: &FontMetrics,
    idx: &FontMetrics,
    glyph_width: usize,
    num_cells: u8,
    policy: AllowSquareGlyphOverflow,
    followed_by_space: bool,
) -> (r: Scale)
    requires
        base.wf(),
        idx.wf(),
        glyph_width <= u32::MAX,
    ensures
        r == chosen_scale(*base, *idx, glyph_width as int, num_cells, policy, followed_by_space),
        r.wf(),
{
    let square_or_wide = 10 * (idx.cell_height as u64) >= 9 * (idx.cell_width as u64);
    let allow = if square_or_wide {
        match policy {
            AllowSquareGlyphOverflow::Never => false,
            AllowSquareGlyphOverflow::Always => true,
            AllowSquareGlyphOverflow::WhenFollowedBySpace => followed_by_space,
        }
    } else {
        false
    };
    proof {
        assert((base.cell_height as u64) * (glyph_width as u64) <= 0xffff_ffff * 0xffff_ffff)
            by (nonlinear_arith)
            requires base.cell_height <= 0xffff_ffff, glyph_width <= 0xffff_ffff;
        assert((base.cell_width as u64) * (num_cells as u64) <= 0xffff_ffff * 0xff)
            by (nonlinear_arith)
            requires base.cell_width <= 0xffff_ffff, num_cells <= 0xff;
    }
    let lhs: u128 = (base.cell_height as u64 * glyph_width as u64) as u128 * 64;
    let cells: u64 = base.cell_width as u64 * num_cells as u64;
    proof {
        assert((cells as u128) * (idx.cell_height as u128) <= 0xffff_ffff * 0xff * 0xffff_ffff)
            by (nonlinear_arith)
            requires cells <= 0xffff_ffff * 0xff, idx.cell_height <= 0xffff_ffff;
    }
    let rhs: u128 = cells as u128 * idx.cell_height as u128;
    if !allow && lhs > rhs {
        Scale { num: cells, den: idx.cell_width as u64 }
    } else {
        Scale { num: base.cell_height as u64, den: idx.cell_height as u64 }
    }
}

fn scale_exec(v: i32, s: Scale) -> (r: i128)
    requires
        s.wf(),
    ensures
        r == scale_len(v as int, s),
{
    let mag: u128 = if v >= 0 {
        v as u128
    } else {
        (-(v as i64)) as u128
    };
    proof {
        assert(mag * (s.num as u128) <= 0x8000_0000 * 0xffff_ffff_ffff_ffff) by (nonlinear_arith)
            requires mag <= 0x8000_0000, s.num <= 0xffff_ffff_ffff_ffff;
        assert((mag * s.num) / (s.den as int) <= mag * s.num) by (nonlinear_arith)
            requires s.den >= 1, mag * s.num >= 0;
    }
    let q: u128 = mag * (s.num as u128) / (s.den as u128);
    if v >= 0 {
        q as i128
    } else {
        -(q as i128)
    }
}

/// Whether a rasterized glyph has no pixels, as whitespace does.
pub open spec fn is_whitespace(width: int, height: int) -> bool {
    width == 0 || height == 0
}

/// The cached form of a glyph, given the scale chosen for it and, unless
/// it is whitespace, the sprite that holds its (resampled) pixels. A glyph
/// with pixels is stored resampled, so its recorded scale is one.
pub open spec fn glyph_spec(
    info: GlyphInfo,
    bearing_x: int,
    bearing_y: int,
    has_color: bool,
    whitespace: bool,
    scale: Scale,
    sprite: SpriteId,
) -> CachedGlyph {
    CachedGlyph {
        has_color,
        x_offset: scale_len(info.x_offset as int, scale) as i128,
        y_offset: scale_len(info.y_offset as int, scale) as i128,
        bearing_x: if whitespace {
            0
        } else {
            scale_len(bearing_x, scale) as i128
        },
        bearing_y: if whitespace {
            0
        } else {
            scale_len(bearing_y, scale) as i128
        },
        texture: if whitespace {
            None
        } else {
            Some(sprite)
        },
        scale: if whitespace {
            scale
        } else {
            Scale { num: 1, den: 1 }
        },
    }
}

/// Builds the cached glyph for a rasterized glyph; `sprite` is used only
/// when the glyph has pixels.
pub fn make_glyph(
    info: &GlyphInfo,
    bearing_x: i32,
    bearing_y: i32,
    has_color: bool,
    whitespace: bool,
    scale: Scale,
    sprite: SpriteId,
) -> (r: CachedGlyph)
    requires
        scale.wf(),
    ensures
        r == glyph_spec(*info, bearing_x as int, bearing_y as int, has_color, whitespace, scale, sprite),
{
    let x_offset = scale_exec(info.x_offset, scale);
    let y_offset = scale_exec(info.y_offset, scale);
    if whitespace {
        CachedGlyph {
            has_color,
            texture: None,
            x_offset,
            y_offset,
            bearing_x: 0,
            bearing_y: 0,
            scale,
        }
    } else {
        CachedGlyph {
            has_color,
            texture: Some(sprite),
            x_offset,
            y_offset,
            bearing_x: scale_exec(bearing_x, scale),
            bearing_y: scale_exec(bearing_y, scale),
            scale: Scale { num: 1, den: 1 },
        }
    }
}

/// Whether a rasterized glyph can be cached: both cells have a size, the
/// width fits in 32 bits, and a glyph with pixels has four bytes for each.
pub open spec fn raster_usable(base: FontMetrics, idx: FontMetrics, raster: RasterizedGlyph) -> bool {
    &&& base.wf()
    &&& idx.wf()
    &&& raster.width <= u32::MAX
    &&& (is_whitespace(raster.width as int, raster.height as int) || raster.data@.len() == 4
        * raster.width * raster.height)
}

/// The cached form of a rasterized glyph, scaled by the scale policy;
/// `sprite` holds its pixels unless it is whitespace. `None` when the
/// glyph cannot be cached.
pub fn glyph_from_raster(
    base: &FontMetrics,
    idx: &FontMetrics,
    raster: &RasterizedGlyph,
    info: &GlyphInfo,
    overflow: AllowSquareGlyphOverflow,
    followed_by_space: bool,
    sprite: SpriteId,
) -> (r: Option<CachedGlyph>)
    ensures
        r is Some <==> raster_usable(*base, *idx, *raster),
        r matches Some(g) ==> g == glyph_spec(
            *info,
            raster.bearing_x as int,
            raster.bearing_y as int,
            raster.has_color,
            is_whitespace(raster.width as int, raster.height as int),
            chosen_scale(*base, *idx, raster.width as int, info.num_cells, overflow, followed_by_space),
            sprite,
        ),
{
    if base.cell_width == 0 || base.cell_height == 0 || idx.cell_width == 0
        || idx.cell_height == 0 || raster.width > 0xffff_ffff {
        return None;
    }
    let whitespace = raster.width == 0 || raster.height == 0;
    if !whitespace {
        let n = raster.data.len();
        if n % 4 != 0 || (n / 4) % raster.width != 0 || (n / 4) / raster.width != raster.height {
            proof {
                if raster.data@.len() == 4 * raster.width * raster.height {
                    crate::bitmap::lemma_div_exact(n as int, raster.width as int, raster.height as int);
                }
            }
            return None;
        }
        proof {
            crate::bitmap::lemma_exact_size(n as int, raster.width as int, raster.height as int);
        }
    }
    let scale = choose_scale(base, idx, raster.width, info.num_cells, overflow, followed_by_space);
    Some(make_glyph(info, raster.bearing_x, raster.bearing_y, raster.has_color, whitespace, scale, sprite))
}

/// Whether `g` is the cached form of `raster`, placed in `sprite`.
pub open spec fn is_glyph_of(
    g: CachedGlyph,
    info: GlyphInfo,
    overflow: AllowSquareGlyphOverflow,
    followed_by_space: bool,
    base: FontMetrics,
    idx: FontMetrics,
    raster: RasterizedGlyph,
    sprite: SpriteId,
) -> bool {
    raster_usable(base, idx, raster) && g == glyph_spec(
        info,
        raster.bearing_x as int,
        raster.bearing_y as int,
        raster.has_color,
        is_whitespace(raster.width as int, raster.height as int),
        chosen_scale(base, idx, raster.width as int, info.num_cells, overflow, followed_by_space),
        sprite,
    )
}

/// Whether a cached glyph has the shape every cached glyph has: without a
/// sprite it has no bearings, and with one it is stored unscaled.
pub open spec fn glyph_shaped(g: CachedGlyph) -> bool {
    &&& g.texture is None ==> g.bearing_x == 0 && g.bearing_y == 0
    &&& g.texture is Some ==> g.scale == Scale { num: 1, den: 1 }
}

/// When overflow is not allowed and the y scale would make the glyph wider
/// than its cells, the x scale is chosen, not the y scale.
pub proof fn lemma_overflow_falls_back_to_x_scale(
    base: FontMetrics,
    idx: FontMetrics,
    glyph_width: int,
    num_cells: u8,
    policy: AllowSquareGlyphOverflow,
    followed_by_space: bool,
)
    requires
        base.wf(),
        idx.wf(),
        !allows_overflow(idx, policy, followed_by_space),
        too_wide(base, idx, glyph_width, num_cells),
    ensures
        chosen_scale(base, idx, glyph_width, num_cells, policy, followed_by_space) == x_scale(
            base,
            idx,
            num_cells,
        ),
{
}

/// A whitespace glyph never gets a sprite.
pub proof fn lemma_whitespace_has_no_sprite(
    info: GlyphInfo,
    bearing_x: int,
    bearing_y: int,
    has_color: bool,
    width: int,
    height: int,
    scale: Scale,
    sprite: SpriteId,
)
    requires
        is_whitespace(width, height),
    ensures
        glyph_spec(
            info,
            bearing_x,
            bearing_y,
            has_color,
            is_whitespace(width, height),
            scale,
            sprite,
        ).texture is None,
{
}

} // verus!
